# b2m

A binary module manager for Garry's Mod. Module binaries are named after the
side they run on and the platform (`gmcl_chttp_win64.dll`), live in
`garrysmod\lua\bin`, are fetched from the package server and are checked
against the CRC32 checksum that their GitHub release publishes.

- `src/` is the verified library: module naming, the guarded access to the
  module directory (names holding `../` or `..\` are refused), checksums
  (computed by `crc32fast`, stated as CRC-32 IEEE), JSON documents (parsed
  and written by `serde_json`, held as the library's `JsonValue`, with the
  field reads verified), the lookup of a release's checksum file, the
  parsing of checksums, and the step functions that decide each request
  and disk action behind the Lua functions.
- `app/` is the Lua module itself: the Garry's Mod bindings, HTTP requests
  and disk access, which hand plain values and events to the library and
  carry out the actions it asks for.
- `tests/` runs the library on concrete inputs.
