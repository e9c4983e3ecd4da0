//! Guarded access to the module directory: names that could climb out of it
//! are refused before the disk is touched.

use vstd::prelude::*;
use crate::crc32;
use crate::text::{chars_of, contains_chars, occurs_at, occurs_in};
use crate::text::{ends_with, lemma_ends_with_concat, lemma_starts_with_concat, starts_with};

verus! {

/// What the disk holds at a path: nothing, a regular file, a directory, or
/// something else (a socket, a device, ...).
#[derive(Clone, Copy, Debug, PartialEq, Eq, Structural)]
pub enum PathKind {
    Missing,
    File,
    Directory,
    Other,
}

/// The directory that binary modules live in.
pub open spec fn dll_place() -> Seq<char> {
    "garrysmod\\lua\\bin"@
}

/// Where the module file `file` lives: `dll_place()`, a backslash, `file`.
pub open spec fn dll_path_of(file: Seq<char>) -> Seq<char> {
    dll_place() + seq!['\\'] + file
}

/// The patterns that make a path unsafe: `../` and `..\`.
pub open spec fn parent_slash() -> Seq<char> {
    seq!['.', '.', '/']
}

pub open spec fn parent_backslash() -> Seq<char> {
    seq!['.', '.', '\\']
}

/// `input` holds `../` or `..\`.
pub open spec fn path_unsafe(input: Seq<char>) -> bool {
    occurs_in(input, parent_slash()) || occurs_in(input, parent_backslash())
}

/// What `path_exists` answers for a path whose disk entry is of kind `kind`.
pub open spec fn exists_spec(file: Seq<char>, kind: PathKind) -> bool {
    !path_unsafe(file) && kind != PathKind::Missing
}

/// What `is_file` answers for a path whose disk entry is of kind `kind`.
pub open spec fn is_file_spec(file: Seq<char>, kind: PathKind) -> bool {
    !path_unsafe(file) && kind == PathKind::File
}

/// Whether `input` holds `../` or `..\`.
pub fn is_path_unsafe(input: &str) -> (r: bool)
    ensures
        r == path_unsafe(input@),
{
    let hay = chars_of(input);
    let patterns: Vec<Vec<char>> = vec![vec!['.', '.', '/'], vec!['.', '.', '\\']];
    let mut k: usize = 0;
    while k < 2
        invariant
            hay@ == input@,
            k <= 2,
            patterns@.len() == 2,
            patterns@[0]@ == parent_slash(),
            patterns@[1]@ == parent_backslash(),
            k >= 1 ==> !occurs_in(input@, parent_slash()),
            k >= 2 ==> !occurs_in(input@, parent_backslash()),
        decreases 2 - k,
    {
        if contains_chars(&hay, &patterns[k]) {
            return true;
        }
        k = k + 1;
    }
    false
}

/// Why a module file could not be created.
#[derive(Clone, Copy, Debug, PartialEq, Eq, Structural)]
pub enum FileError {
    /// The name holds `../` or `..\`.
    UnsafePath,
    /// The disk refused to create the file (it exists already, or the
    /// directory is missing or read-only).
    CannotCreate,
}

impl FileError {
    /// The text that the error is reported with.
    pub fn message(&self) -> (r: &'static str)
        ensures
            r@ == (match self {
                FileError::UnsafePath => "Path using unsafe symbols"@,
                FileError::CannotCreate => "Cannot create file!"@,
            }),
    {
        match self {
            FileError::UnsafePath => "Path using unsafe symbols",
            FileError::CannotCreate => "Cannot create file!",
        }
    }
}

/// The path of the module file `file` inside the module directory.
pub fn dll_path(file: &str) -> (r: String)
    ensures
        r@ == dll_path_of(file@),
{
    let mut p = String::from_str("garrysmod\\lua\\bin");
    let sep = "\\";
    proof {
        reveal_strlit("\\");
    }
    assert(sep@ == seq!['\\']);
    p.append(sep);
    p.append(file);
    p
}

/// A path ends up unsafe exactly where the name it was built from is: the
/// directory part holds no dot, so no `../` or `..\` can straddle the joint.
pub proof fn lemma_dll_path_unsafe(file: Seq<char>)
    ensures
        path_unsafe(dll_path_of(file)) == path_unsafe(file),
{
    reveal_strlit("garrysmod\\lua\\bin");
    let full = dll_path_of(file);
    let q = dll_place() + seq!['\\'];
    assert(full =~= q + file);
    assert(q.len() == 18);
    assert forall|k: int| 0 <= k < 18 implies full[k] != '.' by {
        assert(full[k] == q[k]);
    }
    assert forall|pat: Seq<char>, i: int|
        pat.len() == 3 && occurs_at(file, pat, i) implies occurs_at(full, pat, i + 18) by {
        assert(full.subrange(i + 18, i + 21) =~= file.subrange(i, i + 3));
    }
    assert forall|pat: Seq<char>, k: int|
        pat.len() == 3 && pat[0] == '.' && occurs_at(full, pat, k) implies occurs_at(
        file,
        pat,
        k - 18,
    ) by {
        assert(full.subrange(k, k + 3)[0] == pat[0]);
        assert(full[k] == '.');
        assert(k >= 18);
        assert(full.subrange(k, k + 3) =~= file.subrange(k - 18, k - 15));
    }
    if occurs_in(file, parent_slash()) {
        let i = choose|i: int| occurs_at(file, parent_slash(), i);
        assert(occurs_at(full, parent_slash(), i + 18));
    }
    if occurs_in(file, parent_backslash()) {
        let i = choose|i: int| occurs_at(file, parent_backslash(), i);
        assert(occurs_at(full, parent_backslash(), i + 18));
    }
    if occurs_in(full, parent_slash()) {
        let k = choose|k: int| occurs_at(full, parent_slash(), k);
        assert(occurs_at(file, parent_slash(), k - 18));
    }
    if occurs_in(full, parent_backslash()) {
        let k = choose|k: int| occurs_at(full, parent_backslash(), k);
        assert(occurs_at(file, parent_backslash(), k - 18));
    }
}

/// Whether something is on disk at `file`, where `kind` is what the disk
/// holds there; a name holding `../` or `..\` counts as absent.
pub fn path_exists(file: &str, kind: PathKind) -> (r: bool)
    ensures
        r == exists_spec(file@, kind),
{
    if is_path_unsafe(file) {
        return false;
    }
    kind != PathKind::Missing
}

/// Whether a regular file is on disk at `file`, where `kind` is what the
/// disk holds there; a name holding `../` or `..\` counts as absent.
pub fn is_file(file: &str, kind: PathKind) -> (r: bool)
    ensures
        r == is_file_spec(file@, kind),
{
    if is_path_unsafe(file) {
        return false;
    }
    kind == PathKind::File
}

/// The path to delete for the module file `file`, where `kind` is what the
/// disk holds at `dll_path(file)`: only a regular file under a safe name is
/// deleted; `None` means nothing is to be deleted (and the removal failed).
pub fn remove_file(file: &str, kind: PathKind) -> (r: Option<String>)
    ensures
        r is Some <==> is_file_spec(file@, kind),
        r matches Some(p) ==> p@ == dll_path_of(file@),
{
    let path = dll_path(file);
    proof {
        lemma_dll_path_unsafe(file@);
    }
    if is_path_unsafe(file) || !path_exists(path.as_str(), kind) || !is_file(path.as_str(), kind) {
        return None;
    }
    Some(path)
}

/// The CRC32 checksum of the module file `file`, where `kind` is what the
/// disk holds at `dll_path(file)` and `contents` are the bytes of that file;
/// 0 where the name is unsafe or no regular file is there (and then
/// `contents` are not looked at).
pub fn calc_crc32(file: &str, kind: PathKind, contents: &[u8]) -> (r: u32)
    ensures
        r == (if is_file_spec(file@, kind) {
            crc32::crc32_checksum(contents@)
        } else {
            0
        }),
{
    let path = dll_path(file);
    proof {
        lemma_dll_path_unsafe(file@);
    }
    if is_path_unsafe(file) || !path_exists(path.as_str(), kind) || !is_file(path.as_str(), kind) {
        return 0;
    }
    crc32::calc_crc32_file(kind, contents)
}

/// The path at which to create the module file `file`, or
/// `FileError::UnsafePath` where the name holds `../` or `..\`.
pub fn create_file(file: &str) -> (r: Result<String, FileError>)
    ensures
        r matches Ok(p) ==> p@ == dll_path_of(file@),
        r is Err <==> path_unsafe(file@),
        r matches Err(e) ==> e == FileError::UnsafePath,
{
    let path = dll_path(file);
    if is_path_unsafe(file) {
        return Err(FileError::UnsafePath);
    }
    Ok(path)
}

/// `s` climbs to a parent directory at position `i`: two dots and a slash
/// or a backslash.
pub open spec fn climbs_at(s: Seq<char>, i: int) -> bool {
    0 <= i && i + 2 < s.len() && s[i] == '.' && s[i + 1] == '.' && (s[i + 2] == '/' || s[i + 2]
        == '\\')
}

/// A name is refused exactly where, somewhere in it, two dots are followed
/// by a slash or a backslash.
pub proof fn lemma_path_unsafe_chars(s: Seq<char>)
    ensures
        path_unsafe(s) <==> exists|i: int| climbs_at(s, i),
{
    if occurs_in(s, parent_slash()) {
        let i = choose|i: int| occurs_at(s, parent_slash(), i);
        assert(s.subrange(i, i + 3)[0] == s[i]);
        assert(s.subrange(i, i + 3)[1] == s[i + 1]);
        assert(s.subrange(i, i + 3)[2] == s[i + 2]);
        assert(climbs_at(s, i));
    }
    if occurs_in(s, parent_backslash()) {
        let i = choose|i: int| occurs_at(s, parent_backslash(), i);
        assert(s.subrange(i, i + 3)[0] == s[i]);
        assert(s.subrange(i, i + 3)[1] == s[i + 1]);
        assert(s.subrange(i, i + 3)[2] == s[i + 2]);
        assert(climbs_at(s, i));
    }
    if exists|i: int| climbs_at(s, i) {
        let i = choose|i: int| climbs_at(s, i);
        if s[i + 2] == '/' {
            assert(s.subrange(i, i + 3) =~= parent_slash());
            assert(occurs_at(s, parent_slash(), i));
        } else {
            assert(s.subrange(i, i + 3) =~= parent_backslash());
            assert(occurs_at(s, parent_backslash(), i));
        }
    }
}

/// The path of a module file is the module directory, a backslash and the
/// file's name.
pub proof fn lemma_dll_path_shape(file: Seq<char>)
    ensures
        starts_with(dll_path_of(file), "garrysmod\\lua\\bin\\"@),
        ends_with(dll_path_of(file), file),
        dll_path_of(file).len() == file.len() + 18,
{
    reveal_strlit("garrysmod\\lua\\bin");
    reveal_strlit("garrysmod\\lua\\bin\\");
    assert(dll_place() + seq!['\\'] =~= "garrysmod\\lua\\bin\\"@);
    lemma_starts_with_concat(dll_place() + seq!['\\'], file);
    lemma_ends_with_concat(dll_place() + seq!['\\'], file);
}

/// The guards on what the disk holds: an unsafe name is neither present
/// nor a file; a safe name is present exactly where something is on disk,
/// and a file exactly where a regular file is.
pub proof fn lemma_guards_on_disk(file: Seq<char>, kind: PathKind)
    ensures
        (exists|i: int| climbs_at(file, i)) ==> !exists_spec(file, kind) && !is_file_spec(file, kind),
        !(exists|i: int| climbs_at(file, i)) ==> (exists_spec(file, kind) <==> kind
            != PathKind::Missing) && (is_file_spec(file, kind) <==> kind == PathKind::File),
{
    lemma_path_unsafe_chars(file);
}

/// A regular file exists: whatever `is_file` accepts, `path_exists` accepts.
pub proof fn lemma_is_file_implies_exists(file: Seq<char>, kind: PathKind)
    ensures
        is_file_spec(file, kind) ==> exists_spec(file, kind),
{
}

/// A module file is deleted exactly where `is_file` accepts its full path,
/// and its checksum is taken exactly there too.
pub proof fn lemma_guards_agree(file: Seq<char>, kind: PathKind)
    ensures
        is_file_spec(dll_path_of(file), kind) == is_file_spec(file, kind),
        exists_spec(dll_path_of(file), kind) == exists_spec(file, kind),
{
    lemma_dll_path_unsafe(file);
}

} // verus!
