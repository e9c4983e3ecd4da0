//! Binary module manager for Garry's Mod: the verified core.
//!
//! Module files are named after the side they run on and the platform;
//! they live in one directory, are fetched from the package server and
//! checked against published CRC32 checksums.

pub mod crc32;
pub mod dll;
pub mod filesafe;
pub mod functions;
pub mod json;
pub mod text;
pub mod versionchecker;

use vstd::prelude::*;
use crate::text::{ends_with, lemma_ends_with_concat, lemma_starts_with_concat, starts_with, str_eq};

verus! {

/// The side tag of a module: `cl` for the client, `sv` for the server.
pub open spec fn side_of(isclient: bool) -> Seq<char> {
    if isclient {
        "cl"@
    } else {
        "sv"@
    }
}

/// The file-name prefix of a module: `gm` and its side tag.
pub open spec fn module_prefix(isclient: bool) -> Seq<char> {
    "gm"@ + side_of(isclient)
}

/// The platform tag for an operating system name and pointer width.
pub open spec fn platform_for(os: Seq<char>, is_x86_64: bool) -> Seq<char> {
    if os == "windows"@ {
        if is_x86_64 {
            "win64"@
        } else {
            "win32"@
        }
    } else if os == "linux"@ {
        if is_x86_64 {
            "linux64"@
        } else {
            "linux"@
        }
    } else if os == "macos"@ {
        "osx"@
    } else {
        "unknown"@
    }
}

/// The file name of module `name`: prefix, `_`, name, `_`, platform, `.dll`.
pub open spec fn module_full_name(name: Seq<char>, isclient: bool, platform: Seq<char>) -> Seq<
    char,
> {
    module_prefix(isclient) + "_"@ + name + "_"@ + platform + ".dll"@
}

/// The side tag of a module.
pub fn side(isclient: bool) -> (r: &'static str)
    ensures
        r@ == side_of(isclient),
{
    if isclient {
        "cl"
    } else {
        "sv"
    }
}

/// The file-name prefix of a module for the client or the server.
pub fn get_module_prefix(isclient: bool) -> (r: String)
    ensures
        r@ == module_prefix(isclient),
{
    let p = String::from_str("gm");
    p.concat(side(isclient))
}

/// The platform tag, for the operating system `os` (as `std::env::consts::OS`
/// names it) and whether the game runs as a 64-bit x86 process.
pub fn get_platform(os: &str, is_x86_64: bool) -> (r: &'static str)
    ensures
        r@ == platform_for(os@, is_x86_64),
{
    if str_eq(os, "windows") {
        if is_x86_64 {
            "win64"
        } else {
            "win32"
        }
    } else if str_eq(os, "linux") {
        if is_x86_64 {
            "linux64"
        } else {
            "linux"
        }
    } else if str_eq(os, "macos") {
        "osx"
    } else {
        "unknown"
    }
}

/// The file name of module `name` for the client or the server, on the
/// platform with tag `platform`.
pub fn get_module_full_name(name: String, isclient: bool, platform: &str) -> (r: String)
    ensures
        r@ == module_full_name(name@, isclient, platform@),
{
    let prefix = get_module_prefix(isclient);
    let r = prefix.concat("_").concat(name.as_str()).concat("_").concat(platform).concat(".dll");
    assert(r@ =~= module_full_name(name@, isclient, platform@));
    r
}

/// Every module file name is a `.dll`, whatever the platform, and starts
/// with `gmcl_` for the client and `gmsv_` for the server.
pub proof fn lemma_module_file_name_shape(name: Seq<char>, isclient: bool, platform: Seq<char>)
    ensures
        ends_with(module_full_name(name, isclient, platform), seq!['.', 'd', 'l', 'l']),
        starts_with(
            module_full_name(name, isclient, platform),
            if isclient {
                seq!['g', 'm', 'c', 'l', '_']
            } else {
                seq!['g', 'm', 's', 'v', '_']
            },
        ),
{
    reveal_strlit(".dll");
    reveal_strlit("gm");
    reveal_strlit("cl");
    reveal_strlit("sv");
    reveal_strlit("_");
    let full = module_full_name(name, isclient, platform);
    let head = module_prefix(isclient) + "_"@;
    let body = module_prefix(isclient) + "_"@ + name + "_"@ + platform;
    assert(".dll"@ =~= seq!['.', 'd', 'l', 'l']);
    lemma_ends_with_concat(body, ".dll"@);
    assert(full =~= head + (name + "_"@ + platform + ".dll"@));
    lemma_starts_with_concat(head, name + "_"@ + platform + ".dll"@);
    if isclient {
        assert(head =~= seq!['g', 'm', 'c', 'l', '_']);
    } else {
        assert(head =~= seq!['g', 'm', 's', 'v', '_']);
    }
}

/// The platform tag: `win…` exactly for Windows, `linux…` exactly for
/// Linux, `osx` exactly for macOS, `unknown` for any other system; the tag
/// ends with `64` exactly for a 64-bit Windows or Linux process, and macOS
/// and unknown systems ignore the pointer width.
pub proof fn lemma_platform_tags(os: Seq<char>, is_x86_64: bool)
    ensures
        starts_with(platform_for(os, is_x86_64), seq!['w', 'i', 'n']) <==> os == "windows"@,
        starts_with(platform_for(os, is_x86_64), seq!['l', 'i', 'n', 'u', 'x']) <==> os
            == "linux"@,
        platform_for(os, is_x86_64) == seq!['o', 's', 'x'] <==> os == "macos"@,
        ends_with(platform_for(os, is_x86_64), seq!['6', '4']) <==> is_x86_64 && (os
            == "windows"@ || os == "linux"@),
        (os != "windows"@ && os != "linux"@) ==> platform_for(os, true) == platform_for(os, false),
        (os != "windows"@ && os != "linux"@ && os != "macos"@) ==> platform_for(os, is_x86_64)
            == seq!['u', 'n', 'k', 'n', 'o', 'w', 'n'],
{
    reveal_strlit("win64");
    reveal_strlit("win32");
    reveal_strlit("linux64");
    reveal_strlit("linux");
    reveal_strlit("osx");
    reveal_strlit("unknown");
    reveal_strlit("windows");
    reveal_strlit("linux");
    reveal_strlit("macos");
    assert("windows"@ != "linux"@) by {
        assert("windows"@.len() != "linux"@.len());
    }
    assert("windows"@ != "macos"@) by {
        assert("windows"@.len() != "macos"@.len());
    }
    assert("linux"@ != "macos"@) by {
        assert("linux"@[0] != "macos"@[0]);
    }
    assert("osx"@ =~= seq!['o', 's', 'x']);
    assert("unknown"@ =~= seq!['u', 'n', 'k', 'n', 'o', 'w', 'n']);
    assert("win64"@.subrange(0, 3) =~= seq!['w', 'i', 'n']);
    assert("win32"@.subrange(0, 3) =~= seq!['w', 'i', 'n']);
    assert("linux64"@.subrange(0, 5) =~= seq!['l', 'i', 'n', 'u', 'x']);
    assert("linux"@.subrange(0, 5) =~= seq!['l', 'i', 'n', 'u', 'x']);
    assert("win64"@.subrange(3, 5) =~= seq!['6', '4']);
    assert("linux64"@.subrange(5, 7) =~= seq!['6', '4']);
    assert("win32"@.subrange(3, 5) != seq!['6', '4']) by {
        assert("win32"@.subrange(3, 5)[0] == '3');
    }
    assert("linux"@.subrange(3, 5) != seq!['6', '4']) by {
        assert("linux"@.subrange(3, 5)[0] == 'u');
    }
    assert("osx"@.subrange(1, 3) != seq!['6', '4']) by {
        assert("osx"@.subrange(1, 3)[0] == 's');
    }
    assert("unknown"@.subrange(5, 7) != seq!['6', '4']) by {
        assert("unknown"@.subrange(5, 7)[0] == 'w');
    }
    assert("linux64"@.subrange(0, 3) != seq!['w', 'i', 'n']) by {
        assert("linux64"@.subrange(0, 3)[0] == 'l');
    }
    assert("linux"@.subrange(0, 3) != seq!['w', 'i', 'n']) by {
        assert("linux"@.subrange(0, 3)[0] == 'l');
    }
    assert("osx"@.subrange(0, 3) != seq!['w', 'i', 'n']) by {
        assert("osx"@.subrange(0, 3)[0] == 'o');
    }
    assert("unknown"@.subrange(0, 3) != seq!['w', 'i', 'n']) by {
        assert("unknown"@.subrange(0, 3)[0] == 'u');
    }
    assert("win64"@.subrange(0, 5) != seq!['l', 'i', 'n', 'u', 'x']) by {
        assert("win64"@.subrange(0, 5)[0] == 'w');
    }
    assert("win32"@.subrange(0, 5) != seq!['l', 'i', 'n', 'u', 'x']) by {
        assert("win32"@.subrange(0, 5)[0] == 'w');
    }
    assert("unknown"@.subrange(0, 5) != seq!['l', 'i', 'n', 'u', 'x']) by {
        assert("unknown"@.subrange(0, 5)[0] == 'u');
    }
    assert("win64"@ != seq!['o', 's', 'x']);
    assert("win32"@ != seq!['o', 's', 'x']);
    assert("linux64"@ != seq!['o', 's', 'x']);
    assert("linux"@ != seq!['o', 's', 'x']);
    assert("unknown"@ != seq!['o', 's', 'x']);
}

/// A client module and a server module never share a file name: the side
/// tag follows the `gm` at the start of the name.
pub proof fn lemma_sides_never_share_a_name(name: Seq<char>, platform: Seq<char>)
    ensures
        module_full_name(name, true, platform) != module_full_name(name, false, platform),
{
    reveal_strlit("gm");
    reveal_strlit("cl");
    reveal_strlit("sv");
    let c = module_full_name(name, true, platform);
    let s = module_full_name(name, false, platform);
    assert(c[2] == 'c');
    assert(s[2] == 's');
}
} // verus!
