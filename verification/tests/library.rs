use b2m::crc32::{calc_crc32, calc_crc32_file, calc_crc32_string};
use b2m::dll::{
    crc_fetch_step, CrcFetchAction, CrcFetchEvent, CrcFetchState, crc_url_from_release, download_step, download_url, find_crc_url, parse_published_crc,
    release_api_url, AssetEntry, AssetsField, CrcLookupError, DownloadAction, DownloadEvent,
    DownloadState,
};
use b2m::filesafe::{
    calc_crc32 as module_crc32, create_file, dll_path, is_file, is_path_unsafe, path_exists,
    remove_file, FileError, PathKind,
};
use b2m::functions::{
    check_module, check_module_reply, check_url, lua_check_step, module_check_step,
    packages_reply, packages_to_check, PackagesVerdict, LuaCheckAction, LuaCheckEvent, LuaCheckState, ModuleCheckAction,
    ModuleCheckEvent, ModuleCheckState, server_packages_url,
    version_url, LuaReply, ModuleAction,
};
use b2m::text::{parse_u32, remove_char, str_eq, trim, ParseIntError};
use DownloadAction as A;
use DownloadEvent as E;
use DownloadState as S;
use b2m::versionchecker::{
    is_newest, is_newest_release, latest_release_url, version_verdict, VersionVerdict,
};
use b2m::json::{object_get, JsonValue};
use b2m::{get_module_full_name, get_module_prefix, get_platform, side};

#[test]
fn crc32_of_check_string() {
    assert_eq!(calc_crc32(b"123456789"), 0xCBF4_3926);
}

#[test]
fn crc32_of_nothing_is_zero() {
    assert_eq!(calc_crc32(b""), 0);
}

#[test]
fn crc32_of_string_hashes_its_utf8_bytes() {
    assert_eq!(calc_crc32_string("123456789".to_string()), 0xCBF4_3926);
    assert_eq!(calc_crc32_string("é".to_string()), calc_crc32(&[0xC3, 0xA9]));
    assert_ne!(calc_crc32_string("é".to_string()), calc_crc32(&[0xE9]));
}

#[test]
fn crc32_of_file_depends_on_what_is_there() {
    assert_eq!(calc_crc32_file(PathKind::Missing, b"123456789"), 0);
    assert_eq!(calc_crc32_file(PathKind::Directory, b"123456789"), 0);
    assert_eq!(calc_crc32_file(PathKind::File, b"123456789"), 0xCBF4_3926);
    assert_eq!(calc_crc32_file(PathKind::Other, b"123456789"), 0xCBF4_3926);
}

#[test]
fn unsafe_patterns_are_found() {
    assert!(is_path_unsafe("../gmcl_x.dll"));
    assert!(is_path_unsafe("a\\..\\b"));
    assert!(is_path_unsafe("dir/../"));
    assert!(!is_path_unsafe("a..b"));
    assert!(!is_path_unsafe(".."));
    assert!(!is_path_unsafe("./a/.b"));
    assert!(!is_path_unsafe(""));
    assert!(!is_path_unsafe("gmcl_chttp_win64.dll"));
}

#[test]
fn module_paths_live_in_the_module_directory() {
    assert_eq!(dll_path("gmsv_x_linux.dll"), "garrysmod\\lua\\bin\\gmsv_x_linux.dll");
    assert_eq!(dll_path(""), "garrysmod\\lua\\bin\\");
}

#[test]
fn exists_and_is_file_refuse_unsafe_names() {
    assert!(path_exists("a.dll", PathKind::File));
    assert!(path_exists("a", PathKind::Directory));
    assert!(path_exists("a", PathKind::Other));
    assert!(!path_exists("a", PathKind::Missing));
    assert!(!path_exists("../a.dll", PathKind::File));
    assert!(is_file("a.dll", PathKind::File));
    assert!(!is_file("a", PathKind::Directory));
    assert!(!is_file("..\\a.dll", PathKind::File));
}

#[test]
fn remove_only_regular_files_under_safe_names() {
    assert_eq!(
        remove_file("gmcl_x_win64.dll", PathKind::File),
        Some("garrysmod\\lua\\bin\\gmcl_x_win64.dll".to_string())
    );
    assert_eq!(remove_file("gmcl_x_win64.dll", PathKind::Missing), None);
    assert_eq!(remove_file("gmcl_x_win64.dll", PathKind::Directory), None);
    assert_eq!(remove_file("../gmcl_x_win64.dll", PathKind::File), None);
}

#[test]
fn module_checksum_needs_a_safe_regular_file() {
    assert_eq!(module_crc32("m.dll", PathKind::File, b"123456789"), 0xCBF4_3926);
    assert_eq!(module_crc32("m.dll", PathKind::Other, b"123456789"), 0);
    assert_eq!(module_crc32("m.dll", PathKind::Missing, b"123456789"), 0);
    assert_eq!(module_crc32("../m.dll", PathKind::File, b"123456789"), 0);
    assert_eq!(module_crc32("m.dll", PathKind::File, b""), 0);
}

#[test]
fn create_refuses_unsafe_names() {
    assert_eq!(create_file("m.dll"), Ok("garrysmod\\lua\\bin\\m.dll".to_string()));
    assert_eq!(create_file("..\\m.dll"), Err(FileError::UnsafePath));
    assert_eq!(FileError::UnsafePath.message(), "Path using unsafe symbols");
    assert_eq!(FileError::CannotCreate.message(), "Cannot create file!");
}

#[test]
fn full_path_and_name_agree_on_safety() {
    for name in ["a.dll", "../a.dll", "..\\a", "x/..", ".", "/..\\", "..", ""] {
        let full = dll_path(name);
        assert_eq!(is_path_unsafe(&full), is_path_unsafe(name));
    }
}

#[test]
fn module_names() {
    assert_eq!(get_module_prefix(true), "gmcl");
    assert_eq!(get_module_prefix(false), "gmsv");
    assert_eq!(side(true), "cl");
    assert_eq!(side(false), "sv");
    assert_eq!(get_module_full_name("chttp".to_string(), true, "win64"), "gmcl_chttp_win64.dll");
    assert_eq!(get_module_full_name("chttp".to_string(), false, "linux"), "gmsv_chttp_linux.dll");
    assert_ne!(
        get_module_full_name("x".to_string(), true, "osx"),
        get_module_full_name("x".to_string(), false, "osx")
    );
}

#[test]
fn platform_tags() {
    assert_eq!(get_platform("windows", true), "win64");
    assert_eq!(get_platform("windows", false), "win32");
    assert_eq!(get_platform("linux", true), "linux64");
    assert_eq!(get_platform("linux", false), "linux");
    assert_eq!(get_platform("macos", true), "osx");
    assert_eq!(get_platform("macos", false), "osx");
    assert_eq!(get_platform("freebsd", true), "unknown");
    assert_eq!(get_platform("Windows", true), "unknown");
}

#[test]
fn release_addresses() {
    assert_eq!(
        release_api_url("chttp", "*"),
        "https://api.github.com/repos/b2mpackages/chttp/releases/latest"
    );
    assert_eq!(
        release_api_url("chttp", "1.0.0"),
        "https://api.github.com/repos/b2mpackages/chttp/releases/tags/1.0.0"
    );
    assert_eq!(
        download_url("chttp", "1.0.0", "win64", true),
        "https://autumngmod.ru/b2m/api/downloadBinary?name=chttp&version=1.0.0&platform=win64&side=cl"
    );
}

fn asset(name: Option<&str>, url: Option<&str>) -> AssetEntry {
    AssetEntry::Object {
        name: name.map(|s| s.to_string()),
        download_url: url.map(|s| s.to_string()),
    }
}

#[test]
fn crc_url_lookup_errors() {
    assert_eq!(find_crc_url(&AssetsField::Missing, "m.dll"), Err(CrcLookupError::NoAssets));
    assert_eq!(find_crc_url(&AssetsField::NotArray, "m.dll"), Err(CrcLookupError::AssetsNotArray));
    assert_eq!(find_crc_url(&AssetsField::Entries(vec![]), "m.dll"), Err(CrcLookupError::NoCrcUrl));
    let entries = vec![
        AssetEntry::NotObject,
        asset(Some("m.dll"), Some("https://x/m.dll")),
        asset(Some("m.dll.txt"), None),
        asset(None, Some("https://x/none")),
    ];
    assert_eq!(find_crc_url(&AssetsField::Entries(entries), "m.dll"), Err(CrcLookupError::NoCrcUrl));
}

#[test]
fn crc_url_lookup_takes_the_last_match() {
    let entries = vec![
        asset(Some("m.dll.txt"), Some("https://x/first")),
        asset(Some("m.dll"), Some("https://x/binary")),
        asset(Some("m.dll.txt"), Some("https://x/second")),
        asset(Some("m.dll.txt"), None),
    ];
    assert_eq!(
        find_crc_url(&AssetsField::Entries(entries), "m.dll"),
        Ok("https://x/second".to_string())
    );
    let entries = vec![
        asset(Some("m.dll.txt"), Some("https://x/first")),
        asset(Some("m.dll.txt"), Some("")),
    ];
    assert_eq!(find_crc_url(&AssetsField::Entries(entries), "m.dll"), Err(CrcLookupError::NoCrcUrl));
}

#[test]
fn published_checksums() {
    assert_eq!(parse_published_crc(" 3421780262\n"), Ok(3421780262));
    assert_eq!(parse_published_crc("+17"), Ok(17));
    assert_eq!(parse_published_crc("  "), Err(ParseIntError::Empty));
    assert_eq!(parse_published_crc("12a"), Err(ParseIntError::InvalidDigit));
    assert_eq!(parse_published_crc("-1"), Err(ParseIntError::InvalidDigit));
    assert_eq!(parse_published_crc("4294967296"), Err(ParseIntError::PosOverflow));
    assert_eq!(parse_published_crc("4294967295"), Ok(u32::MAX));
}

#[test]
fn parse_u32_matches_std() {
    for s in [
        "", "+", "-", "0", "007", "+0", "++1", "1 ", " 1", "4294967295", "4294967296",
        "42949672950", "99999999999x", "4294967290x", "12x99999999999", "٣",
    ] {
        let expected = match s.parse::<u32>() {
            Ok(v) => Ok(v),
            Err(e) => Err(match e.kind() {
                std::num::IntErrorKind::Empty => ParseIntError::Empty,
                std::num::IntErrorKind::InvalidDigit => ParseIntError::InvalidDigit,
                std::num::IntErrorKind::PosOverflow => ParseIntError::PosOverflow,
                _ => panic!("unexpected error kind"),
            }),
        };
        assert_eq!(parse_u32(s), expected, "input {:?}", s);
        if let Err(e) = s.parse::<u32>() {
            assert_eq!(parse_u32(s).unwrap_err().message(), e.to_string());
        }
    }
}

#[test]
fn trim_matches_std() {
    for s in ["", "  ", " a ", "\u{3000}a b\u{85}", "\t\n x\r\n", "\u{200b}a\u{200b}", "ab"] {
        assert_eq!(trim(s), s.trim(), "input {:?}", s);
        assert_eq!(trim(trim(s)), trim(s));
    }
}

#[test]
fn string_helpers() {
    assert!(str_eq("abc", "abc"));
    assert!(!str_eq("abc", "abd"));
    assert!(!str_eq("abc", "ab"));
    assert_eq!(remove_char("\"1.0\"", '"'), vec!['1', '.', '0']);
}

#[test]
fn module_server_addresses() {
    assert_eq!(
        check_url("chttp", "1.0.0", "linux64", false),
        "https://autumngmod.ru/b2m/api/packages/getCRC32?name=chttp&version=1.0.0&platform=linux64&side=sv"
    );
    assert_eq!(
        version_url("chttp"),
        "https://autumngmod.ru/b2m/api/packages/getVersion?name=chttp"
    );
    assert_eq!(
        server_packages_url("127.0.0.1:27015"),
        "https://autumngmod.ru/b2m/api/packages/getServer?serverIP=127.0.0.1:27015"
    );
}

#[test]
fn module_actions() {
    assert_eq!(check_module(0, None), ModuleAction::Download);
    assert_eq!(check_module(0, Some("123")), ModuleAction::Download);
    assert_eq!(check_module(123, None), ModuleAction::Failed);
    assert_eq!(check_module(123, Some("x")), ModuleAction::Failed);
    assert_eq!(check_module(123, Some(" 123")), ModuleAction::Failed);
    assert_eq!(check_module(123, Some("124")), ModuleAction::Download);
    assert_eq!(check_module(123, Some("123")), ModuleAction::UpToDate);
}

#[test]
fn lua_replies() {
    assert_eq!(
        check_module_reply("*", true, Some("2.0.0".to_string())),
        LuaReply::Text("2.0.0".to_string())
    );
    assert_eq!(check_module_reply("*", false, Some("2.0.0".to_string())), LuaReply::False);
    assert_eq!(check_module_reply("*", true, None), LuaReply::False);
    assert_eq!(check_module_reply("1.0.0", true, None), LuaReply::Text("1.0.0".to_string()));
    assert_eq!(check_module_reply("1.0.0", false, None), LuaReply::False);
}

#[test]
fn newest_release() {
    assert!(is_newest("\"0.1.0\"", "0.1.0"));
    assert!(!is_newest("\"0.1.1\"", "0.1.0"));
    assert!(is_newest("0.\"1\".0", "0.1.0"));
    assert!(!is_newest("null", "0.1.0"));
    assert_eq!(
        latest_release_url(),
        "https://api.github.com/repos/autumncommunity/b2m/releases/latest"
    );
}

#[test]
fn crc_url_from_release_text() {
    assert_eq!(crc_url_from_release("not json", "m.dll"), None);
    assert_eq!(crc_url_from_release("{}", "m.dll"), Some(Err(CrcLookupError::NoAssets)));
    assert_eq!(crc_url_from_release("[1, 2]", "m.dll"), Some(Err(CrcLookupError::NoAssets)));
    assert_eq!(
        crc_url_from_release(r#"{"assets": {"name": "m.dll.txt"}}"#, "m.dll"),
        Some(Err(CrcLookupError::AssetsNotArray))
    );
    let body = r#"{
        "name": "1.0.0",
        "assets": [
            3,
            {"name": "m.dll.txt", "browser_download_url": "https://x/first"},
            {"name": "m.dll", "browser_download_url": "https://x/binary"},
            {"name": "m.dll.txt", "browser_download_url": "https://x/second"},
            {"name": "m.dll.txt", "browser_download_url": 7},
            {"name": "other.txt", "browser_download_url": "https://x/other"}
        ]
    }"#;
    assert_eq!(crc_url_from_release(body, "m.dll"), Some(Ok("https://x/second".to_string())));
    assert_eq!(crc_url_from_release(body, "n.dll"), Some(Err(CrcLookupError::NoCrcUrl)));
}

#[test]
fn newest_release_from_text() {
    assert_eq!(is_newest_release(r#"{"name": "0.1.0"}"#, "0.1.0"), Some(true));
    assert_eq!(is_newest_release(r#"{"name": "0.2.0"}"#, "0.1.0"), Some(false));
    assert_eq!(is_newest_release(r#"{"name": null}"#, "0.1.0"), Some(false));
    assert_eq!(is_newest_release(r#"{"name": null}"#, "null"), Some(true));
    assert_eq!(is_newest_release(r#"{"tag": "0.1.0"}"#, "0.1.0"), None);
    assert_eq!(is_newest_release("<html>", "0.1.0"), None);
}

#[test]
fn server_package_checks() {
    let plan = packages_to_check(r#"{"zlib": "1.0", "chttp": "*"}"#).unwrap();
    assert!(plan.complete);
    assert_eq!(plan.checks.len(), 2);
    assert_eq!(plan.checks[0].name, "chttp");
    assert_eq!(plan.checks[0].version, "*");
    assert_eq!(plan.checks[1].name, "zlib");
    assert_eq!(plan.checks[1].version, "1.0");
    assert!(plan.checks.iter().all(|c| c.isclient));

    let plan = packages_to_check(r#"{"a": "1", "b": 2, "c": "3"}"#).unwrap();
    assert!(!plan.complete);
    assert_eq!(plan.checks.len(), 1);
    assert_eq!(plan.checks[0].name, "a");

    let plan = packages_to_check("{}").unwrap();
    assert!(plan.complete);
    assert!(plan.checks.is_empty());

    assert!(packages_to_check("[]").is_none());
    assert!(packages_to_check("nope").is_none());
}

#[test]
fn download_steps() {
    assert_eq!(download_step(S::Start, E::Go), (S::AwaitingBinary, A::RequestBinary));
    assert_eq!(
        download_step(S::AwaitingBinary, E::BinaryReply { success: false }),
        (S::Finished(false), A::ReportHttpError)
    );
    assert_eq!(
        download_step(S::AwaitingBinary, E::BinaryReply { success: true }),
        (S::Writing, A::ReplaceFile)
    );
    assert_eq!(download_step(S::Writing, E::CreateFailed), (S::Finished(false), A::ReportCreateError));
    assert_eq!(download_step(S::Writing, E::CopyFailed), (S::Finished(false), A::ReportCopyError));
    assert_eq!(download_step(S::Writing, E::Written), (S::Verifying, A::FetchChecksums));
    assert_eq!(
        download_step(S::Verifying, E::Checksums { downloaded: 5, published: 5 }),
        (S::Finished(true), A::Keep)
    );
    assert_eq!(
        download_step(S::Verifying, E::Checksums { downloaded: 5, published: 6 }),
        (S::Finished(false), A::RemoveMismatch)
    );
    assert_eq!(
        download_step(S::Verifying, E::Checksums { downloaded: 0, published: 0 }),
        (S::Finished(true), A::Keep)
    );
    assert_eq!(download_step(S::Finished(true), E::Go), (S::Finished(true), A::Nothing));
    assert_eq!(download_step(S::Start, E::Written), (S::Start, A::Nothing));
}

#[test]
fn failed_binary_request_leaves_the_disk_alone() {
    let mut state = S::AwaitingBinary;
    let events = [
        E::BinaryReply { success: false },
        E::Written,
        E::Checksums { downloaded: 1, published: 1 },
    ];
    for event in events {
        let (next, action) = download_step(state, event);
        assert!(action != A::ReplaceFile && action != A::RemoveMismatch && action != A::Keep);
        state = next;
    }
    assert_eq!(state, S::Finished(false));
}

#[test]
fn crc32_of_single_bytes() {
    assert_eq!(calc_crc32(&[0]), 0xD202_EF8D);
    assert_eq!(calc_crc32(b"a"), 0xE8B7_BE43);
    assert_eq!(calc_crc32(b"The quick brown fox jumps over the lazy dog"), 0x414F_A339);
}

/// The bitwise CRC-32 (IEEE) that `crc32_checksum` states, step for step.
fn bitwise_crc32(data: &[u8]) -> u32 {
    let mut register: u32 = 0xFFFF_FFFF;
    for &byte in data {
        register ^= byte as u32;
        for _ in 0..8 {
            register = if register & 1 == 1 { (register >> 1) ^ 0xEDB8_8320 } else { register >> 1 };
        }
    }
    register ^ 0xFFFF_FFFF
}

#[test]
fn crc32_matches_the_stated_definition() {
    let mut data: Vec<u8> = Vec::new();
    for n in 0..300u32 {
        assert_eq!(calc_crc32(&data), bitwise_crc32(&data), "length {}", data.len());
        data.push((n.wrapping_mul(7919) >> 3) as u8);
    }
}

#[test]
fn crc_fetch_steps() {
    let release = r#"{"assets": [{"name": "m.dll.txt", "browser_download_url": "https://x/crc"}]}"#;
    let (s1, a1) = crc_fetch_step("pkg", "m.dll", "*", CrcFetchState::Start, CrcFetchEvent::Go);
    assert_eq!(s1, CrcFetchState::AwaitingRelease);
    assert_eq!(
        a1,
        CrcFetchAction::RequestRelease(
            "https://api.github.com/repos/b2mpackages/pkg/releases/latest".to_string()
        )
    );
    let (s2, a2) = crc_fetch_step(
        "pkg",
        "m.dll",
        "*",
        s1,
        CrcFetchEvent::ReleaseReply { success: true, body: release.to_string() },
    );
    assert_eq!(s2, CrcFetchState::AwaitingCrcFile);
    assert_eq!(a2, CrcFetchAction::RequestCrcFile("https://x/crc".to_string()));
    let (s3, a3) = crc_fetch_step(
        "pkg",
        "m.dll",
        "*",
        s2,
        CrcFetchEvent::CrcFileReply { success: true, body: " 3421780262\n".to_string() },
    );
    assert_eq!(s3, CrcFetchState::Done(3421780262));
    assert_eq!(a3, CrcFetchAction::Finish(3421780262));

    let failed = crc_fetch_step(
        "pkg",
        "m.dll",
        "*",
        CrcFetchState::AwaitingRelease,
        CrcFetchEvent::ReleaseReply { success: false, body: String::new() },
    );
    assert_eq!(failed, (CrcFetchState::Done(0), CrcFetchAction::Finish(0)));
    let failed = crc_fetch_step(
        "pkg",
        "m.dll",
        "*",
        CrcFetchState::AwaitingCrcFile,
        CrcFetchEvent::CrcFileReply { success: false, body: "5".to_string() },
    );
    assert_eq!(failed, (CrcFetchState::Done(0), CrcFetchAction::Finish(0)));
    assert_eq!(
        crc_fetch_step(
            "pkg",
            "m.dll",
            "*",
            CrcFetchState::AwaitingRelease,
            CrcFetchEvent::ReleaseReply { success: true, body: "oops".to_string() },
        ),
        (CrcFetchState::Done(0), CrcFetchAction::RejectRelease)
    );
    assert_eq!(
        crc_fetch_step(
            "pkg",
            "m.dll",
            "*",
            CrcFetchState::AwaitingRelease,
            CrcFetchEvent::ReleaseReply { success: true, body: "{}".to_string() },
        ),
        (CrcFetchState::Done(0), CrcFetchAction::ReportLookupError(CrcLookupError::NoAssets))
    );
    assert_eq!(
        crc_fetch_step(
            "pkg",
            "m.dll",
            "*",
            CrcFetchState::AwaitingCrcFile,
            CrcFetchEvent::CrcFileReply { success: true, body: "x".to_string() },
        ),
        (CrcFetchState::Done(0), CrcFetchAction::ReportParseError(ParseIntError::InvalidDigit))
    );
    assert_eq!(
        crc_fetch_step("pkg", "m.dll", "*", CrcFetchState::Done(7), CrcFetchEvent::Go),
        (CrcFetchState::Done(7), CrcFetchAction::Nothing)
    );
}

#[test]
fn module_check_steps() {
    assert_eq!(
        module_check_step("chttp", "1.0", "win64", true, ModuleCheckState::Start, ModuleCheckEvent::LocalCrc(0)),
        (ModuleCheckState::AwaitingDownload, ModuleCheckAction::Download)
    );
    assert_eq!(
        module_check_step("chttp", "1.0", "win64", true, ModuleCheckState::Start, ModuleCheckEvent::LocalCrc(9)),
        (
            ModuleCheckState::AwaitingServer(9),
            ModuleCheckAction::RequestServerCrc(
                "https://autumngmod.ru/b2m/api/packages/getCRC32?name=chttp&version=1.0&platform=win64&side=cl"
                    .to_string()
            )
        )
    );
    let reply = |success: bool, body: &str| ModuleCheckEvent::ServerReply { success, body: body.to_string() };
    assert_eq!(
        module_check_step("c", "1", "p", true, ModuleCheckState::AwaitingServer(9), reply(true, "9")),
        (ModuleCheckState::Done(true), ModuleCheckAction::Finish(true))
    );
    assert_eq!(
        module_check_step("c", "1", "p", true, ModuleCheckState::AwaitingServer(9), reply(true, "8")),
        (ModuleCheckState::AwaitingDownload, ModuleCheckAction::Download)
    );
    assert_eq!(
        module_check_step("c", "1", "p", true, ModuleCheckState::AwaitingServer(9), reply(false, "9")),
        (ModuleCheckState::Done(false), ModuleCheckAction::Finish(false))
    );
    assert_eq!(
        module_check_step("c", "1", "p", true, ModuleCheckState::AwaitingServer(9), reply(true, "nine")),
        (ModuleCheckState::Done(false), ModuleCheckAction::Finish(false))
    );
    assert_eq!(
        module_check_step("c", "1", "p", true, ModuleCheckState::AwaitingDownload, ModuleCheckEvent::Downloaded(false)),
        (ModuleCheckState::Done(false), ModuleCheckAction::Finish(false))
    );
    assert_eq!(
        module_check_step("c", "1", "p", true, ModuleCheckState::AwaitingDownload, ModuleCheckEvent::Downloaded(true)),
        (ModuleCheckState::Done(true), ModuleCheckAction::Finish(true))
    );
}

#[test]
fn lua_check_steps() {
    assert_eq!(
        lua_check_step("chttp", "1.0", LuaCheckState::Start, LuaCheckEvent::Checked(true)),
        (LuaCheckState::Done, LuaCheckAction::Reply(LuaReply::Text("1.0".to_string())))
    );
    assert_eq!(
        lua_check_step("chttp", "1.0", LuaCheckState::Start, LuaCheckEvent::Checked(false)),
        (LuaCheckState::Done, LuaCheckAction::Reply(LuaReply::False))
    );
    assert_eq!(
        lua_check_step("chttp", "*", LuaCheckState::Start, LuaCheckEvent::Checked(true)),
        (
            LuaCheckState::AwaitingLatest(true),
            LuaCheckAction::RequestLatest(
                "https://autumngmod.ru/b2m/api/packages/getVersion?name=chttp".to_string()
            )
        )
    );
    assert_eq!(
        lua_check_step(
            "chttp",
            "*",
            LuaCheckState::AwaitingLatest(true),
            LuaCheckEvent::LatestReply { success: true, body: "2.0".to_string() }
        ),
        (LuaCheckState::Done, LuaCheckAction::Reply(LuaReply::Text("2.0".to_string())))
    );
    assert_eq!(
        lua_check_step(
            "chttp",
            "*",
            LuaCheckState::AwaitingLatest(true),
            LuaCheckEvent::LatestReply { success: false, body: "2.0".to_string() }
        ),
        (LuaCheckState::Done, LuaCheckAction::Reply(LuaReply::False))
    );
}

#[test]
fn version_verdicts() {
    assert_eq!(version_verdict(false, r#"{"name": "0.1.0"}"#, "0.1.0"), VersionVerdict::RequestFailed);
    assert_eq!(version_verdict(true, r#"{"name": "0.1.0"}"#, "0.1.0"), VersionVerdict::Newest);
    assert_eq!(version_verdict(true, r#"{"name": "0.1.1"}"#, "0.1.0"), VersionVerdict::Outdated);
    assert_eq!(version_verdict(true, "{}", "0.1.0"), VersionVerdict::Unreadable);
}

#[test]
fn json_member_reads() {
    let v = JsonValue::Object(vec![
        ("a".to_string(), JsonValue::Null),
        ("b".to_string(), JsonValue::Str("x".to_string())),
    ]);
    assert_eq!(object_get(&v, "b"), Some(&JsonValue::Str("x".to_string())));
    assert_eq!(object_get(&v, "a"), Some(&JsonValue::Null));
    assert_eq!(object_get(&v, "c"), None);
    assert_eq!(object_get(&JsonValue::Bool(true), "a"), None);
}

#[test]
fn crc32_residue() {
    for data in [&b""[..], b"a", b"123456789", b"The quick brown fox"] {
        let crc = calc_crc32(data);
        let mut framed = data.to_vec();
        framed.extend_from_slice(&crc.to_le_bytes());
        assert_eq!(calc_crc32(&framed), 0x2144_DF1C);
    }
}

#[test]
fn package_list_replies() {
    assert!(matches!(packages_reply(false, r#"{"a": "1"}"#), PackagesVerdict::RequestFailed));
    assert!(matches!(packages_reply(true, "[1]"), PackagesVerdict::Unreadable));
    match packages_reply(true, r#"{"a": "1"}"#) {
        PackagesVerdict::Checks(p) => {
            assert!(p.complete);
            assert_eq!(p.checks.len(), 1);
            assert_eq!(p.checks[0].version, "1");
        }
        _ => panic!("expected checks"),
    }
}
