//! The decisions behind the Lua functions `b2m.CheckModule` and
//! `b2m.CheckPackages`: which server address to ask, and what to do with a
//! module given its local checksum and the server's reply.

use vstd::prelude::*;
use crate::side_of;
use crate::side;
use crate::json::{json_parse, json_str, parse_json, JsonValue};
use crate::text::{ends_with, lemma_ends_with_concat, lemma_starts_with_concat, starts_with};
use crate::text::{parse_u32, parsed_u32, str_eq};

verus! {

/// What to do with an installed module.
#[derive(Clone, Copy, Debug, PartialEq, Eq, Structural)]
pub enum ModuleAction {
    /// Fetch the module (again).
    Download,
    /// The installed module matches the server's checksum.
    UpToDate,
    /// The server could not be asked, or its reply is no checksum.
    Failed,
}

/// What `b2m.CheckModule` hands back to Lua.
#[derive(Debug, PartialEq, Eq)]
pub enum LuaReply {
    /// A version string.
    Text(String),
    /// `false`.
    False,
}

/// One module to check: its name, its version, and whether it is the
/// client build.
pub struct ModuleCheck {
    pub name: String,
    pub version: String,
    pub isclient: bool,
}

/// The modules to check for a game server's package list, in order, and
/// whether the list was read to its end (it stops at the first version that
/// is no string).
pub struct PackageChecks {
    pub checks: Vec<ModuleCheck>,
    pub complete: bool,
}

/// `body` is the text of a JSON object.
pub open spec fn is_json_object(body: Seq<char>) -> bool {
    json_parse(body) matches Some(JsonValue::Object(_))
}

/// `p` holds one check per member of the JSON object `body`, in order, each
/// on the client side, up to the first member whose version is no string;
/// `p.complete` where there is none such.
pub open spec fn packages_to_check_spec(body: Seq<char>, p: PackageChecks) -> bool {
    json_parse(body) matches Some(JsonValue::Object(fields)) && {
        &&& p.checks@.len() <= fields@.len()
        &&& forall|i: int|
            0 <= i < p.checks@.len() ==> (#[trigger] p.checks@[i]).name@ == fields@[i].0@
                && json_str(Some(fields@[i].1)) == Some(p.checks@[i].version@)
                && p.checks@[i].isclient
        &&& p.complete == (p.checks@.len() == fields@.len())
        &&& !p.complete ==> json_str(Some(fields@[p.checks@.len() as int].1)) is None
    }
}

/// The modules a game server asks for are all checked on the client side,
/// one per member of its list at most, each named by its member's key with
/// its member's string as version.
pub proof fn lemma_package_checks_client_side(body: Seq<char>, p: PackageChecks)
    requires
        packages_to_check_spec(body, p),
    ensures
        forall|i: int| 0 <= i < p.checks@.len() ==> (#[trigger] p.checks@[i]).isclient,
        json_parse(body) matches Some(JsonValue::Object(fields)) && p.checks@.len()
            <= fields@.len() && forall|i: int|
            0 <= i < p.checks@.len() ==> (#[trigger] p.checks@[i]).name@ == fields@[i].0@
                && (fields@[i].1 matches JsonValue::Str(v) && v@ == p.checks@[i].version@),
{
    if let Some(JsonValue::Object(fields)) = json_parse(body) {
        assert forall|i: int| 0 <= i < p.checks@.len() implies (#[trigger] p.checks@[i]).name@
            == fields@[i].0@ && (fields@[i].1 matches JsonValue::Str(v) && v@ == p.checks@[i].version@) by {
            assert(json_str(Some(fields@[i].1)) == Some(p.checks@[i].version@));
        }
    }
}

/// The client modules to check for the package list that a game server
/// sent as the JSON object `body` (package name to version): `None` where
/// `body` is no JSON object; otherwise one check per member, in the
/// object's order (by key), each on the client side, up to the first member
/// whose version is no string.
pub fn packages_to_check(body: &str) -> (r: Option<PackageChecks>)
    ensures
        r is None <==> !is_json_object(body@),
        r matches Some(p) ==> packages_to_check_spec(body@, p),
{
    let parsed = parse_json(body);
    let fields = match &parsed {
        Some(JsonValue::Object(fields)) => fields,
        _ => return None,
    };
    let mut checks: Vec<ModuleCheck> = Vec::new();
    let mut i: usize = 0;
    while i < fields.len()
        invariant
            json_parse(body@) == parsed,
            parsed matches Some(JsonValue::Object(f)) && f == fields,
            i <= fields.len(),
            checks@.len() == i,
            forall|k: int|
                0 <= k < i ==> (#[trigger] checks@[k]).name@ == fields@[k].0@ && json_str(
                    Some(fields@[k].1),
                ) == Some(checks@[k].version@) && checks@[k].isclient,
        decreases fields.len() - i,
    {
        match &fields[i].1 {
            JsonValue::Str(version) => {
                checks.push(
                    ModuleCheck {
                        name: fields[i].0.clone(),
                        version: version.clone(),
                        isclient: true,
                    },
                );
            },
            _ => {
                return Some(PackageChecks { checks, complete: false });
            },
        }
        i = i + 1;
    }
    Some(PackageChecks { checks, complete: true })
}

/// What becomes of a game server's package list.
pub enum PackagesVerdict {
    /// The request for the list failed: nothing is checked.
    RequestFailed,
    /// The reply is no JSON object (the run is aborted).
    Unreadable,
    /// These modules are to be checked.
    Checks(PackageChecks),
}

/// What becomes of the reply to the request for a game server's package
/// list (`success`: its status was a success; `body`: its text).
pub fn packages_reply(success: bool, body: &str) -> (r: PackagesVerdict)
    ensures
        !success ==> r is RequestFailed,
        success ==> (r is Unreadable <==> !is_json_object(body@)),
        r matches PackagesVerdict::Checks(p) ==> success && (packages_to_check_spec(body@, p)),
{
    if !success {
        return PackagesVerdict::RequestFailed;
    }
    match packages_to_check(body) {
        None => PackagesVerdict::Unreadable,
        Some(p) => PackagesVerdict::Checks(p),
    }
}

/// The address that serves the checksum of a module binary.
pub open spec fn check_url_of(
    name: Seq<char>,
    version: Seq<char>,
    platform: Seq<char>,
    isclient: bool,
) -> Seq<char> {
    "https://autumngmod.ru/b2m/api/packages/getCRC32?name="@ + name + "&version="@ + version
        + "&platform="@ + platform + "&side="@ + side_of(isclient)
}

/// The address that serves the latest version of a package.
pub open spec fn version_url_of(name: Seq<char>) -> Seq<char> {
    "https://autumngmod.ru/b2m/api/packages/getVersion?name="@ + name
}

/// The address that serves the packages a game server wants.
pub open spec fn server_packages_url_of(ip: Seq<char>) -> Seq<char> {
    "https://autumngmod.ru/b2m/api/packages/getServer?serverIP="@ + ip
}

/// What is done with a module whose installed file has checksum
/// `local_crc` (0: no file), given the server's reply (`None`: the request
/// failed).
pub open spec fn module_action(local_crc: u32, reply: Option<Seq<char>>) -> ModuleAction {
    if local_crc == 0 {
        ModuleAction::Download
    } else {
        match reply {
            None => ModuleAction::Failed,
            Some(text) => match parsed_u32(text) {
                Err(_) => ModuleAction::Failed,
                Ok(server_crc) => if server_crc != local_crc {
                    ModuleAction::Download
                } else {
                    ModuleAction::UpToDate
                },
            },
        }
    }
}

/// The view of an optional string.
pub open spec fn opt_view(s: Option<&str>) -> Option<Seq<char>> {
    match s {
        Some(t) => Some(t@),
        None => None,
    }
}

/// The address that serves the checksum of module `name` at `version`.
pub fn check_url(name: &str, version: &str, platform: &str, isclient: bool) -> (r: String)
    ensures
        r@ == check_url_of(name@, version@, platform@, isclient),
{
    let r = String::from_str("https://autumngmod.ru/b2m/api/packages/getCRC32?name=").concat(
        name,
    ).concat("&version=").concat(version).concat("&platform=").concat(platform).concat(
        "&side=",
    ).concat(side(isclient));
    assert(r@ =~= check_url_of(name@, version@, platform@, isclient));
    r
}

/// The address that serves the latest version of package `name`.
pub fn version_url(name: &str) -> (r: String)
    ensures
        r@ == version_url_of(name@),
{
    String::from_str("https://autumngmod.ru/b2m/api/packages/getVersion?name=").concat(name)
}

/// The address that serves the packages the game server at `ip` wants.
pub fn server_packages_url(ip: &str) -> (r: String)
    ensures
        r@ == server_packages_url_of(ip@),
{
    String::from_str("https://autumngmod.ru/b2m/api/packages/getServer?serverIP=").concat(ip)
}

/// What to do with a module whose installed file has checksum `local_crc`
/// (0 where there is no file): with none it is fetched at once; otherwise
/// `server_reply` is the body of the server's checksum reply (`None` where
/// the request failed), and the module is fetched again where that
/// checksum differs. `server_reply` is not looked at where `local_crc` is 0.
pub fn check_module(local_crc: u32, server_reply: Option<&str>) -> (r: ModuleAction)
    ensures
        r == module_action(local_crc, opt_view(server_reply)),
{
    if local_crc == 0 {
        return ModuleAction::Download;
    }
    match server_reply {
        None => ModuleAction::Failed,
        Some(text) => match parse_u32(text) {
            Err(_) => ModuleAction::Failed,
            Ok(server_crc) => if server_crc != local_crc {
                ModuleAction::Download
            } else {
                ModuleAction::UpToDate
            },
        },
    }
}

/// What `b2m.CheckModule` answers for the (trimmed) `version` it was asked
/// for, given whether the module is in place and, for version `*`, the
/// latest version the server named (`None` where that request failed): the
/// version in place, or `false`.
pub fn check_module_reply(version: &str, downloaded: bool, latest: Option<String>) -> (r: LuaReply)
    ensures
        r@ == lua_reply_model(version@, downloaded, crate::dll::opt_string_view(latest)),
        version@ == "*"@ ==> (r == match latest {
            Some(l) => if downloaded {
                LuaReply::Text(l)
            } else {
                LuaReply::False
            },
            None => LuaReply::False,
        }),
        version@ != "*"@ ==> (r matches LuaReply::Text(t) ==> t@ == version@),
        version@ != "*"@ ==> (r is Text <==> downloaded),
{
    if str_eq(version, "*") {
        match latest {
            Some(l) => if downloaded {
                LuaReply::Text(l)
            } else {
                LuaReply::False
            },
            None => LuaReply::False,
        }
    } else if downloaded {
        LuaReply::Text(String::from_str(version))
    } else {
        LuaReply::False
    }
}

/// The plain-value model of a `LuaReply`.
pub enum LuaReplyModel {
    Text(Seq<char>),
    False,
}

impl View for LuaReply {
    type V = LuaReplyModel;

    open spec fn view(&self) -> LuaReplyModel {
        match self {
            LuaReply::Text(t) => LuaReplyModel::Text(t@),
            LuaReply::False => LuaReplyModel::False,
        }
    }
}

/// What `b2m.CheckModule` answers for `version`, given whether the module
/// is in place and, for `*`, the latest version the server named.
pub open spec fn lua_reply_model(version: Seq<char>, downloaded: bool, latest: Option<Seq<char>>) -> LuaReplyModel {
    if version == "*"@ {
        match latest {
            Some(l) => if downloaded {
                LuaReplyModel::Text(l)
            } else {
                LuaReplyModel::False
            },
            None => LuaReplyModel::False,
        }
    } else if downloaded {
        LuaReplyModel::Text(version)
    } else {
        LuaReplyModel::False
    }
}

/// Where `b2m.CheckModule` stands.
#[derive(Clone, Copy, Debug, PartialEq, Eq, Structural)]
pub enum LuaCheckState {
    /// The module is being checked.
    Start,
    /// The latest version has been asked for; whether the module is in place.
    AwaitingLatest(bool),
    /// The answer has been given.
    Done,
}

/// What the outside world reports to `b2m.CheckModule`.
#[derive(Debug)]
pub enum LuaCheckEvent {
    /// The module check is over: whether the module is in place.
    Checked(bool),
    /// The reply to the request for the latest version: whether its status
    /// was a success, and its text.
    LatestReply { success: bool, body: String },
}

/// What `b2m.CheckModule` asks for next.
#[derive(Debug, PartialEq, Eq)]
pub enum LuaCheckAction {
    /// Ask the server for the latest version at this address.
    RequestLatest(String),
    /// Hand this answer back to Lua.
    Reply(LuaReply),
    /// Nothing (the event does not fit where the call stands).
    Nothing,
}

/// The plain-value model of a `LuaCheckAction`.
pub enum LuaCheckActionModel {
    RequestLatest(Seq<char>),
    Reply(LuaReplyModel),
    Nothing,
}

impl View for LuaCheckAction {
    type V = LuaCheckActionModel;

    open spec fn view(&self) -> LuaCheckActionModel {
        match self {
            LuaCheckAction::RequestLatest(u) => LuaCheckActionModel::RequestLatest(u@),
            LuaCheckAction::Reply(r) => LuaCheckActionModel::Reply(r@),
            LuaCheckAction::Nothing => LuaCheckActionModel::Nothing,
        }
    }
}

/// One step of `b2m.CheckModule(name, version)`, `version` trimmed.
pub open spec fn lua_check_transition(
    name: Seq<char>,
    version: Seq<char>,
    state: LuaCheckState,
    event: LuaCheckEvent,
) -> (LuaCheckState, LuaCheckActionModel) {
    match (state, event) {
        (LuaCheckState::Start, LuaCheckEvent::Checked(downloaded)) => if version == "*"@ {
            (
                LuaCheckState::AwaitingLatest(downloaded),
                LuaCheckActionModel::RequestLatest(version_url_of(name)),
            )
        } else {
            (
                LuaCheckState::Done,
                LuaCheckActionModel::Reply(lua_reply_model(version, downloaded, None)),
            )
        },
        (LuaCheckState::AwaitingLatest(downloaded), LuaCheckEvent::LatestReply { success, body }) => (
            LuaCheckState::Done,
            LuaCheckActionModel::Reply(
                lua_reply_model(version, downloaded, if success { Some(body@) } else { None }),
            ),
        ),
        _ => (state, LuaCheckActionModel::Nothing),
    }
}

/// One step of `b2m.CheckModule(name, version)`, `version` trimmed: the
/// latest version is asked for only for `*`, after the module check.
pub fn lua_check_step(name: &str, version: &str, state: LuaCheckState, event: LuaCheckEvent) -> (r: (
    LuaCheckState,
    LuaCheckAction,
))
    ensures
        (r.0, r.1@) == lua_check_transition(name@, version@, state, event),
{
    match (state, event) {
        (LuaCheckState::Start, LuaCheckEvent::Checked(downloaded)) => if str_eq(version, "*") {
            (LuaCheckState::AwaitingLatest(downloaded), LuaCheckAction::RequestLatest(version_url(name)))
        } else {
            (LuaCheckState::Done, LuaCheckAction::Reply(check_module_reply(version, downloaded, None)))
        },
        (LuaCheckState::AwaitingLatest(downloaded), LuaCheckEvent::LatestReply { success, body }) => {
            let latest = if success {
                Some(body)
            } else {
                None
            };
            (LuaCheckState::Done, LuaCheckAction::Reply(check_module_reply(version, downloaded, latest)))
        },
        (state, _) => (state, LuaCheckAction::Nothing),
    }
}

/// Where the check of one module stands.
#[derive(Clone, Copy, Debug, PartialEq, Eq, Structural)]
pub enum ModuleCheckState {
    /// The installed file's checksum is being taken.
    Start,
    /// The server has been asked for its checksum; the installed file's is
    /// this one.
    AwaitingServer(u32),
    /// The module is being downloaded.
    AwaitingDownload,
    /// Done: whether the module is in place.
    Done(bool),
}

/// What the outside world reports to the check of one module.
#[derive(Debug)]
pub enum ModuleCheckEvent {
    /// The checksum of the installed file (0 where there is none).
    LocalCrc(u32),
    /// The server's reply to the checksum request: whether its status was
    /// a success, and its text (read only on success).
    ServerReply { success: bool, body: String },
    /// Whether the download put the module in place.
    Downloaded(bool),
}

/// What the check of one module asks for next.
#[derive(Debug, PartialEq, Eq)]
pub enum ModuleCheckAction {
    /// Ask the server for the module's checksum at this address.
    RequestServerCrc(String),
    /// Download the module.
    Download,
    /// The check is over: whether the module is in place.
    Finish(bool),
    /// Nothing (the event does not fit where the check stands).
    Nothing,
}

/// The plain-value model of a `ModuleCheckAction`.
pub enum ModuleCheckActionModel {
    RequestServerCrc(Seq<char>),
    Download,
    Finish(bool),
    Nothing,
}

impl View for ModuleCheckAction {
    type V = ModuleCheckActionModel;

    open spec fn view(&self) -> ModuleCheckActionModel {
        match self {
            ModuleCheckAction::RequestServerCrc(u) => ModuleCheckActionModel::RequestServerCrc(u@),
            ModuleCheckAction::Download => ModuleCheckActionModel::Download,
            ModuleCheckAction::Finish(b) => ModuleCheckActionModel::Finish(*b),
            ModuleCheckAction::Nothing => ModuleCheckActionModel::Nothing,
        }
    }
}

/// One step of the check of module `name` at `version`, for the platform
/// tag `platform` and the client or the server.
pub open spec fn module_check_transition(
    name: Seq<char>,
    version: Seq<char>,
    platform: Seq<char>,
    isclient: bool,
    state: ModuleCheckState,
    event: ModuleCheckEvent,
) -> (ModuleCheckState, ModuleCheckActionModel) {
    match (state, event) {
        (ModuleCheckState::Start, ModuleCheckEvent::LocalCrc(c)) => if c == 0 {
            (ModuleCheckState::AwaitingDownload, ModuleCheckActionModel::Download)
        } else {
            (
                ModuleCheckState::AwaitingServer(c),
                ModuleCheckActionModel::RequestServerCrc(
                    check_url_of(name, version, platform, isclient),
                ),
            )
        },
        (ModuleCheckState::AwaitingServer(c), ModuleCheckEvent::ServerReply { success, body }) => {
            match module_action(c, if success { Some(body@) } else { None }) {
                ModuleAction::Download => (
                    ModuleCheckState::AwaitingDownload,
                    ModuleCheckActionModel::Download,
                ),
                ModuleAction::UpToDate => (
                    ModuleCheckState::Done(true),
                    ModuleCheckActionModel::Finish(true),
                ),
                ModuleAction::Failed => (
                    ModuleCheckState::Done(false),
                    ModuleCheckActionModel::Finish(false),
                ),
            }
        },
        (ModuleCheckState::AwaitingDownload, ModuleCheckEvent::Downloaded(ok)) => (
            ModuleCheckState::Done(ok),
            ModuleCheckActionModel::Finish(ok),
        ),
        _ => (state, ModuleCheckActionModel::Nothing),
    }
}

/// One step of the check of module `name` at `version`: a module without an
/// installed file is downloaded without asking the server; otherwise the
/// server's checksum decides (`module_action`).
pub fn module_check_step(
    name: &str,
    version: &str,
    platform: &str,
    isclient: bool,
    state: ModuleCheckState,
    event: ModuleCheckEvent,
) -> (r: (ModuleCheckState, ModuleCheckAction))
    ensures
        (r.0, r.1@) == module_check_transition(
            name@,
            version@,
            platform@,
            isclient,
            state,
            event,
        ),
{
    match (state, event) {
        (ModuleCheckState::Start, ModuleCheckEvent::LocalCrc(c)) => if c == 0 {
            (ModuleCheckState::AwaitingDownload, ModuleCheckAction::Download)
        } else {
            (
                ModuleCheckState::AwaitingServer(c),
                ModuleCheckAction::RequestServerCrc(check_url(name, version, platform, isclient)),
            )
        },
        (ModuleCheckState::AwaitingServer(c), ModuleCheckEvent::ServerReply { success, body }) => {
            let reply = if success {
                Some(body.as_str())
            } else {
                None
            };
            match check_module(c, reply) {
                ModuleAction::Download => (
                    ModuleCheckState::AwaitingDownload,
                    ModuleCheckAction::Download,
                ),
                ModuleAction::UpToDate => (ModuleCheckState::Done(true), ModuleCheckAction::Finish(true)),
                ModuleAction::Failed => (ModuleCheckState::Done(false), ModuleCheckAction::Finish(false)),
            }
        },
        (ModuleCheckState::AwaitingDownload, ModuleCheckEvent::Downloaded(ok)) => (
            ModuleCheckState::Done(ok),
            ModuleCheckAction::Finish(ok),
        ),
        (state, _) => (state, ModuleCheckAction::Nothing),
    }
}

/// The checksum that the server's reply names, where there is a reply and
/// it reads as a `u32`.
pub open spec fn server_crc(reply: Option<Seq<char>>) -> Option<u32> {
    match reply {
        Some(text) => match parsed_u32(text) {
            Ok(v) => Some(v),
            Err(_) => None,
        },
        None => None,
    }
}

/// How an installed module is judged: left in place exactly where the
/// server names its checksum; fetched again where the server names another;
/// the check fails where the server names none; a missing file (checksum 0)
/// is always fetched.
pub proof fn lemma_module_action_cases(local_crc: u32, reply: Option<Seq<char>>)
    ensures
        local_crc == 0 ==> module_action(local_crc, reply) == ModuleAction::Download,
        local_crc != 0 && server_crc(reply) is None ==> module_action(local_crc, reply)
            == ModuleAction::Failed,
        local_crc != 0 && server_crc(reply) is Some && server_crc(reply).unwrap() != local_crc
            ==> module_action(local_crc, reply) == ModuleAction::Download,
        module_action(local_crc, reply) == ModuleAction::UpToDate <==> local_crc != 0
            && server_crc(reply) == Some(local_crc),
{
}

/// The checksum address names the module's own side: it ends with
/// `&side=cl` for the client and `&side=sv` for the server, and starts with
/// the server's checksum endpoint and the module name.
pub proof fn lemma_check_url_side(
    name: Seq<char>,
    version: Seq<char>,
    platform: Seq<char>,
    isclient: bool,
)
    ensures
        ends_with(
            check_url_of(name, version, platform, isclient),
            if isclient {
                "&side=cl"@
            } else {
                "&side=sv"@
            },
        ),
        starts_with(
            check_url_of(name, version, platform, isclient),
            "https://autumngmod.ru/b2m/api/packages/getCRC32?name="@ + name,
        ),
{
    reveal_strlit("&side=");
    reveal_strlit("&side=cl");
    reveal_strlit("&side=sv");
    reveal_strlit("cl");
    reveal_strlit("sv");
    let first = "https://autumngmod.ru/b2m/api/packages/getCRC32?name="@ + name;
    let head = first + "&version="@ + version + "&platform="@ + platform;
    let tail = if isclient {
        "&side=cl"@
    } else {
        "&side=sv"@
    };
    assert("&side="@ + side_of(isclient) =~= tail);
    assert(check_url_of(name, version, platform, isclient) =~= head + tail);
    lemma_ends_with_concat(head, tail);
    assert(check_url_of(name, version, platform, isclient) =~= first + ("&version="@ + version
        + "&platform="@ + platform + tail));
    lemma_starts_with_concat(first, "&version="@ + version + "&platform="@ + platform + tail);
}

/// An installed module (checksum not 0) is compared with the server's
/// checksum for its own side: the first step asks the checksum address of
/// that module, version, platform and side, which ends with `&side=cl` or
/// `&side=sv` as the module is the client's or the server's.
pub proof fn lemma_installed_module_asks_own_side(
    name: Seq<char>,
    version: Seq<char>,
    platform: Seq<char>,
    isclient: bool,
    local_crc: u32,
)
    requires
        local_crc != 0,
    ensures
        ({
            let (next, action) = module_check_transition(
                name,
                version,
                platform,
                isclient,
                ModuleCheckState::Start,
                ModuleCheckEvent::LocalCrc(local_crc),
            );
            &&& next == ModuleCheckState::AwaitingServer(local_crc)
            &&& action matches ModuleCheckActionModel::RequestServerCrc(u)
            &&& u == check_url_of(name, version, platform, isclient)
            &&& ends_with(
                u,
                if isclient {
                    "&side=cl"@
                } else {
                    "&side=sv"@
                },
            )
        }),
{
    lemma_check_url_side(name, version, platform, isclient);
}

/// For `*`, the answer to Lua names the latest version only where the module
/// check put the module in place and the latest-version request succeeded,
/// and then it is the server's text; otherwise it is `false`.
pub proof fn lemma_latest_reply_needs_module(
    name: Seq<char>,
    downloaded: bool,
    success: bool,
    body: String,
)
    ensures
        ({
            let (next, action) = lua_check_transition(
                name,
                "*"@,
                LuaCheckState::AwaitingLatest(downloaded),
                LuaCheckEvent::LatestReply { success, body },
            );
            &&& next == LuaCheckState::Done
            &&& downloaded && success ==> action == LuaCheckActionModel::Reply(
                LuaReplyModel::Text(body@),
            )
            &&& !(downloaded && success) ==> action == LuaCheckActionModel::Reply(
                LuaReplyModel::False,
            )
        }),
{
}

/// For `*`, the module check is followed by a request for the latest
/// version and by no answer yet, whatever the check found.
pub proof fn lemma_star_asks_latest(name: Seq<char>, downloaded: bool)
    ensures
        lua_check_transition(name, "*"@, LuaCheckState::Start, LuaCheckEvent::Checked(downloaded))
            == (LuaCheckState::AwaitingLatest(downloaded), LuaCheckActionModel::RequestLatest(
            version_url_of(name),
        )),
{
}

/// For a pinned version, Lua is answered at once: the version itself where
/// the module is in place, `false` otherwise.
pub proof fn lemma_pinned_version_reply(name: Seq<char>, version: Seq<char>, downloaded: bool)
    requires
        version != "*"@,
    ensures
        lua_check_transition(name, version, LuaCheckState::Start, LuaCheckEvent::Checked(downloaded))
            == (LuaCheckState::Done, LuaCheckActionModel::Reply(
            if downloaded {
                LuaReplyModel::Text(version)
            } else {
                LuaReplyModel::False
            },
        )),
{
}

/// A module without an installed file is downloaded at once: the server is
/// not asked.
pub proof fn lemma_missing_file_skips_server(
    name: Seq<char>,
    version: Seq<char>,
    platform: Seq<char>,
    isclient: bool,
)
    ensures
        module_check_transition(
            name,
            version,
            platform,
            isclient,
            ModuleCheckState::Start,
            ModuleCheckEvent::LocalCrc(0),
        ) == (ModuleCheckState::AwaitingDownload, ModuleCheckActionModel::Download),
{
}

/// A check ends with the module in place only where the server confirmed
/// the installed file's checksum or a download succeeded.
pub proof fn lemma_in_place_only_confirmed_or_downloaded(
    name: Seq<char>,
    version: Seq<char>,
    platform: Seq<char>,
    isclient: bool,
    state: ModuleCheckState,
    event: ModuleCheckEvent,
)
    requires
        state != ModuleCheckState::Done(true),
        module_check_transition(name, version, platform, isclient, state, event).0
            == ModuleCheckState::Done(true),
    ensures
        (state == ModuleCheckState::AwaitingDownload && event == ModuleCheckEvent::Downloaded(true))
            || (state matches ModuleCheckState::AwaitingServer(c) && (event matches ModuleCheckEvent::ServerReply { success, body } && success && module_action(c, Some(body@)) == ModuleAction::UpToDate)),
{
}

/// A module without an installed file is always fetched, whatever the
/// server would say.
pub proof fn lemma_missing_module_downloads(reply: Option<Seq<char>>)
    ensures
        module_action(0, reply) == ModuleAction::Download,
{
}

/// A module is left in place only where the server named exactly its
/// checksum, and that checksum is not 0.
pub proof fn lemma_up_to_date_means_same_crc(local_crc: u32, reply: Option<Seq<char>>)
    ensures
        module_action(local_crc, reply) == ModuleAction::UpToDate ==> local_crc != 0 && (
        reply matches Some(text) && parsed_u32(text) == Ok::<u32, crate::text::ParseIntError>(
            local_crc,
        )),
{
}

} // verus!
