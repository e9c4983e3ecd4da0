//! Downloading a module binary and checking it against the checksum that
//! its GitHub release publishes.

use vstd::prelude::*;
use crate::side_of;
use crate::side;
use crate::json::{as_str, json_get, json_parse, json_str, object_get, parse_json, JsonValue};
use crate::text::{ends_with, lemma_ends_with_concat, lemma_starts_with_concat, starts_with};
use crate::text::{parse_u32, parsed_u32, str_eq, trim, trimmed, ParseIntError};

verus! {

/// One element of the `assets` array of a GitHub release, as far as the
/// lookup reads it: an object's `name` and `browser_download_url`, each kept
/// only where it is a JSON string.
pub enum AssetEntry {
    NotObject,
    Object { name: Option<String>, download_url: Option<String> },
}

/// The `assets` field of a GitHub release.
pub enum AssetsField {
    /// The release has no `assets` field.
    Missing,
    /// The field is there but is no array.
    NotArray,
    /// The elements of the array, in order.
    Entries(Vec<AssetEntry>),
}

/// The plain-value model of an `AssetEntry`.
pub enum AssetEntryModel {
    NotObject,
    Object { name: Option<Seq<char>>, download_url: Option<Seq<char>> },
}

/// The plain-value model of an `AssetsField`.
pub enum AssetsModel {
    Missing,
    NotArray,
    Entries(Seq<AssetEntryModel>),
}

/// The view of an optional string.
pub open spec fn opt_string_view(s: Option<String>) -> Option<Seq<char>> {
    match s {
        Some(t) => Some(t@),
        None => None,
    }
}

impl View for AssetEntry {
    type V = AssetEntryModel;

    open spec fn view(&self) -> AssetEntryModel {
        match self {
            AssetEntry::NotObject => AssetEntryModel::NotObject,
            AssetEntry::Object { name, download_url } => AssetEntryModel::Object {
                name: opt_string_view(*name),
                download_url: opt_string_view(*download_url),
            },
        }
    }
}

/// The models of a list of asset entries, in order.
pub open spec fn entries_view(entries: Seq<AssetEntry>) -> Seq<AssetEntryModel> {
    entries.map_values(|e: AssetEntry| e@)
}

impl View for AssetsField {
    type V = AssetsModel;

    open spec fn view(&self) -> AssetsModel {
        match self {
            AssetsField::Missing => AssetsModel::Missing,
            AssetsField::NotArray => AssetsModel::NotArray,
            AssetsField::Entries(entries) => AssetsModel::Entries(entries_view(entries@)),
        }
    }
}

/// What the lookup reads of one element of a release's `assets` array.
pub open spec fn entry_model(item: JsonValue) -> AssetEntryModel {
    match item {
        JsonValue::Object(_) => AssetEntryModel::Object {
            name: json_str(json_get(item, "name"@)),
            download_url: json_str(json_get(item, "browser_download_url"@)),
        },
        _ => AssetEntryModel::NotObject,
    }
}

/// What the lookup reads of the `assets` field of a release.
pub open spec fn assets_model(release: JsonValue) -> AssetsModel {
    match json_get(release, "assets"@) {
        None => AssetsModel::Missing,
        Some(JsonValue::Array(items)) => AssetsModel::Entries(
            items@.map_values(|i: JsonValue| entry_model(i)),
        ),
        Some(_) => AssetsModel::NotArray,
    }
}

/// The string `v` is, copied, where it is one.
fn copy_str(v: Option<&JsonValue>) -> (r: Option<String>)
    ensures
        opt_string_view(r) == json_str(match v {
            Some(x) => Some(*x),
            None => None,
        }),
{
    match as_str(v) {
        Some(s) => Some(s.clone()),
        None => None,
    }
}

/// One element of a release's `assets` array, as the lookup reads it.
pub fn asset_entry(item: &JsonValue) -> (r: AssetEntry)
    ensures
        r@ == entry_model(*item),
{
    match item {
        JsonValue::Object(_) => AssetEntry::Object {
            name: copy_str(object_get(item, "name")),
            download_url: copy_str(object_get(item, "browser_download_url")),
        },
        _ => AssetEntry::NotObject,
    }
}

/// The `assets` field of a release, as the lookup reads it.
pub fn assets_field(release: &JsonValue) -> (r: AssetsField)
    ensures
        r@ == assets_model(*release),
{
    match object_get(release, "assets") {
        None => AssetsField::Missing,
        Some(JsonValue::Array(items)) => {
            let ghost m = items@.map_values(|i: JsonValue| entry_model(i));
            let mut entries: Vec<AssetEntry> = Vec::new();
            let mut i: usize = 0;
            while i < items.len()
                invariant
                    i <= items.len(),
                    m == items@.map_values(|i: JsonValue| entry_model(i)),
                    entries@.len() == i,
                    entries_view(entries@) =~= m.take(i as int),
                decreases items.len() - i,
            {
                let e = asset_entry(&items[i]);
                let ghost before = entries@;
                entries.push(e);
                assert(entries@ == before.push(e));
                assert forall|k: int| 0 <= k <= i implies #[trigger] entries_view(entries@)[k]
                    == m.take(i + 1)[k] by {
                    if k < i {
                        assert(entries_view(before)[k] == m.take(i as int)[k]);
                    }
                }
                assert(entries_view(entries@) =~= m.take(i + 1));
                i = i + 1;
            }
            assert(m.take(items.len() as int) =~= m);
            AssetsField::Entries(entries)
        },
        Some(_) => AssetsField::NotArray,
    }
}

/// Why no checksum file was found in a release.
#[derive(Clone, Copy, Debug, PartialEq, Eq, Structural)]
pub enum CrcLookupError {
    /// The release has no `assets` field.
    NoAssets,
    /// The `assets` field is no array.
    AssetsNotArray,
    /// No asset named after the module with `.txt` has a non-empty download URL.
    NoCrcUrl,
}

/// The release that the version `version` selects: `latest` for `*`, the
/// tag otherwise.
pub open spec fn release_selector(version: Seq<char>) -> Seq<char> {
    if version == "*"@ {
        "latest"@
    } else {
        "tags/"@ + version
    }
}

/// The GitHub API address of the release of package `name` that `version`
/// selects.
pub open spec fn release_api_url_of(name: Seq<char>, version: Seq<char>) -> Seq<char> {
    "https://api.github.com/repos/b2mpackages/"@ + name + "/releases/"@ + release_selector(version)
}

/// The address that serves the module binary.
pub open spec fn download_url_of(
    name: Seq<char>,
    version: Seq<char>,
    platform: Seq<char>,
    isclient: bool,
) -> Seq<char> {
    "https://autumngmod.ru/b2m/api/downloadBinary?name="@ + name + "&version="@ + version
        + "&platform="@ + platform + "&side="@ + side_of(isclient)
}

/// The name of the asset that holds the checksum of module file `full_name`.
pub open spec fn crc_asset_name(full_name: Seq<char>) -> Seq<char> {
    full_name + ".txt"@
}

/// The download URL that the asset `e` offers for the asset name `target`.
pub open spec fn entry_url(e: AssetEntryModel, target: Seq<char>) -> Option<Seq<char>> {
    match e {
        AssetEntryModel::Object { name: Some(n), download_url: Some(u) } => {
            if n == target {
                Some(u)
            } else {
                None
            }
        },
        _ => None,
    }
}

/// The URL of the last asset in `entries` named `target` that offers one;
/// empty where none does.
pub open spec fn last_crc_url(entries: Seq<AssetEntryModel>, target: Seq<char>) -> Seq<char>
    decreases entries.len(),
{
    if entries.len() == 0 {
        Seq::empty()
    } else {
        match entry_url(entries.last(), target) {
            Some(u) => u,
            None => last_crc_url(entries.drop_last(), target),
        }
    }
}

/// Where the checksum of module file `full_name` is to be downloaded from.
pub open spec fn crc_url_lookup(assets: AssetsModel, full_name: Seq<char>) -> Result<
    Seq<char>,
    CrcLookupError,
> {
    match assets {
        AssetsModel::Missing => Err(CrcLookupError::NoAssets),
        AssetsModel::NotArray => Err(CrcLookupError::AssetsNotArray),
        AssetsModel::Entries(entries) => {
            let url = last_crc_url(entries, crc_asset_name(full_name));
            if url.len() == 0 {
                Err(CrcLookupError::NoCrcUrl)
            } else {
                Ok(url)
            }
        },
    }
}

/// The GitHub API address of the release of package `name` that `version`
/// selects (`*` selects the latest).
pub fn release_api_url(name: &str, version: &str) -> (r: String)
    ensures
        r@ == release_api_url_of(name@, version@),
{
    let selector = if str_eq(version, "*") {
        String::from_str("latest")
    } else {
        String::from_str("tags/").concat(version)
    };
    let r = String::from_str("https://api.github.com/repos/b2mpackages/").concat(name).concat(
        "/releases/",
    ).concat(selector.as_str());
    assert(r@ =~= release_api_url_of(name@, version@));
    r
}

/// The address that serves the binary of module `name` at `version`, for
/// the platform tag `platform` and the client or the server.
pub fn download_url(name: &str, version: &str, platform: &str, isclient: bool) -> (r: String)
    ensures
        r@ == download_url_of(name@, version@, platform@, isclient),
{
    let r = String::from_str("https://autumngmod.ru/b2m/api/downloadBinary?name=").concat(
        name,
    ).concat("&version=").concat(version).concat("&platform=").concat(platform).concat(
        "&side=",
    ).concat(side(isclient));
    assert(r@ =~= download_url_of(name@, version@, platform@, isclient));
    r
}

/// Where the checksum of module file `full_name` is to be downloaded from,
/// given the `assets` of its release: the URL of the last asset named
/// `full_name` with `.txt` that offers one.
pub fn find_crc_url(assets: &AssetsField, full_name: &str) -> (r: Result<String, CrcLookupError>)
    ensures
        r matches Ok(u) ==> crc_url_lookup(assets@, full_name@) == Ok::<Seq<char>, CrcLookupError>(u@),
        r matches Err(e) ==> crc_url_lookup(assets@, full_name@) == Err::<Seq<char>, CrcLookupError>(e),
{
    match assets {
        AssetsField::Missing => Err(CrcLookupError::NoAssets),
        AssetsField::NotArray => Err(CrcLookupError::AssetsNotArray),
        AssetsField::Entries(entries) => {
            let target = String::from_str(full_name).concat(".txt");
            let ghost t = crc_asset_name(full_name@);
            assert(target@ == t);
            let mut url = String::new();
            let mut i: usize = 0;
            while i < entries.len()
                invariant
                    target@ == t,
                    i <= entries.len(),
                    url@ == last_crc_url(entries_view(entries@).take(i as int), t),
                decreases entries.len() - i,
            {
                let ghost m = entries_view(entries@);
                assert(m.take(i + 1).drop_last() =~= m.take(i as int));
                assert(m.take(i + 1).last() == entries@[i as int]@);
                match &entries[i] {
                    AssetEntry::Object { name: Some(n), download_url: Some(u) } => {
                        if str_eq(n.as_str(), target.as_str()) {
                            url = u.clone();
                        }
                    },
                    _ => {},
                }
                i = i + 1;
            }
            assert(entries_view(entries@).take(entries.len() as int) =~= entries_view(entries@));
            if url.as_str().is_empty() {
                Err(CrcLookupError::NoCrcUrl)
            } else {
                Ok(url)
            }
        },
    }
}

/// Where the checksum of module file `full_name` is to be downloaded from,
/// given the JSON text `body` of its GitHub release: `None` where `body` is
/// no JSON; otherwise the URL of the last asset named `full_name` with
/// `.txt` that offers one, or why there is none.
pub fn crc_url_from_release(body: &str, full_name: &str) -> (r: Option<Result<String, CrcLookupError>>)
    ensures
        r is None <==> json_parse(body@) is None,
        r matches Some(Ok(u)) ==> (json_parse(body@) matches Some(v) && crc_url_lookup(
            assets_model(v),
            full_name@,
        ) == Ok::<Seq<char>, CrcLookupError>(u@)),
        r matches Some(Err(e)) ==> (json_parse(body@) matches Some(v) && crc_url_lookup(
            assets_model(v),
            full_name@,
        ) == Err::<Seq<char>, CrcLookupError>(e)),
{
    match parse_json(body) {
        None => None,
        Some(release) => Some(find_crc_url(&assets_field(&release), full_name)),
    }
}

/// The checksum that a published checksum file holds: its text without
/// surrounding whitespace, read as a `u32`.
pub fn parse_published_crc(text: &str) -> (r: Result<u32, ParseIntError>)
    ensures
        r == parsed_u32(trimmed(text@)),
{
    parse_u32(trim(text))
}

/// The binary address names the side it was asked for: it ends with
/// `&side=cl` for the client and `&side=sv` for the server, so the two sides
/// never share an address, and it starts with the server's download
/// endpoint and the module name.
pub proof fn lemma_download_url_side(
    name: Seq<char>,
    version: Seq<char>,
    platform: Seq<char>,
    isclient: bool,
)
    ensures
        ends_with(
            download_url_of(name, version, platform, isclient),
            if isclient {
                "&side=cl"@
            } else {
                "&side=sv"@
            },
        ),
        starts_with(
            download_url_of(name, version, platform, isclient),
            "https://autumngmod.ru/b2m/api/downloadBinary?name="@ + name,
        ),
        download_url_of(name, version, platform, true) != download_url_of(
            name,
            version,
            platform,
            false,
        ),
{
    reveal_strlit("&side=");
    reveal_strlit("&side=cl");
    reveal_strlit("&side=sv");
    reveal_strlit("cl");
    reveal_strlit("sv");
    let head = "https://autumngmod.ru/b2m/api/downloadBinary?name="@ + name + "&version="@ + version
        + "&platform="@ + platform;
    let tail = |c: bool| if c { "&side=cl"@ } else { "&side=sv"@ };
    assert forall|c: bool| download_url_of(name, version, platform, c) =~= head + tail(c) by {
        assert("&side="@ + side_of(c) =~= tail(c));
    }
    lemma_ends_with_concat(head, tail(isclient));
    let first = "https://autumngmod.ru/b2m/api/downloadBinary?name="@ + name;
    let rest = "&version="@ + version + "&platform="@ + platform + tail(isclient);
    assert(download_url_of(name, version, platform, isclient) =~= first + rest);
    lemma_starts_with_concat(first, rest);
    let u1 = download_url_of(name, version, platform, true);
    let u2 = download_url_of(name, version, platform, false);
    lemma_ends_with_concat(head, tail(true));
    lemma_ends_with_concat(head, tail(false));
    assert(u1.len() == u2.len());
    assert(u1[u1.len() - 2] == 'c');
    assert(u2[u2.len() - 2] == 's');
}

/// The release address asks for the release that the version selects: it
/// ends with `tags/` and the version for a pinned version, and with
/// `/releases/latest` for `*`.
pub proof fn lemma_release_url_selects_version(name: Seq<char>, version: Seq<char>)
    ensures
        version != "*"@ ==> ends_with(release_api_url_of(name, version), "tags/"@ + version),
        version == "*"@ ==> ends_with(release_api_url_of(name, version), "/releases/latest"@),
        starts_with(
            release_api_url_of(name, version),
            "https://api.github.com/repos/b2mpackages/"@ + name,
        ),
{
    reveal_strlit("/releases/");
    reveal_strlit("latest");
    reveal_strlit("/releases/latest");
    let first = "https://api.github.com/repos/b2mpackages/"@ + name;
    let u = release_api_url_of(name, version);
    assert(u =~= first + ("/releases/"@ + release_selector(version)));
    lemma_starts_with_concat(first, "/releases/"@ + release_selector(version));
    if version == "*"@ {
        assert("/releases/"@ + "latest"@ =~= "/releases/latest"@);
        lemma_ends_with_concat(first, "/releases/latest"@);
    } else {
        assert(u =~= (first + "/releases/"@) + ("tags/"@ + version));
        lemma_ends_with_concat(first + "/releases/"@, "tags/"@ + version);
    }
}

/// The first step of a checksum fetch asks for the release that the
/// module's version selects, of the module's package: `tags/<version>` for a
/// pinned version, the latest for `*`.
pub proof fn lemma_crc_fetch_asks_selected_release(
    name: Seq<char>,
    full_name: Seq<char>,
    version: Seq<char>,
)
    ensures
        crc_fetch_transition(name, full_name, version, CrcFetchState::Start, CrcFetchEvent::Go).0
            == CrcFetchState::AwaitingRelease,
        crc_fetch_transition(
            name,
            full_name,
            version,
            CrcFetchState::Start,
            CrcFetchEvent::Go,
        ).1 matches CrcFetchActionModel::RequestRelease(u) && u == release_api_url_of(name, version)
            && (version != "*"@ ==> ends_with(u, "tags/"@ + version)) && (version == "*"@
            ==> ends_with(u, "/releases/latest"@)),
{
    lemma_release_url_selects_version(name, version);
}

/// The release's assets are its member `assets`: missing where there is no
/// such member, an error where it is no array, and otherwise one entry per
/// element, in order, each read from that element's members `name` and
/// `browser_download_url` where these are strings.
pub proof fn lemma_assets_read_from_members(release: JsonValue)
    ensures
        assets_model(release) is Missing <==> json_get(
            release,
            seq!['a', 's', 's', 'e', 't', 's'],
        ) is None,
        assets_model(release) is Entries <==> json_get(
            release,
            seq!['a', 's', 's', 'e', 't', 's'],
        ) matches Some(JsonValue::Array(_)),
        assets_model(release) matches AssetsModel::Entries(entries) ==> (json_get(
            release,
            seq!['a', 's', 's', 'e', 't', 's'],
        ) matches Some(JsonValue::Array(items)) && entries.len() == items@.len() && forall|
            k: int,
        |
            0 <= k < entries.len() ==> (#[trigger] entries[k] matches AssetEntryModel::Object {
                name,
                download_url,
            } ==> name == json_str(json_get(items@[k], seq!['n', 'a', 'm', 'e']))
                && download_url == json_str(
                json_get(
                    items@[k],
                    seq![
                        'b', 'r', 'o', 'w', 's', 'e', 'r', '_', 'd', 'o', 'w', 'n', 'l', 'o', 'a', 'd', '_', 'u', 'r', 'l',
                    ],
                ),
            ))),
{
    reveal_strlit("assets");
    reveal_strlit("name");
    reveal_strlit("browser_download_url");
    assert("assets"@ =~= seq!['a', 's', 's', 'e', 't', 's']);
    assert("name"@ =~= seq!['n', 'a', 'm', 'e']);
    assert("browser_download_url"@ =~= seq![
        'b', 'r', 'o', 'w', 's', 'e', 'r', '_', 'd', 'o', 'w', 'n', 'l', 'o', 'a', 'd', '_', 'u', 'r', 'l',
    ]);
}

/// Each way of finding no checksum file has its own error: no `assets`
/// member, an `assets` member that is no array, and no asset named after the
/// module with a URL.
pub proof fn lemma_lookup_errors(entries: Seq<AssetEntryModel>, full_name: Seq<char>)
    ensures
        crc_url_lookup(AssetsModel::Missing, full_name) == Err::<Seq<char>, CrcLookupError>(
            CrcLookupError::NoAssets,
        ),
        crc_url_lookup(AssetsModel::NotArray, full_name) == Err::<Seq<char>, CrcLookupError>(
            CrcLookupError::AssetsNotArray,
        ),
        crc_url_lookup(AssetsModel::Entries(entries), full_name) is Err ==> crc_url_lookup(
            AssetsModel::Entries(entries),
            full_name,
        ) == Err::<Seq<char>, CrcLookupError>(CrcLookupError::NoCrcUrl),
        crc_url_lookup(AssetsModel::Entries(entries), full_name) matches Ok(u) ==> u.len() > 0
            && u == last_crc_url(entries, full_name + seq!['.', 't', 'x', 't']),
{
    reveal_strlit(".txt");
    assert(".txt"@ =~= seq!['.', 't', 'x', 't']);
}

/// The checksum file of a module is the asset named after its file with
/// `.txt` added.
pub proof fn lemma_crc_asset_name(full_name: Seq<char>)
    ensures
        ends_with(crc_asset_name(full_name), seq!['.', 't', 'x', 't']),
        starts_with(crc_asset_name(full_name), full_name),
        crc_asset_name(full_name).len() == full_name.len() + 4,
{
    reveal_strlit(".txt");
    assert(".txt"@ =~= seq!['.', 't', 'x', 't']);
    lemma_ends_with_concat(full_name, ".txt"@);
    lemma_starts_with_concat(full_name, ".txt"@);
}

/// Among the assets, a later one named `target` with a URL overrides every
/// earlier one, and an asset that is not so named changes nothing.
pub proof fn lemma_later_asset_wins(
    entries: Seq<AssetEntryModel>,
    name: Option<Seq<char>>,
    url: Option<Seq<char>>,
    target: Seq<char>,
)
    ensures
        name == Some(target) && url is Some ==> last_crc_url(
            entries.push(AssetEntryModel::Object { name, download_url: url }),
            target,
        ) == url.unwrap(),
        (name != Some(target) || url is None) ==> last_crc_url(
            entries.push(AssetEntryModel::Object { name, download_url: url }),
            target,
        ) == last_crc_url(entries, target),
        last_crc_url(entries.push(AssetEntryModel::NotObject), target) == last_crc_url(
            entries,
            target,
        ),
        last_crc_url(Seq::empty(), target).len() == 0,
{
    assert(entries.push(AssetEntryModel::Object { name, download_url: url }).drop_last()
        =~= entries);
    assert(entries.push(AssetEntryModel::NotObject).drop_last() =~= entries);
}

/// Where the fetching of a module's published checksum stands.
#[derive(Clone, Copy, Debug, PartialEq, Eq, Structural)]
pub enum CrcFetchState {
    /// Nothing has been asked yet.
    Start,
    /// The module's GitHub release has been asked for.
    AwaitingRelease,
    /// The release's checksum file has been asked for.
    AwaitingCrcFile,
    /// Done: the published checksum, 0 where none could be had.
    Done(u32),
}

/// A reply to a request made while fetching a published checksum.
#[derive(Debug)]
pub enum CrcFetchEvent {
    /// The fetching is to begin.
    Go,
    /// The reply to the request for the release: whether its status was a
    /// success, and its text (read only on success).
    ReleaseReply { success: bool, body: String },
    /// The reply to the request for the checksum file, likewise.
    CrcFileReply { success: bool, body: String },
}

/// What the fetching of a published checksum asks for next.
#[derive(Debug, PartialEq, Eq)]
pub enum CrcFetchAction {
    /// Ask GitHub for the release at this address.
    RequestRelease(String),
    /// Ask for the checksum file at this address.
    RequestCrcFile(String),
    /// The release text is no JSON: give up (the run is aborted).
    RejectRelease,
    /// Report why the release offers no checksum file; the checksum is 0.
    ReportLookupError(CrcLookupError),
    /// Report why the checksum file holds no checksum; the checksum is 0.
    ReportParseError(ParseIntError),
    /// The published checksum is this one.
    Finish(u32),
    /// Nothing (the event does not fit where the fetching stands).
    Nothing,
}

/// The plain-value model of a `CrcFetchAction`.
pub enum CrcFetchActionModel {
    RequestRelease(Seq<char>),
    RequestCrcFile(Seq<char>),
    RejectRelease,
    ReportLookupError(CrcLookupError),
    ReportParseError(ParseIntError),
    Finish(u32),
    Nothing,
}

impl View for CrcFetchAction {
    type V = CrcFetchActionModel;

    open spec fn view(&self) -> CrcFetchActionModel {
        match self {
            CrcFetchAction::RequestRelease(u) => CrcFetchActionModel::RequestRelease(u@),
            CrcFetchAction::RequestCrcFile(u) => CrcFetchActionModel::RequestCrcFile(u@),
            CrcFetchAction::RejectRelease => CrcFetchActionModel::RejectRelease,
            CrcFetchAction::ReportLookupError(e) => CrcFetchActionModel::ReportLookupError(*e),
            CrcFetchAction::ReportParseError(e) => CrcFetchActionModel::ReportParseError(*e),
            CrcFetchAction::Finish(c) => CrcFetchActionModel::Finish(*c),
            CrcFetchAction::Nothing => CrcFetchActionModel::Nothing,
        }
    }
}

/// One step of fetching the checksum that the release of package `name` at
/// `version` publishes for module file `full_name`.
pub open spec fn crc_fetch_transition(
    name: Seq<char>,
    full_name: Seq<char>,
    version: Seq<char>,
    state: CrcFetchState,
    event: CrcFetchEvent,
) -> (CrcFetchState, CrcFetchActionModel) {
    match (state, event) {
        (CrcFetchState::Start, CrcFetchEvent::Go) => (
            CrcFetchState::AwaitingRelease,
            CrcFetchActionModel::RequestRelease(release_api_url_of(name, version)),
        ),
        (CrcFetchState::AwaitingRelease, CrcFetchEvent::ReleaseReply { success, body }) => {
            if !success {
                (CrcFetchState::Done(0), CrcFetchActionModel::Finish(0))
            } else {
                match json_parse(body@) {
                    None => (CrcFetchState::Done(0), CrcFetchActionModel::RejectRelease),
                    Some(release) => match crc_url_lookup(assets_model(release), full_name) {
                        Err(e) => (CrcFetchState::Done(0), CrcFetchActionModel::ReportLookupError(e)),
                        Ok(u) => (
                            CrcFetchState::AwaitingCrcFile,
                            CrcFetchActionModel::RequestCrcFile(u),
                        ),
                    },
                }
            }
        },
        (CrcFetchState::AwaitingCrcFile, CrcFetchEvent::CrcFileReply { success, body }) => {
            if !success {
                (CrcFetchState::Done(0), CrcFetchActionModel::Finish(0))
            } else {
                match parsed_u32(trimmed(body@)) {
                    Ok(c) => (CrcFetchState::Done(c), CrcFetchActionModel::Finish(c)),
                    Err(e) => (CrcFetchState::Done(0), CrcFetchActionModel::ReportParseError(e)),
                }
            }
        },
        _ => (state, CrcFetchActionModel::Nothing),
    }
}

/// One step of fetching the checksum that the release of package `name` at
/// `version` publishes for module file `full_name`: a failed request gives
/// 0, and only a checksum file read as a `u32` gives anything else.
pub fn crc_fetch_step(
    name: &str,
    full_name: &str,
    version: &str,
    state: CrcFetchState,
    event: CrcFetchEvent,
) -> (r: (CrcFetchState, CrcFetchAction))
    ensures
        (r.0, r.1@) == crc_fetch_transition(name@, full_name@, version@, state, event),
{
    match (state, event) {
        (CrcFetchState::Start, CrcFetchEvent::Go) => (
            CrcFetchState::AwaitingRelease,
            CrcFetchAction::RequestRelease(release_api_url(name, version)),
        ),
        (CrcFetchState::AwaitingRelease, CrcFetchEvent::ReleaseReply { success, body }) => {
            if !success {
                (CrcFetchState::Done(0), CrcFetchAction::Finish(0))
            } else {
                match crc_url_from_release(body.as_str(), full_name) {
                    None => (CrcFetchState::Done(0), CrcFetchAction::RejectRelease),
                    Some(Err(e)) => (CrcFetchState::Done(0), CrcFetchAction::ReportLookupError(e)),
                    Some(Ok(u)) => (CrcFetchState::AwaitingCrcFile, CrcFetchAction::RequestCrcFile(u)),
                }
            }
        },
        (CrcFetchState::AwaitingCrcFile, CrcFetchEvent::CrcFileReply { success, body }) => {
            if !success {
                (CrcFetchState::Done(0), CrcFetchAction::Finish(0))
            } else {
                match parse_published_crc(body.as_str()) {
                    Ok(c) => (CrcFetchState::Done(c), CrcFetchAction::Finish(c)),
                    Err(e) => (CrcFetchState::Done(0), CrcFetchAction::ReportParseError(e)),
                }
            }
        },
        (state, _) => (state, CrcFetchAction::Nothing),
    }
}

/// A published checksum other than 0 comes only from a checksum file that
/// was fetched with success and reads as that number.
pub proof fn lemma_nonzero_crc_from_crc_file(
    name: Seq<char>,
    full_name: Seq<char>,
    version: Seq<char>,
    state: CrcFetchState,
    event: CrcFetchEvent,
    c: u32,
)
    requires
        c != 0,
        state != CrcFetchState::Done(c),
        crc_fetch_transition(name, full_name, version, state, event).0 == CrcFetchState::Done(c),
    ensures
        state == CrcFetchState::AwaitingCrcFile,
        event matches CrcFetchEvent::CrcFileReply { success, body } && success && parsed_u32(
            trimmed(body@),
        ) == Ok::<u32, ParseIntError>(c),
{
}

/// A failed request, for the release or for its checksum file, ends the
/// fetching with the checksum 0.
pub proof fn lemma_failed_request_gives_zero(
    name: Seq<char>,
    full_name: Seq<char>,
    version: Seq<char>,
    state: CrcFetchState,
    body: String,
)
    ensures
        state == CrcFetchState::AwaitingRelease ==> crc_fetch_transition(
            name,
            full_name,
            version,
            state,
            CrcFetchEvent::ReleaseReply { success: false, body },
        ).0 == CrcFetchState::Done(0),
        state == CrcFetchState::AwaitingCrcFile ==> crc_fetch_transition(
            name,
            full_name,
            version,
            state,
            CrcFetchEvent::CrcFileReply { success: false, body },
        ).0 == CrcFetchState::Done(0),
{
}

/// Where a module download stands.
#[derive(Clone, Copy, Debug, PartialEq, Eq, Structural)]
pub enum DownloadState {
    /// Nothing has been done yet.
    Start,
    /// The binary has been asked for.
    AwaitingBinary,
    /// The old file is being replaced by the binary.
    Writing,
    /// The new file's checksum is being compared with the published one.
    Verifying,
    /// Done: whether the new binary was kept.
    Finished(bool),
}

/// What the outside world reports to a module download.
#[derive(Clone, Copy, Debug, PartialEq, Eq, Structural)]
pub enum DownloadEvent {
    /// The download is to begin.
    Go,
    /// The server answered the request for the binary; `success` where the
    /// status was a success.
    BinaryReply { success: bool },
    /// The new module file could not be created.
    CreateFailed,
    /// The binary could not be written into the new file.
    CopyFailed,
    /// The binary has been written into the new file.
    Written,
    /// The checksum of the new file (0 where it cannot be read) and the one
    /// its release publishes (0 where it cannot be had).
    Checksums { downloaded: u32, published: u32 },
}

/// What a module download asks the outside world to do next.
#[derive(Clone, Copy, Debug, PartialEq, Eq, Structural)]
pub enum DownloadAction {
    /// Ask the server for the binary.
    RequestBinary,
    /// Report the server's failure status; nothing else is done.
    ReportHttpError,
    /// Remove the old module file, create a new one and write the binary in.
    ReplaceFile,
    /// Report that the file could not be created.
    ReportCreateError,
    /// Report that the binary could not be written.
    ReportCopyError,
    /// Take the new file's checksum and fetch the published one.
    FetchChecksums,
    /// Remove the new file, whose checksum differs, and report it.
    RemoveMismatch,
    /// Keep the new file.
    Keep,
    /// Nothing (the event does not fit where the download stands).
    Nothing,
}

/// One step of a module download: where it goes and what it asks for.
pub open spec fn download_transition(state: DownloadState, event: DownloadEvent) -> (
    DownloadState,
    DownloadAction,
) {
    match (state, event) {
        (DownloadState::Start, DownloadEvent::Go) => (
            DownloadState::AwaitingBinary,
            DownloadAction::RequestBinary,
        ),
        (DownloadState::AwaitingBinary, DownloadEvent::BinaryReply { success }) => if success {
            (DownloadState::Writing, DownloadAction::ReplaceFile)
        } else {
            (DownloadState::Finished(false), DownloadAction::ReportHttpError)
        },
        (DownloadState::Writing, DownloadEvent::CreateFailed) => (
            DownloadState::Finished(false),
            DownloadAction::ReportCreateError,
        ),
        (DownloadState::Writing, DownloadEvent::CopyFailed) => (
            DownloadState::Finished(false),
            DownloadAction::ReportCopyError,
        ),
        (DownloadState::Writing, DownloadEvent::Written) => (
            DownloadState::Verifying,
            DownloadAction::FetchChecksums,
        ),
        (DownloadState::Verifying, DownloadEvent::Checksums { downloaded, published }) => if downloaded
            == published {
            (DownloadState::Finished(true), DownloadAction::Keep)
        } else {
            (DownloadState::Finished(false), DownloadAction::RemoveMismatch)
        },
        _ => (state, DownloadAction::Nothing),
    }
}

/// The event reports two equal checksums.
pub open spec fn checksums_agree(e: DownloadEvent) -> bool {
    match e {
        DownloadEvent::Checksums { downloaded, published } => downloaded == published,
        _ => false,
    }
}

/// The event reports two different checksums.
pub open spec fn checksums_differ(e: DownloadEvent) -> bool {
    match e {
        DownloadEvent::Checksums { downloaded, published } => downloaded != published,
        _ => false,
    }
}

/// The actions that change what is on disk.
pub open spec fn touches_disk(a: DownloadAction) -> bool {
    a == DownloadAction::ReplaceFile || a == DownloadAction::RemoveMismatch
}

/// One step of a module download. A failed request for the binary ends the
/// download without touching the disk; a binary whose checksum differs from
/// the published one is removed and never kept; a finished download does
/// nothing more.
pub fn download_step(state: DownloadState, event: DownloadEvent) -> (r: (
    DownloadState,
    DownloadAction,
))
    ensures
        r == download_transition(state, event),
        state == DownloadState::AwaitingBinary && event == (DownloadEvent::BinaryReply {
            success: false,
        }) ==> r == (DownloadState::Finished(false), DownloadAction::ReportHttpError)
            && !touches_disk(r.1),
        state == DownloadState::Verifying && checksums_differ(event) ==> r == (
            DownloadState::Finished(false),
            DownloadAction::RemoveMismatch,
        ),
        r.1 == DownloadAction::Keep ==> checksums_agree(event),
        state is Finished ==> r == (state, DownloadAction::Nothing),
{
    match (state, event) {
        (DownloadState::Start, DownloadEvent::Go) => (
            DownloadState::AwaitingBinary,
            DownloadAction::RequestBinary,
        ),
        (DownloadState::AwaitingBinary, DownloadEvent::BinaryReply { success }) => if success {
            (DownloadState::Writing, DownloadAction::ReplaceFile)
        } else {
            (DownloadState::Finished(false), DownloadAction::ReportHttpError)
        },
        (DownloadState::Writing, DownloadEvent::CreateFailed) => (
            DownloadState::Finished(false),
            DownloadAction::ReportCreateError,
        ),
        (DownloadState::Writing, DownloadEvent::CopyFailed) => (
            DownloadState::Finished(false),
            DownloadAction::ReportCopyError,
        ),
        (DownloadState::Writing, DownloadEvent::Written) => (
            DownloadState::Verifying,
            DownloadAction::FetchChecksums,
        ),
        (DownloadState::Verifying, DownloadEvent::Checksums { downloaded, published }) => if downloaded
            == published {
            (DownloadState::Finished(true), DownloadAction::Keep)
        } else {
            (DownloadState::Finished(false), DownloadAction::RemoveMismatch)
        },
        _ => (state, DownloadAction::Nothing),
    }
}

/// The state a download reaches from `state` through `events`.
pub open spec fn download_run_state(state: DownloadState, events: Seq<DownloadEvent>) -> DownloadState
    decreases events.len(),
{
    if events.len() == 0 {
        state
    } else {
        download_run_state(download_transition(state, events[0]).0, events.drop_first())
    }
}

/// The actions a download asks for from `state` through `events`, in order.
pub open spec fn download_run_actions(state: DownloadState, events: Seq<DownloadEvent>) -> Seq<
    DownloadAction,
>
    decreases events.len(),
{
    if events.len() == 0 {
        Seq::empty()
    } else {
        let (next, action) = download_transition(state, events[0]);
        seq![action] + download_run_actions(next, events.drop_first())
    }
}

/// A finished download asks for nothing more, whatever comes.
pub proof fn lemma_finished_download_is_idle(kept: bool, events: Seq<DownloadEvent>)
    ensures
        forall|i: int|
            0 <= i < events.len() ==> #[trigger] download_run_actions(
                DownloadState::Finished(kept),
                events,
            )[i] == DownloadAction::Nothing,
        download_run_actions(DownloadState::Finished(kept), events).len() == events.len(),
        download_run_state(DownloadState::Finished(kept), events) == DownloadState::Finished(kept),
    decreases events.len(),
{
    if events.len() > 0 {
        lemma_finished_download_is_idle(kept, events.drop_first());
        let rest = download_run_actions(DownloadState::Finished(kept), events.drop_first());
        assert forall|i: int| 0 <= i < events.len() implies #[trigger] download_run_actions(
            DownloadState::Finished(kept),
            events,
        )[i] == DownloadAction::Nothing by {
            if i > 0 {
                assert(rest[i - 1] == DownloadAction::Nothing);
            }
        }
    }
}

/// A failed request for the binary touches nothing on disk, then or later,
/// and the download ends with nothing kept.
pub proof fn lemma_failed_request_touches_nothing(later: Seq<DownloadEvent>)
    ensures
        ({
            let events = seq![DownloadEvent::BinaryReply { success: false }] + later;
            let actions = download_run_actions(DownloadState::AwaitingBinary, events);
            &&& forall|i: int| 0 <= i < actions.len() ==> !touches_disk(#[trigger] actions[i])
            &&& download_run_state(DownloadState::AwaitingBinary, events)
                == DownloadState::Finished(false)
        }),
{
    let events = seq![DownloadEvent::BinaryReply { success: false }] + later;
    assert(events.drop_first() =~= later);
    lemma_finished_download_is_idle(false, later);
    let actions = download_run_actions(DownloadState::AwaitingBinary, events);
    let rest = download_run_actions(DownloadState::Finished(false), later);
    assert(actions =~= seq![DownloadAction::ReportHttpError] + rest);
    assert forall|i: int| 0 <= i < actions.len() implies !touches_disk(#[trigger] actions[i]) by {
        if i > 0 {
            assert(actions[i] == rest[i - 1]);
            assert(rest[i - 1] == DownloadAction::Nothing);
        }
    }
}

/// A download that was not yet kept ends up kept only through a checksum
/// comparison in which the two checksums are equal.
pub proof fn lemma_kept_only_with_equal_checksums(state: DownloadState, events: Seq<DownloadEvent>)
    requires
        state != DownloadState::Finished(true),
        download_run_state(state, events) == DownloadState::Finished(true),
    ensures
        exists|i: int| 0 <= i < events.len() && checksums_agree(#[trigger] events[i]),
    decreases events.len(),
{
    if events.len() == 0 {
    } else {
        let next = download_transition(state, events[0]).0;
        if next == DownloadState::Finished(true) {
            assert(checksums_agree(events[0]));
        } else {
            lemma_kept_only_with_equal_checksums(next, events.drop_first());
            let j = choose|j: int|
                0 <= j < events.drop_first().len() && checksums_agree(
                    #[trigger] events.drop_first()[j],
                );
            assert(events[j + 1] == events.drop_first()[j]);
        }
    }
}

} // verus!
