//! Whether the running build is the latest release.

use vstd::prelude::*;
use crate::json::{json_get, json_parse, json_text, json_to_text, object_get, parse_json};
use crate::text::{chars_eq, chars_of, remove_char, without_char};

verus! {

/// The GitHub API address of the latest release of this manager.
pub fn latest_release_url() -> (r: &'static str)
    ensures
        r@ == "https://api.github.com/repos/autumncommunity/b2m/releases/latest"@,
{
    "https://api.github.com/repos/autumncommunity/b2m/releases/latest"
}

/// The release name `release_name`, as JSON writes it, names the version
/// `current`: they agree once every `"` is taken out.
pub open spec fn names_version(release_name: Seq<char>, current: Seq<char>) -> bool {
    without_char(release_name, '"') == current
}

/// Whether the build with version `current` is the newest, where
/// `release_name` is the `name` field of the latest release as JSON writes
/// it (with its quotes): the two agree once every `"` is taken out.
pub fn is_newest(release_name: &str, current: &str) -> (r: bool)
    ensures
        r == names_version(release_name@, current@),
{
    let name = remove_char(release_name, '"');
    let cur = chars_of(current);
    chars_eq(&name, &cur)
}

/// The `name` field of the release whose JSON text is `body`, written back
/// as JSON text (a string with its quotes): `None` where `body` is no JSON or
/// has no `name`.
pub open spec fn release_name_of(body: Seq<char>) -> Option<Seq<char>> {
    match json_parse(body) {
        None => None,
        Some(v) => match json_get(v, "name"@) {
            None => None,
            Some(n) => Some(json_text(n)),
        },
    }
}

/// Whether the build with version `current` is the newest, given the JSON
/// text `body` of the latest release: `None` where `body` is no JSON or has
/// no `name`; otherwise whether that name, as JSON writes it and without its
/// quotes, is `current`.
pub fn is_newest_release(body: &str, current: &str) -> (r: Option<bool>)
    ensures
        r == (match release_name_of(body@) {
            None => None,
            Some(n) => Some(names_version(n, current@)),
        }),
{
    match parse_json(body) {
        None => None,
        Some(release) => match object_get(&release, "name") {
            None => None,
            Some(name) => {
                let text = json_to_text(name);
                Some(is_newest(text.as_str(), current))
            },
        },
    }
}

/// What the version check concludes.
#[derive(Clone, Copy, Debug, PartialEq, Eq, Structural)]
pub enum VersionVerdict {
    /// The request for the latest release failed; its body is reported.
    RequestFailed,
    /// The release is no JSON or has no `name`.
    Unreadable,
    /// The running build is the latest release.
    Newest,
    /// The running build is outdated; this is reported.
    Outdated,
}

/// What the version check concludes from the reply to the request for the
/// latest release (`success`: its status was a success; `body`: its text),
/// for the running version `current`.
pub fn version_verdict(success: bool, body: &str, current: &str) -> (r: VersionVerdict)
    ensures
        !success ==> r == VersionVerdict::RequestFailed,
        success ==> r == (match release_name_of(body@) {
            None => VersionVerdict::Unreadable,
            Some(n) => if names_version(n, current@) {
                VersionVerdict::Newest
            } else {
                VersionVerdict::Outdated
            },
        }),
{
    if !success {
        return VersionVerdict::RequestFailed;
    }
    match is_newest_release(body, current) {
        None => VersionVerdict::Unreadable,
        Some(true) => VersionVerdict::Newest,
        Some(false) => VersionVerdict::Outdated,
    }
}

/// Taking a character out distributes over concatenation.
pub proof fn lemma_without_char_concat(a: Seq<char>, b: Seq<char>, q: char)
    ensures
        without_char(a + b, q) == without_char(a, q) + without_char(b, q),
    decreases b.len(),
{
    if b.len() == 0 {
        assert(a + b =~= a);
        assert(without_char(a, q) + without_char(b, q) =~= without_char(a, q));
    } else {
        assert((a + b).drop_last() =~= a + b.drop_last());
        lemma_without_char_concat(a, b.drop_last(), q);
        if b.last() != q {
            assert(without_char(a, q) + without_char(b.drop_last(), q).push(b.last()) =~= (
            without_char(a, q) + without_char(b.drop_last(), q)).push(b.last()));
        }
    }
}

/// A string without `q` is left as it is.
pub proof fn lemma_without_absent_char(s: Seq<char>, q: char)
    requires
        !s.contains(q),
    ensures
        without_char(s, q) == s,
    decreases s.len(),
{
    if s.len() > 0 {
        assert(!s.drop_last().contains(q)) by {
            if s.drop_last().contains(q) {
                let i = choose|i: int| 0 <= i < s.drop_last().len() && s.drop_last()[i] == q;
                assert(s[i] == q);
            }
        }
        lemma_without_absent_char(s.drop_last(), q);
        assert(s[s.len() - 1] != q);
        assert(s.drop_last().push(s.last()) =~= s);
    }
}

/// A release named with the running version, as JSON quotes it, is the
/// newest: `is_newest` accepts the quoted form of every version that holds
/// no `"`.
pub proof fn lemma_quoted_version_is_newest(version: Seq<char>)
    requires
        !version.contains('"'),
    ensures
        without_char(seq!['"'] + version + seq!['"'], '"') == version,
{
    lemma_without_char_concat(seq!['"'] + version, seq!['"'], '"');
    lemma_without_char_concat(seq!['"'], version, '"');
    lemma_without_absent_char(version, '"');
    let one = seq!['"'];
    assert(one.len() == 1 && one.last() == '"');
    assert(one.drop_last() =~= Seq::<char>::empty());
    assert(without_char(one.drop_last(), '"') =~= Seq::<char>::empty());
    assert(without_char(one, '"') =~= Seq::<char>::empty());
    assert(Seq::<char>::empty() + version + Seq::<char>::empty() =~= version);
}

/// A release named with a version, as JSON quotes it, names that version
/// and no other (versions holding no `"`).
pub proof fn lemma_release_names_its_version(version: Seq<char>, other: Seq<char>)
    requires
        !version.contains('"'),
    ensures
        names_version(seq!['"'] + version + seq!['"'], version),
        other != version ==> !names_version(seq!['"'] + version + seq!['"'], other),
{
    lemma_quoted_version_is_newest(version);
}
/// The release name is the release's member `name`, as JSON writes it.
pub proof fn lemma_release_name_is_name_member(body: Seq<char>)
    ensures
        release_name_of(body) == (match json_parse(body) {
            None => None,
            Some(v) => match json_get(v, seq!['n', 'a', 'm', 'e']) {
                None => None,
                Some(n) => Some(json_text(n)),
            },
        }),
{
    reveal_strlit("name");
    assert("name"@ =~= seq!['n', 'a', 'm', 'e']);
}
} // verus!
