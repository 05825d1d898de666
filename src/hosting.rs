use vstd::prelude::*;

use crate::client::is_success_status;
use crate::endpoints::{releases_url_of, RELEASES_API_URL};
use crate::text::{decimal, decimal_string};

verus! {

/// Where rendered images are hosted: a release of a repository.
#[derive(Debug)]
pub struct GitHubConfig {
    pub repo: String,
    pub release_id: u64,
    pub token: String,
}

/// Why an image could not be hosted.
#[derive(Debug, Clone, PartialEq, Eq)]
pub enum HostingError {
    /// The release does not exist.
    ReleaseNotFound { repo: String, release_id: u64 },
    /// The release could not be looked up for another reason.
    ReleaseLookup { status: u16, body: String },
    /// The release already holds an asset of that name.
    DuplicateAsset { file_name: String, detail: String },
    /// The upload was refused for another reason.
    Upload { status: u16, body: String },
    /// A release answer without an unsigned integer `id`.
    MissingReleaseId,
    /// Creating a release, or finding the latest one, was refused.
    ReleaseRequest { status: u16, body: String },
}

/// `s` up to its first `{`: an upload URL without its template part.
pub open spec fn before_brace(s: Seq<char>) -> Seq<char>
    decreases s.len(),
{
    if s.len() == 0 {
        s
    } else if s[0] == '{' {
        Seq::empty()
    } else {
        seq![s[0]] + before_brace(s.drop_first())
    }
}

/// The name under which an image whose file stem is `stem` is uploaded at
/// `timestamp`.
pub open spec fn asset_file_name_of(stem: Seq<char>, timestamp: nat) -> Seq<char> {
    stem + "__"@ + decimal(timestamp) + ".png"@
}

/// The URL of the release `release_id` of `repo`.
pub open spec fn release_url_of(repo: Seq<char>, release_id: nat) -> Seq<char> {
    releases_url_of(repo) + "/"@ + decimal(release_id)
}

/// The URL of the latest release of `repo`.
pub open spec fn latest_release_url_of(repo: Seq<char>) -> Seq<char> {
    releases_url_of(repo) + "/latest"@
}

/// The title of a release made for the tag `tag`.
pub open spec fn release_name_of(tag: Seq<char>) -> Seq<char> {
    "GMAT Bot Images - "@ + tag
}

proof fn lemma_before_brace_at(s: Seq<char>, i: int)
    requires
        0 <= i <= s.len(),
        forall|k: int| 0 <= k < i ==> #[trigger] s[k] != '{',
        i == s.len() || s[i] == '{',
    ensures
        before_brace(s) == s.take(i),
    decreases i,
{
    if i == 0 {
        assert(s.take(0) =~= Seq::<char>::empty());
    } else {
        let t = s.drop_first();
        assert forall|k: int| 0 <= k < i - 1 implies #[trigger] t[k] != '{' by {
            assert(t[k] == s[k + 1]);
        }
        if i - 1 < t.len() {
            assert(t[i - 1] == s[i]);
        }
        assert(s[0] != '{');
        lemma_before_brace_at(t, i - 1);
        assert(seq![s[0]] + t.take(i - 1) =~= s.take(i));
    }
}

/// An upload URL without its `{?name,label}` template part.
pub fn upload_base(template: &str) -> (r: &str)
    ensures
        r@ == before_brace(template@),
{
    let n = template.unicode_len();
    let mut i: usize = 0;
    while i < n && template.get_char(i) != '{'
        invariant
            n == template@.len(),
            i <= n,
            forall|k: int| 0 <= k < i ==> #[trigger] template@[k] != '{',
        decreases n - i,
    {
        i = i + 1;
    }
    proof {
        lemma_before_brace_at(template@, i as int);
        assert(template@.subrange(0, i as int) =~= template@.take(i as int));
    }
    template.substring_char(0, i)
}

pub fn asset_file_name(stem: &str, timestamp: u64) -> (r: String)
    ensures
        r@ == asset_file_name_of(stem@, timestamp as nat),
{
    let mut s = String::from_str(stem);
    s.append("__");
    let t = decimal_string(timestamp);
    s.append(t.as_str());
    s.append(".png");
    s
}

/// The URL that uploads an asset named `file_name` to the release whose
/// upload URL, without its template part, is `base`.
pub fn asset_upload_url(base: &str, file_name: &str) -> (r: String)
    ensures
        r@ == base@ + "?name="@ + file_name@,
{
    let mut s = String::from_str(base);
    s.append("?name=");
    s.append(file_name);
    s
}

pub fn release_url(repo: &str, release_id: u64) -> (r: String)
    ensures
        r@ == release_url_of(repo@, release_id as nat),
{
    let mut s = String::from_str(RELEASES_API_URL);
    s.append("/");
    s.append(repo);
    s.append("/releases");
    s.append("/");
    let id = decimal_string(release_id);
    s.append(id.as_str());
    s
}

pub fn latest_release_url(repo: &str) -> (r: String)
    ensures
        r@ == latest_release_url_of(repo@),
{
    let mut s = String::from_str(RELEASES_API_URL);
    s.append("/");
    s.append(repo);
    s.append("/releases");
    s.append("/latest");
    s
}

pub fn release_name(tag: &str) -> (r: String)
    ensures
        r@ == release_name_of(tag@),
{
    String::from_str("GMAT Bot Images - ").concat(tag)
}

/// The error for a failed lookup of the release `release_id` of `repo`.
pub fn release_lookup_error(status: u16, repo: String, release_id: u64, body: String) -> (r:
    HostingError)
    ensures
        status == 404 ==> r == (HostingError::ReleaseNotFound { repo, release_id }),
        status != 404 ==> r == (HostingError::ReleaseLookup { status, body }),
{
    if status == 404 {
        HostingError::ReleaseNotFound { repo, release_id }
    } else {
        HostingError::ReleaseLookup { status, body }
    }
}

/// The error for a refused upload of the asset `file_name`.
pub fn upload_error(status: u16, file_name: String, body: String) -> (r: HostingError)
    ensures
        status == 422 ==> r == (HostingError::DuplicateAsset { file_name, detail: body }),
        status != 422 ==> r == (HostingError::Upload { status, body }),
{
    if status == 422 {
        HostingError::DuplicateAsset { file_name, detail: body }
    } else {
        HostingError::Upload { status, body }
    }
}

/// The release identifier that a body holds: the `id` field of a JSON
/// object, when that field is an unsigned integer that fits in 64 bits.
pub uninterp spec fn release_id_in(body: Seq<char>) -> Option<u64>;

/// Relies on serde_json::from_str into a serde_json::Value, then on
/// Value::get and Value::as_u64 to read the field `id`: the outcome depends
/// on the text alone.
#[verifier::external_body]
fn parse_release_id(body: &str) -> (r: Option<u64>)
    ensures
        r == release_id_in(body@),
{
    serde_json::from_str::<serde_json::Value>(body).ok().and_then(
        |v| v.get("id").and_then(serde_json::Value::as_u64),
    )
}

/// The release identifier read from a release answer `id`, or the error for
/// an answer that has none.
pub fn release_id_or_error(id: Option<u64>) -> (r: Result<u64, HostingError>)
    ensures
        id matches Some(i) ==> r == Ok::<u64, HostingError>(i),
        id is None ==> r == Err::<u64, HostingError>(HostingError::MissingReleaseId),
{
    match id {
        Some(i) => Ok(i),
        None => Err(HostingError::MissingReleaseId),
    }
}

/// The identifier of the release that the answer body `body` describes.
pub fn read_release_id(body: &str) -> (r: Result<u64, HostingError>)
    ensures
        release_id_in(body@) matches Some(i) ==> r == Ok::<u64, HostingError>(i),
        release_id_in(body@) is None ==> r == Err::<u64, HostingError>(
            HostingError::MissingReleaseId,
        ),
{
    release_id_or_error(parse_release_id(body))
}

/// Checks the answer to creating a release or to asking for the latest one.
pub fn check_release_answer(status: u16, body: String) -> (r: Result<(), HostingError>)
    ensures
        is_success_status(status) ==> r is Ok,
        !is_success_status(status) ==> r == Err::<(), HostingError>(
            HostingError::ReleaseRequest { status, body },
        ),
{
    if 200 <= status && status < 300 {
        Ok(())
    } else {
        Err(HostingError::ReleaseRequest { status, body })
    }
}

/// Checks the answer to looking up the release `release_id` of `repo`.
pub fn check_release_lookup(status: u16, repo: String, release_id: u64, body: String) -> (r:
    Result<(), HostingError>)
    ensures
        is_success_status(status) ==> r is Ok,
        status == 404 ==> r == Err::<(), HostingError>(
            HostingError::ReleaseNotFound { repo, release_id },
        ),
        !is_success_status(status) && status != 404 ==> r == Err::<(), HostingError>(
            HostingError::ReleaseLookup { status, body },
        ),
{
    if 200 <= status && status < 300 {
        Ok(())
    } else {
        Err(release_lookup_error(status, repo, release_id, body))
    }
}

/// Checks the answer to uploading the asset `file_name`.
pub fn check_upload(status: u16, file_name: String, body: String) -> (r: Result<(), HostingError>)
    ensures
        is_success_status(status) ==> r is Ok,
        status == 422 ==> r == Err::<(), HostingError>(
            HostingError::DuplicateAsset { file_name, detail: body },
        ),
        !is_success_status(status) && status != 422 ==> r == Err::<(), HostingError>(
            HostingError::Upload { status, body },
        ),
{
    if 200 <= status && status < 300 {
        Ok(())
    } else {
        Err(upload_error(status, file_name, body))
    }
}

} // verus!
