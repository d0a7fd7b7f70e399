//! What the replies of a server mean, and what is sent along with a request.
use reqwest::header::HeaderMap;
use reqwest::header::HeaderValue;
use reqwest::StatusCode;
use vstd::prelude::*;

verus! {

/// The status of a reply that there is no such file.
pub const NOT_FOUND: u16 = 404;

/// The status of a reply that the file is the one already known.
pub const NOT_MODIFIED: u16 = 304;

/// What a reply means to someone who follows redirects by hand.
#[derive(Clone, Copy, Debug, PartialEq, Eq, Structural)]
pub enum SendOutcome {
    /// The file is the one already known.
    NotModified,
    /// The file is somewhere else: the headers of the reply tell where.
    Redirect,
    /// There is no such file.
    NotFound,
    /// The server failed with this status.
    StatusCode(u16),
    /// The body of the reply is the file.
    Success,
}

/// Why a download failed.
#[derive(Debug, PartialEq, Eq)]
pub struct DownloadError {
    /// The status of the reply, if there was one.
    pub status_code: Option<u16>,
    pub message: String,
}

/// What a reply means to someone who downloads a package.
#[derive(Debug, PartialEq, Eq)]
pub enum DownloadOutcome {
    /// There is no such package.
    NotFound,
    /// The package is the one already known.
    NotModified,
    /// The body of the reply is the package.
    Bytes,
    /// The download failed.
    Failed(DownloadError),
}

/// A downloaded package.
#[derive(Debug, PartialEq, Eq)]
pub struct BytesResponse {
    /// What to ask with whether the package is still the same.
    pub etag: Option<String>,
    pub bytes: Vec<u8>,
}

/// What a `DownloadOutcome` says, with the text of the message in place of its string.
pub enum DownloadOutcomeView {
    NotFound,
    NotModified,
    Bytes,
    Failed { status_code: Option<u16>, message: Seq<char> },
}

impl View for DownloadOutcome {
    type V = DownloadOutcomeView;

    open spec fn view(&self) -> DownloadOutcomeView {
        match self {
            DownloadOutcome::NotFound => DownloadOutcomeView::NotFound,
            DownloadOutcome::NotModified => DownloadOutcomeView::NotModified,
            DownloadOutcome::Bytes => DownloadOutcomeView::Bytes,
            DownloadOutcome::Failed(error) => DownloadOutcomeView::Failed {
                status_code: error.status_code,
                message: error.message@,
            },
        }
    }
}

/// What a reply with the status `status` means to someone who follows redirects by
/// hand. A status that reports an error of the client's, save the one for a missing
/// file, counts as success.
pub open spec fn send_outcome_of(status: u16) -> SendOutcome {
    if status == NOT_MODIFIED {
        SendOutcome::NotModified
    } else if 300 <= status < 400 {
        SendOutcome::Redirect
    } else if status == NOT_FOUND {
        SendOutcome::NotFound
    } else if 500 <= status < 600 {
        SendOutcome::StatusCode(status)
    } else {
        SendOutcome::Success
    }
}

/// What a reply with the status `status` means to someone who follows redirects by
/// hand.
pub fn send_outcome(status: u16) -> (outcome: SendOutcome)
    ensures
        outcome == send_outcome_of(status),
{
    if status == NOT_MODIFIED {
        SendOutcome::NotModified
    } else if 300 <= status && status < 400 {
        SendOutcome::Redirect
    } else if status == NOT_FOUND {
        SendOutcome::NotFound
    } else if 500 <= status && status < 600 {
        SendOutcome::StatusCode(status)
    } else {
        SendOutcome::Success
    }
}

/// What a reply with the status `status` means to someone who downloads a package,
/// if `reason` is what the status is commonly called.
pub open spec fn download_outcome_of(status: u16, reason: Option<Seq<char>>) -> DownloadOutcomeView {
    if status == NOT_FOUND {
        DownloadOutcomeView::NotFound
    } else if status == NOT_MODIFIED {
        DownloadOutcomeView::NotModified
    } else if 200 <= status < 300 {
        DownloadOutcomeView::Bytes
    } else {
        DownloadOutcomeView::Failed {
            status_code: Some(status),
            message: match reason {
                Some(reason) => reason,
                None => "unknown error"@,
            },
        }
    }
}

/// What `reason` says, if there is one.
pub open spec fn reason_view(reason: Option<&str>) -> Option<Seq<char>> {
    match reason {
        Some(reason) => Some(reason@),
        None => None,
    }
}

/// What a reply with the status `status` means to someone who downloads a package,
/// if `reason` is what the status is commonly called.
pub fn download_outcome_with(status: u16, reason: Option<&str>) -> (outcome: DownloadOutcome)
    ensures
        outcome@ == download_outcome_of(status, reason_view(reason)),
{
    if status == NOT_FOUND {
        DownloadOutcome::NotFound
    } else if status == NOT_MODIFIED {
        DownloadOutcome::NotModified
    } else if 200 <= status && status < 300 {
        DownloadOutcome::Bytes
    } else {
        let message = match reason {
            Some(reason) => reason.to_owned(),
            None => "unknown error".to_owned(),
        };
        DownloadOutcome::Failed(DownloadError { status_code: Some(status), message })
    }
}

/// What `reqwest::StatusCode::canonical_reason` calls the status `status`; `None` if
/// it has no name for it.
pub uninterp spec fn status_reason(status: u16) -> Option<Seq<char>>;

/// Calls `reqwest::StatusCode::canonical_reason`. Trusted: what a status is called
/// depends on its number alone.
#[verifier::external_body]
fn canonical_reason(status: u16) -> (reason: Option<&'static str>)
    ensures
        reason_view(reason) == status_reason(status),
{
    StatusCode::from_u16(status).ok()?.canonical_reason()
}

/// What a reply with the status `status` means to someone who downloads a package.
pub fn download_outcome(status: u16) -> (outcome: DownloadOutcome)
    ensures
        outcome@ == download_outcome_of(status, status_reason(status)),
{
    download_outcome_with(status, canonical_reason(status))
}

/// The two ways to read a status agree on a missing file, on one already known and
/// on a status of success; and where one of them sees the server fail, the other
/// reports that status as the reason of a failure.
pub proof fn law_outcomes_agree(status: u16, reason: Option<Seq<char>>)
    ensures
        send_outcome_of(status) == SendOutcome::NotFound <==> download_outcome_of(status, reason)
            == DownloadOutcomeView::NotFound,
        send_outcome_of(status) == SendOutcome::NotModified <==> download_outcome_of(status, reason)
            == DownloadOutcomeView::NotModified,
        download_outcome_of(status, reason) == DownloadOutcomeView::Bytes ==> send_outcome_of(
            status,
        ) == SendOutcome::Success,
        forall|failed: u16| #[trigger]
            send_outcome_of(status) == SendOutcome::StatusCode(failed) ==> failed == status && (
            download_outcome_of(status, reason) matches DownloadOutcomeView::Failed {
                status_code,
                ..
            } && status_code == Some(status)),
{
}

/// `reqwest::header::HeaderValue`: the value of a header.
#[verifier::external_type_specification]
#[verifier::external_body]
pub struct ExHeaderValue(HeaderValue);

/// `reqwest::header::HeaderMap`: the headers of a request or reply.
#[verifier::external_type_specification]
#[verifier::external_body]
#[verifier::reject_recursive_types(T)]
pub struct ExHeaderMap<T>(HeaderMap<T>);

/// What `headers` holds: under each name, in lower case, the values it was given, in
/// order.
pub uninterp spec fn header_values(headers: HeaderMap<HeaderValue>) -> Map<Seq<char>, Seq<Seq<u8>>>;

/// Whether `name` is the name of a header in lower case, made of letters and hyphens.
pub open spec fn is_header_name(name: Seq<char>) -> bool {
    &&& 0 < name.len() <= 64
    &&& forall|i: int| 0 <= i < name.len() ==> 'a' <= #[trigger] name[i] <= 'z' || name[i] == '-'
}

/// Whether `bytes` can be the value of a header: they hold no control characters but
/// tabs.
pub open spec fn is_header_value(bytes: Seq<u8>) -> bool {
    forall|i: int| 0 <= i < bytes.len() ==> (#[trigger] bytes[i] >= 32 && bytes[i] != 127)
        || bytes[i] == 9
}

/// Whether `bytes` hold visible ASCII characters, spaces and tabs only.
pub open spec fn is_visible(bytes: Seq<u8>) -> bool {
    forall|i: int| 0 <= i < bytes.len() ==> 32 <= #[trigger] bytes[i] < 127 || bytes[i] == 9
}

/// The text of which `bytes` are the ASCII codes.
pub open spec fn ascii_text(bytes: Seq<u8>) -> Seq<char> {
    Seq::new(bytes.len(), |i: int| bytes[i] as char)
}

/// No values under any name.
pub open spec fn no_values() -> Map<Seq<char>, Seq<Seq<u8>>> {
    Map::empty()
}

/// `values` with one more value under `name`.
pub open spec fn with_value(
    values: Map<Seq<char>, Seq<Seq<u8>>>,
    name: Seq<char>,
    value: Seq<u8>,
) -> Map<Seq<char>, Seq<Seq<u8>>> {
    let old_values = if values.contains_key(name) {
        values[name]
    } else {
        Seq::empty()
    };
    values.insert(name, old_values.push(value))
}

/// The text of the first value under `name`, if there is one and it is visible.
pub open spec fn text_of(
    values: Map<Seq<char>, Seq<Seq<u8>>>,
    name: Seq<char>,
) -> Option<Seq<char>> {
    if values.contains_key(name) && values[name].len() > 0 && is_visible(values[name][0]) {
        Some(ascii_text(values[name][0]))
    } else {
        None
    }
}

/// Calls `reqwest::header::HeaderMap::new`. Trusted: the new map holds nothing.
#[verifier::external_body]
fn no_headers() -> (headers: HeaderMap<HeaderValue>)
    ensures
        header_values(headers) == no_values(),
{
    HeaderMap::new()
}

/// Calls `reqwest::header::HeaderMap::append` with the bytes of `value`. Trusted: the
/// value comes last under `name`, the values under other names stay, and the result
/// tells whether there was one under `name` before.
#[verifier::external_body]
fn append_header(headers: &mut HeaderMap<HeaderValue>, name: &'static str, value: String) -> (known:
    bool)
    requires
        is_header_name(name@),
        is_header_value(vstd::utf8::encode_utf8(value@)),
        header_values(*old(headers)).dom().finite(),
        header_values(*old(headers)).dom().len() < 4096,
    ensures
        header_values(*final(headers)) == with_value(
            header_values(*old(headers)),
            name@,
            vstd::utf8::encode_utf8(value@),
        ),
        known == header_values(*old(headers)).contains_key(name@),
{
    headers.append(name, HeaderValue::try_from(value).unwrap())
}

/// Calls `reqwest::header::HeaderMap::get`, then `HeaderValue::to_str` on what it
/// finds. Trusted: that is the first value under `name`, and it has a text if its
/// bytes are visible.
#[verifier::external_body]
fn header_text(headers: &HeaderMap<HeaderValue>, name: &str) -> (text: Option<String>)
    requires
        is_header_name(name@),
    ensures
        crate::text::text_view(text) == text_of(header_values(*headers), name@),
{
    headers.get(name)?.to_str().ok().map(|text| text.to_string())
}

/// Whether `text` can be the value of a header.
pub fn can_be_header_value(text: &str) -> (yes: bool)
    ensures
        yes == is_header_value(vstd::utf8::encode_utf8(text@)),
{
    let bytes = text.as_bytes();
    let mut i: usize = 0;
    while i < bytes.len()
        invariant
            bytes@ == vstd::utf8::encode_utf8(text@),
            i <= bytes@.len(),
            forall|k: int| 0 <= k < i ==> (#[trigger] bytes@[k] >= 32 && bytes@[k] != 127)
                || bytes@[k] == 9,
        decreases bytes.len() - i,
    {
        if !((bytes[i] >= 32 && bytes[i] != 127) || bytes[i] == 9) {
            return false;
        }
        i += 1;
    }
    true
}

/// What a request for a package is to carry: the credentials `auth` and the tag
/// `etag` of the package already known, as far as there are any.
pub open spec fn request_values(
    auth: Option<Seq<char>>,
    etag: Option<Seq<char>>,
) -> Map<Seq<char>, Seq<Seq<u8>>> {
    let with_auth = match auth {
        Some(auth) => with_value(no_values(), "authorization"@, vstd::utf8::encode_utf8(auth)),
        None => no_values(),
    };
    match etag {
        Some(etag) => with_value(with_auth, "if-none-match"@, vstd::utf8::encode_utf8(etag)),
        None => with_auth,
    }
}

/// The headers of a request for a package: the credentials `auth` and the tag `etag`
/// of the package already known, as far as there are any.
pub fn request_headers(auth: Option<String>, etag: Option<String>) -> (headers: HeaderMap<
    HeaderValue,
>)
    requires
        auth matches Some(auth) ==> is_header_value(vstd::utf8::encode_utf8(auth@)),
        etag matches Some(etag) ==> is_header_value(vstd::utf8::encode_utf8(etag@)),
    ensures
        header_values(headers) == request_values(
            crate::text::text_view(auth),
            crate::text::text_view(etag),
        ),
{
    let mut headers = no_headers();
    proof {
        lemma_header_names();
    }
    if let Some(auth) = auth {
        append_header(&mut headers, "authorization", auth);
    }
    if let Some(etag) = etag {
        append_header(&mut headers, "if-none-match", etag);
    }
    headers
}

proof fn lemma_header_names()
    ensures
        is_header_name("authorization"@),
        is_header_name("if-none-match"@),
        is_header_name("etag"@),
        "authorization"@ != "if-none-match"@,
{
    reveal_strlit("authorization");
    reveal_strlit("if-none-match");
    reveal_strlit("etag");
    assert("authorization"@[0] != "if-none-match"@[0]);
}

/// The package in the body `bytes` of a reply with the headers `headers`.
pub fn bytes_response(headers: &HeaderMap<HeaderValue>, bytes: Vec<u8>) -> (response: BytesResponse)
    ensures
        response.bytes == bytes,
        crate::text::text_view(response.etag) == text_of(header_values(*headers), "etag"@),
{
    proof {
        lemma_header_names();
    }
    BytesResponse { etag: header_text(headers, "etag"), bytes }
}

/// A tag that was read out of the headers of a reply can be sent with the next
/// request, which then carries the same bytes.
pub proof fn law_etag_can_be_sent_back(
    reply: Map<Seq<char>, Seq<Seq<u8>>>,
    auth: Option<Seq<char>>,
    etag: Seq<char>,
)
    requires
        text_of(reply, "etag"@) == Some(etag),
    ensures
        is_header_value(vstd::utf8::encode_utf8(etag)),
        vstd::utf8::encode_utf8(etag) == reply["etag"@][0],
        request_values(auth, Some(etag))["if-none-match"@] == seq![reply["etag"@][0]],
        text_of(request_values(auth, Some(etag)), "if-none-match"@) == Some(etag),
{
    let bytes = reply["etag"@][0];
    assert(vstd::utf8::is_ascii_chars(etag));
    vstd::utf8::is_ascii_chars_encode_utf8(etag);
    assert(vstd::utf8::encode_utf8(etag) =~= bytes);
    lemma_header_names();
    assert(request_values(auth, Some(etag))["if-none-match"@] =~= seq![bytes]);
}

/// A request carries the credentials and the tag that it is made with, one value
/// each, and nothing else.
pub proof fn law_request_carries_what_it_is_given(auth: Option<Seq<char>>, etag: Option<Seq<char>>)
    ensures
        forall|name: Seq<char>| #[trigger]
            request_values(auth, etag).contains_key(name) <==> (auth is Some && name
                == "authorization"@) || (etag is Some && name == "if-none-match"@),
        auth matches Some(auth_text) ==> request_values(auth, etag)["authorization"@]
            == seq![vstd::utf8::encode_utf8(auth_text)],
        etag matches Some(etag_text) ==> request_values(auth, etag)["if-none-match"@]
            == seq![vstd::utf8::encode_utf8(etag_text)],
{
    lemma_header_names();
    let values = request_values(auth, etag);
    if let Some(auth_text) = auth {
        assert(values["authorization"@] =~= seq![vstd::utf8::encode_utf8(auth_text)]);
    }
    if let Some(etag_text) = etag {
        assert(values["if-none-match"@] =~= seq![vstd::utf8::encode_utf8(etag_text)]);
    }
}

/// A package is not found exactly if the status is 404, and is the one already known
/// exactly if it is 304. The body is the package exactly if the status is one of success,
/// from 200 to 299. Every other status is a failure that reports just this status, and
/// what it is called.
pub proof fn law_download_outcome_by_status(status: u16, reason: Option<Seq<char>>)
    ensures
        download_outcome_of(status, reason) is NotFound <==> status == 404,
        download_outcome_of(status, reason) is NotModified <==> status == 304,
        download_outcome_of(status, reason) is Bytes <==> 200 <= status <= 299,
        download_outcome_of(status, reason) matches DownloadOutcomeView::Failed {
            status_code,
            message,
        } ==> {
            &&& status_code == Some(status)
            &&& reason matches Some(reason) ==> message == reason
            &&& reason is None ==> message == "unknown error"@
        },
{
}

/// A reply tells that the file is the one already known exactly if its status is 304, and
/// that there is none exactly if it is 404. Any other status from 300 to 399 is a redirect,
/// one from 500 to 599 is reported as it is, and all the rest is success.
pub proof fn law_send_outcome_by_status(status: u16)
    ensures
        send_outcome_of(status) == SendOutcome::NotModified <==> status == 304,
        send_outcome_of(status) == SendOutcome::NotFound <==> status == 404,
        send_outcome_of(status) == SendOutcome::Redirect <==> 300 <= status <= 399 && status != 304,
        send_outcome_of(status) is StatusCode <==> 500 <= status <= 599,
        send_outcome_of(status) matches SendOutcome::StatusCode(failed) ==> failed == status,
        send_outcome_of(status) == SendOutcome::Success <==> status < 300 || (400 <= status <= 499
            && status != 404) || 600 <= status,
{
}

/// An outcome is known by what is said of it: which of the four it is, and of a failure
/// the status and the message.
pub proof fn law_outcome_tells_all(outcome: DownloadOutcome)
    ensures
        outcome@ is NotFound <==> outcome is NotFound,
        outcome@ is NotModified <==> outcome is NotModified,
        outcome@ is Bytes <==> outcome is Bytes,
        outcome matches DownloadOutcome::Failed(error) ==> outcome@ == (
        DownloadOutcomeView::Failed { status_code: error.status_code, message: error.message@ }),
{
}

/// What a status is called is handed on as it is.
pub proof fn law_reason_tells_all(reason: &str)
    ensures
        reason_view(Some(reason)) == Some(reason@),
        reason_view(None) is None,
{
}

/// Bytes can be the value of a header exactly if each of them can, and one byte can
/// exactly if it is a tab or no control character.
pub proof fn law_header_value_by_bytes(first: Seq<u8>, second: Seq<u8>, byte: u8)
    ensures
        is_header_value(Seq::empty()),
        is_header_value(first + second) <==> is_header_value(first) && is_header_value(second),
        is_header_value(seq![byte]) <==> byte == 9 || 32 <= byte <= 126 || 128 <= byte,
{
    let all = first + second;
    if is_header_value(all) {
        assert forall|i: int| 0 <= i < first.len() implies (#[trigger] first[i] >= 32 && first[i]
            != 127) || first[i] == 9 by {
            assert(all[i] == first[i]);
        }
        assert forall|i: int| 0 <= i < second.len() implies (#[trigger] second[i] >= 32
            && second[i] != 127) || second[i] == 9 by {
            assert(all[first.len() + i] == second[i]);
        }
    }
    if is_header_value(seq![byte]) {
        assert(seq![byte][0] == byte);
    }
}

/// The text of a header is that of the first of its values, character by character; it
/// has one exactly if that value holds nothing but visible characters, spaces and tabs.
pub proof fn law_header_text_is_the_first_value(
    values: Map<Seq<char>, Seq<Seq<u8>>>,
    name: Seq<char>,
)
    ensures
        text_of(values, name) is Some <==> values.contains_key(name) && values[name].len() > 0 && (
        forall|i: int|
            0 <= i < values[name][0].len() ==> #[trigger] values[name][0][i] == 9 || (32
                <= values[name][0][i] <= 126)),
        text_of(values, name) matches Some(text) ==> {
            &&& text.len() == values[name][0].len()
            &&& forall|i: int|
                0 <= i < text.len() ==> #[trigger] text[i] as int == values[name][0][i]
        },
{
}

} // verus!
