//! What the library asks of the HTTP client's crates, on plain values.

use vstd::prelude::*;

verus! {

/// The URL that `reqwest::Url::join` makes of a base URL and a reference, both and
/// the result in their textual form; `None` where the base is no absolute URL or
/// the two cannot be joined.
pub uninterp spec fn url_join(base: Seq<char>, reference: Seq<char>) -> Option<Seq<char>>;

/// A text by its characters, where there is one.
pub open spec fn text_view(text: Option<String>) -> Option<Seq<char>> {
    match text {
        Some(t) => Some(t@),
        None => None,
    }
}

/// The status codes that an HTTP response can carry.
pub open spec fn is_status_code(code: u16) -> bool {
    100 <= code < 1000
}

/// The status codes that report success.
pub open spec fn is_success_code(code: u16) -> bool {
    200 <= code < 300
}

/// Calls `reqwest::Url::join` on `base`, read with `reqwest::Url::parse`.
///
/// Trusted: the result depends on the two texts alone.
#[verifier::external_body]
pub(crate) fn join_url(base: &str, reference: &str) -> (r: Option<String>)
    ensures
        text_view(r) == url_join(base@, reference@),
{
    match reqwest::Url::parse(base) {
        Ok(url) => match url.join(reference) {
            Ok(joined) => Some(joined.as_str().to_string()),
            Err(_) => None,
        },
        Err(_) => None,
    }
}

/// Calls `reqwest::StatusCode::is_success`.
///
/// Trusted: it holds of the codes from 200 to 299. A code that `StatusCode` cannot
/// hold is left out.
#[verifier::external_body]
pub(crate) fn is_success_status(code: u16) -> (r: bool)
    requires
        is_status_code(code),
    ensures
        r == is_success_code(code),
{
    reqwest::StatusCode::from_u16(code).unwrap().is_success()
}

} // verus!
