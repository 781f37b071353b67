//! What a fetch comes to: the result value that the fetch engine hands to
//! the completion bridge. The request itself is sent elsewhere; this
//! module takes what came back and makes the result of it.

use vstd::prelude::*;
use crate::failure::Failure;
use crate::failure::FailureKind;
use crate::failure::FailureView;
use crate::failure::is_diagnostic;
use crate::failure::spec_diagnostic;

verus! {

/// The outcome of one fetch.
#[derive(Debug)]
pub enum FetchResult {
    /// The whole body, its length in bytes, and the content type where the
    /// gateway named one.
    Success { body: Vec<u8>, length: usize, content_type: Option<String> },
    /// Why there is no body.
    Failure(Failure),
}

/// The mathematical value of a `FetchResult`.
pub enum FetchResultView {
    Success { body: Seq<u8>, length: nat, content_type: Option<Seq<char>> },
    Failure(FailureView),
}

impl View for FetchResult {
    type V = FetchResultView;

    open spec fn view(&self) -> FetchResultView {
        match self {
            FetchResult::Success { body, length, content_type } => FetchResultView::Success {
                body: body@,
                length: *length as nat,
                content_type: match content_type {
                    Some(t) => Some(t@),
                    None => None,
                },
            },
            FetchResult::Failure(f) => FetchResultView::Failure(f@),
        }
    }
}

impl FetchResultView {
    /// The length of a success is that of its body.
    pub open spec fn wf(self) -> bool {
        self matches FetchResultView::Success { body, length, .. } ==> length == body.len()
    }
}

/// A byte that a header value may show as text: printable ASCII, or a tab.
pub open spec fn is_visible_ascii(b: u8) -> bool {
    (32 <= b && b < 127) || b == 9
}

/// Every byte of `raw` is visible ASCII.
pub open spec fn all_visible_ascii(raw: Seq<u8>) -> bool {
    forall|i: int| 0 <= i < raw.len() ==> is_visible_ascii(#[trigger] raw[i])
}

/// The characters of a value of ASCII bytes.
pub open spec fn spec_ascii_text(raw: Seq<u8>) -> Seq<char> {
    Seq::new(raw.len(), |i: int| raw[i] as char)
}

/// The text of a header value: its characters where all of its bytes are
/// visible ASCII, and nothing where one is not.
pub open spec fn spec_header_text(raw: Seq<u8>) -> Option<Seq<char>> {
    if all_visible_ascii(raw) {
        Some(spec_ascii_text(raw))
    } else {
        None
    }
}

/// The content type of a response: the text of its `content-type` header,
/// absent where the header is absent or is no text.
pub open spec fn spec_content_type(header: Option<Seq<u8>>) -> Option<Seq<char>> {
    match header {
        Some(raw) => spec_header_text(raw),
        None => None,
    }
}

/// The result of a fetch that brought a whole body.
pub open spec fn spec_success(body: Seq<u8>, header: Option<Seq<u8>>) -> FetchResultView {
    FetchResultView::Success {
        body,
        length: body.len(),
        content_type: spec_content_type(header),
    }
}

/// `reqwest::header::HeaderValue::from_bytes` and `to_str`: a value is
/// text exactly where each of its bytes is visible ASCII (from 32 to 126,
/// or a tab), and the text then holds those bytes as characters.
#[verifier::external_body]
fn header_value_text(raw: &[u8]) -> (r: Option<String>)
    ensures
        r is Some <==> all_visible_ascii(raw@),
        r matches Some(s) ==> s@ == spec_ascii_text(raw@),
{
    match reqwest::header::HeaderValue::from_bytes(raw) {
        Ok(value) => match value.to_str() {
            Ok(text) => Some(text.to_string()),
            Err(_) => None,
        },
        Err(_) => None,
    }
}

/// The content type that a response names in its `content-type` header.
pub fn content_type_of(header: Option<&[u8]>) -> (r: Option<String>)
    ensures
        r is Some <==> spec_content_type(view_of_header(header)) is Some,
        r matches Some(t) ==> spec_content_type(view_of_header(header)) == Some(t@),
{
    match header {
        Some(raw) => header_value_text(raw),
        None => None,
    }
}

/// The bytes of a header, where there is one.
pub open spec fn view_of_header(header: Option<&[u8]>) -> Option<Seq<u8>> {
    match header {
        Some(raw) => Some(raw@),
        None => None,
    }
}

impl FetchResult {
    /// The result of a fetch that brought the whole body `body`, with the
    /// raw value of the response's `content-type` header where it had one.
    pub fn success(body: Vec<u8>, content_type_header: Option<&[u8]>) -> (r: FetchResult)
        ensures
            r@ == spec_success(body@, view_of_header(content_type_header)),
            r@.wf(),
    {
        let length = body.len();
        let content_type = content_type_of(content_type_header);
        FetchResult::Success { body, length, content_type }
    }

    /// The result of a fetch that broke off: a transport failure that
    /// carries the description of its cause.
    pub fn transport_failure(shown: &str, debugged: &str) -> (r: FetchResult)
        ensures
            r@ == FetchResultView::Failure(
                FailureView {
                    kind: FailureKind::Transport,
                    detail: spec_diagnostic(shown@, debugged@),
                },
            ),
            r@ matches FetchResultView::Failure(f) && is_diagnostic(f.detail) && f.detail.len() > 0,
            r@.wf(),
    {
        FetchResult::Failure(Failure::describe(FailureKind::Transport, shown, debugged))
    }
}

} // verus!
