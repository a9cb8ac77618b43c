//! Classification of one HTTP fetch.
//!
//! The caller performs the GET and hands over the raw outcome as plain
//! values; the functions here decide whether the exchange produced a usable
//! resource, and extract the body bytes and the optional MIME type exactly as
//! the archive will store them.

use vstd::prelude::*;
use vstd::utf8::{decode_utf8, valid_utf8};

verus! {

/// Why a fetch produced no usable resource.
#[derive(Clone, Copy, PartialEq, Eq, Structural, Debug)]
pub enum FetchError {
    /// The request never completed: DNS, connection or TLS failure.
    Transport,
    /// The server answered, but with a status outside the 2xx range.
    HttpStatus,
    /// The response body could not be drained.
    BodyRead,
}

/// The raw outcome of one HTTP GET, reduced to plain values by the caller.
pub enum RawFetch {
    /// The exchange failed before any response arrived.
    Failed,
    /// A response arrived: its status code, the raw bytes of its
    /// `Content-Type` header when one was present, and the body bytes when
    /// they could be read.
    Response { status: u16, content_type: Option<Vec<u8>>, body: Option<Vec<u8>> },
}

/// A successfully fetched resource, ready to be archived.
pub struct FetchedResource {
    /// The URL the request was made for.
    pub url: String,
    /// The response body, byte for byte.
    pub bytes: Vec<u8>,
    /// The MIME type the server supplied, when its header value was valid
    /// UTF-8 text.
    pub content_type: Option<String>,
}

/// The mathematical content of a fetched resource.
pub ghost struct ResourceModel {
    pub url: Seq<char>,
    pub bytes: Seq<u8>,
    pub content_type: Option<Seq<char>>,
}

impl View for FetchedResource {
    type V = ResourceModel;

    open spec fn view(&self) -> ResourceModel {
        ResourceModel {
            url: self.url@,
            bytes: self.bytes@,
            content_type: self.content_type.deep_view(),
        }
    }
}

/// The MIME type recorded for a response: the decoded `Content-Type` value
/// when the header is present and its bytes are valid UTF-8 text, absent
/// otherwise.
pub open spec fn mime_spec(header: Option<Vec<u8>>) -> Option<Seq<char>> {
    match header {
        Some(b) => if valid_utf8(b@) {
            Some(decode_utf8(b@))
        } else {
            None
        },
        None => None,
    }
}

/// How one raw outcome classifies: the errors in the order they are ruled
/// out, then the resource with its body and its recorded MIME type.
pub open spec fn classify_spec(url: Seq<char>, outcome: RawFetch) -> Result<
    ResourceModel,
    FetchError,
> {
    match outcome {
        RawFetch::Failed => Err(FetchError::Transport),
        RawFetch::Response { status, content_type, body } => if !(200 <= status && status < 300) {
            Err(FetchError::HttpStatus)
        } else {
            match body {
                None => Err(FetchError::BodyRead),
                Some(b) => Ok(
                    ResourceModel { url: url, bytes: b@, content_type: mime_spec(content_type) },
                ),
            }
        },
    }
}

/// A classification result, seen mathematically.
pub open spec fn classified_view(r: Result<FetchedResource, FetchError>) -> Result<
    ResourceModel,
    FetchError,
> {
    match r {
        Ok(res) => Ok(res@),
        Err(e) => Err(e),
    }
}

/// Relies on `String::from_utf8`: it succeeds exactly on valid UTF-8 input,
/// and the string it returns holds the scalar values the bytes encode.
#[verifier::external_body]
fn utf8_string(b: &Vec<u8>) -> (r: Option<String>)
    ensures
        r is Some <==> valid_utf8(b@),
        r matches Some(s) ==> s@ == decode_utf8(b@),
{
    match String::from_utf8(b.clone()) {
        Ok(s) => Some(s),
        Err(_) => None,
    }
}

/// Reads a raw header value as text: the decoded string when the bytes are
/// valid UTF-8, absent otherwise.
pub fn header_value_text(b: &Vec<u8>) -> (r: Option<String>)
    ensures
        r.deep_view() == (if valid_utf8(b@) {
            Some(decode_utf8(b@))
        } else {
            None::<Seq<char>>
        }),
{
    utf8_string(b)
}

/// Classifies one raw fetch outcome exactly as `classify_spec` says: a
/// transport failure, a non-2xx status and an unreadable body are the three
/// errors, and a success keeps the body verbatim together with the MIME type
/// the header supplied.
pub fn classify_fetch(url: String, outcome: RawFetch) -> (r: Result<FetchedResource, FetchError>)
    ensures
        classified_view(r) == classify_spec(url@, outcome),
{
    match outcome {
        RawFetch::Failed => Err(FetchError::Transport),
        RawFetch::Response { status, content_type, body } => {
            if status < 200 || status >= 300 {
                return Err(FetchError::HttpStatus);
            }
            let mime = match &content_type {
                Some(raw) => header_value_text(raw),
                None => None,
            };
            match body {
                None => Err(FetchError::BodyRead),
                Some(bytes) => Ok(FetchedResource { url, bytes, content_type: mime }),
            }
        },
    }
}

} // verus!
