//! The module adapter: both conversions between a check module's view of
//! the world and the protocols' typed payloads and responses.
//!
//! Toward the wire, an opaque challenge value becomes the protocol's
//! payload type: bytes for the raw protocol, text for the text and HTTP
//! protocols, nothing for the bare connect; a value of the wrong shape is
//! the module's fault, not a transport failure.  Back from the wire, each
//! typed response becomes a field mapping the module can read by name.

use vstd::prelude::*;

use crate::engine::PropertyError;
use crate::protocols::{
    HttpResponse, TcpConnect, TcpConnectResponse, TcpHttp, TcpHttpTextResponse, TcpHttps,
    TcpHttpsTextResponse, TcpRaw, TcpRawResponse, TcpText, TcpTextResponse, UdpText,
    UdpTextResponse,
};
use crate::table::{spec_lookup, Table};

verus! {

/// The opaque challenge value a module hands over: bytes or text.
pub enum ChallengeValue {
    Bytes(Vec<u8>),
    Text(String),
}

/// One value of a response's field mapping.
#[derive(PartialEq, Eq)]
pub enum FieldValue {
    Text(String),
    Bytes(Vec<u8>),
    Number(u16),
    Null,
}

/// The field mapping a module reads a response through.
pub type Fields = Table<FieldValue>;

/// What converting a module challenge for the raw protocol yields: bytes
/// pass through, no challenge stays none, text is the module's fault.
pub open spec fn spec_raw_to_data(c: Option<ChallengeValue>) -> Result<
    Option<Vec<u8>>,
    PropertyError,
> {
    match c {
        None => Ok(None),
        Some(ChallengeValue::Bytes(b)) => Ok(Some(b)),
        Some(ChallengeValue::Text(_)) => Err(PropertyError::Unclassified),
    }
}

/// What converting a module challenge for a text-payload protocol yields:
/// text passes through, no challenge stays none, bytes are the module's
/// fault.
pub open spec fn spec_text_to_data(c: Option<ChallengeValue>) -> Result<
    Option<String>,
    PropertyError,
> {
    match c {
        None => Ok(None),
        Some(ChallengeValue::Text(s)) => Ok(Some(s)),
        Some(ChallengeValue::Bytes(_)) => Err(PropertyError::Unclassified),
    }
}

impl TcpConnect {
    /// The bare connect takes no payload, whatever the module hands over.
    pub fn to_data(c: Option<ChallengeValue>) -> (r: Option<crate::protocols::NoData>)
        ensures
            r is None,
    {
        let _ = c;
        None
    }
}

impl TcpRaw {
    /// The raw payload of a module challenge.
    pub fn to_data(c: Option<ChallengeValue>) -> (r: Result<Option<Vec<u8>>, PropertyError>)
        ensures
            r == spec_raw_to_data(c),
    {
        match c {
            None => Ok(None),
            Some(ChallengeValue::Bytes(b)) => Ok(Some(b)),
            Some(ChallengeValue::Text(_)) => Err(PropertyError::Unclassified),
        }
    }
}

impl TcpText {
    /// The text payload of a module challenge.
    pub fn to_data(c: Option<ChallengeValue>) -> (r: Result<Option<String>, PropertyError>)
        ensures
            r == spec_text_to_data(c),
    {
        match c {
            None => Ok(None),
            Some(ChallengeValue::Text(s)) => Ok(Some(s)),
            Some(ChallengeValue::Bytes(_)) => Err(PropertyError::Unclassified),
        }
    }
}

impl UdpText {
    /// The text payload of a module challenge.
    pub fn to_data(c: Option<ChallengeValue>) -> (r: Result<Option<String>, PropertyError>)
        ensures
            r == spec_text_to_data(c),
    {
        match c {
            None => Ok(None),
            Some(ChallengeValue::Text(s)) => Ok(Some(s)),
            Some(ChallengeValue::Bytes(_)) => Err(PropertyError::Unclassified),
        }
    }
}

impl TcpHttp {
    /// The challenge text of a module challenge.
    pub fn to_data(c: Option<ChallengeValue>) -> (r: Result<Option<String>, PropertyError>)
        ensures
            r == spec_text_to_data(c),
    {
        match c {
            None => Ok(None),
            Some(ChallengeValue::Text(s)) => Ok(Some(s)),
            Some(ChallengeValue::Bytes(_)) => Err(PropertyError::Unclassified),
        }
    }
}

impl TcpHttps {
    /// The challenge text of a module challenge.
    pub fn to_data(c: Option<ChallengeValue>) -> (r: Result<Option<String>, PropertyError>)
        ensures
            r == spec_text_to_data(c),
    {
        match c {
            None => Ok(None),
            Some(ChallengeValue::Text(s)) => Ok(Some(s)),
            Some(ChallengeValue::Bytes(_)) => Err(PropertyError::Unclassified),
        }
    }
}

/// The field mapping of a bare-connect response: no fields.
pub open spec fn spec_connect_to_dict(r: TcpConnectResponse) -> Seq<(Seq<char>, FieldValue)> {
    Seq::empty()
}

/// The field mapping of a raw response: the bytes under `response`.
pub open spec fn spec_raw_to_dict(r: TcpRawResponse) -> Seq<(Seq<char>, FieldValue)> {
    seq![("response"@, FieldValue::Bytes(r.0))]
}

/// The field mapping of a TCP text response: the text under `response`.
pub open spec fn spec_text_to_dict(r: TcpTextResponse) -> Seq<(Seq<char>, FieldValue)> {
    seq![("response"@, FieldValue::Text(r.0))]
}

/// The field mapping of a UDP text response: the text under `response`.
pub open spec fn spec_udp_text_to_dict(r: UdpTextResponse) -> Seq<(Seq<char>, FieldValue)> {
    seq![("response"@, FieldValue::Text(r.0))]
}

/// The field mapping of an HTTP or HTTPS response: the status code under
/// `response_code`, unimplemented header capture under `headers`, and the
/// body marker under `body`.
pub open spec fn spec_http_to_dict(r: HttpResponse<String>) -> Seq<(Seq<char>, FieldValue)> {
    seq![
        ("response_code"@, FieldValue::Number(r.response_code)),
        ("headers"@, FieldValue::Null),
        ("body"@, FieldValue::Text(r.body)),
    ]
}

impl TcpConnectResponse {
    pub fn to_dict(self) -> (r: Fields)
        ensures
            r@ == spec_connect_to_dict(self),
    {
        let t: Fields = Table::new();
        proof {
            assert(t@ =~= spec_connect_to_dict(self));
        }
        t
    }
}

impl TcpRawResponse {
    pub fn to_dict(self) -> (r: Fields)
        ensures
            r@ == spec_raw_to_dict(self),
    {
        let ghost s = self;
        let mut t: Fields = Table::new();
        t.push_entry("response".to_owned(), FieldValue::Bytes(self.0));
        proof {
            assert(t@ =~= spec_raw_to_dict(s));
        }
        t
    }
}

impl TcpTextResponse {
    pub fn to_dict(self) -> (r: Fields)
        ensures
            r@ == spec_text_to_dict(self),
    {
        let ghost s = self;
        let mut t: Fields = Table::new();
        t.push_entry("response".to_owned(), FieldValue::Text(self.0));
        proof {
            assert(t@ =~= spec_text_to_dict(s));
        }
        t
    }
}

impl UdpTextResponse {
    pub fn to_dict(self) -> (r: Fields)
        ensures
            r@ == spec_udp_text_to_dict(self),
    {
        let ghost s = self;
        let mut t: Fields = Table::new();
        t.push_entry("response".to_owned(), FieldValue::Text(self.0));
        proof {
            assert(t@ =~= spec_udp_text_to_dict(s));
        }
        t
    }
}

impl TcpHttpTextResponse {
    pub fn to_dict(self) -> (r: Fields)
        ensures
            r@ == spec_http_to_dict(self.0),
    {
        let ghost s = self;
        let TcpHttpTextResponse(response) = self;
        let mut t: Fields = Table::new();
        t.push_entry("response_code".to_owned(), FieldValue::Number(response.response_code));
        t.push_entry("headers".to_owned(), FieldValue::Null);
        t.push_entry("body".to_owned(), FieldValue::Text(response.body));
        proof {
            assert(t@ =~= spec_http_to_dict(s.0));
        }
        t
    }
}

impl TcpHttpsTextResponse {
    pub fn to_dict(self) -> (r: Fields)
        ensures
            r@ == spec_http_to_dict(self.0),
    {
        let ghost s = self;
        let TcpHttpsTextResponse(response) = self;
        let mut t: Fields = Table::new();
        t.push_entry("response_code".to_owned(), FieldValue::Number(response.response_code));
        t.push_entry("headers".to_owned(), FieldValue::Null);
        t.push_entry("body".to_owned(), FieldValue::Text(response.body));
        proof {
            assert(t@ =~= spec_http_to_dict(s.0));
        }
        t
    }
}

/// Law: for the text protocol the adapter is lossless in both directions.
/// A text challenge passes to the payload unchanged, and the `response`
/// field of a text response's mapping holds exactly the text the response
/// carries; so one exchange preserves the response's content from the wire
/// (after lossy UTF-8 decoding) to the module's verdict.
pub proof fn lemma_text_round_trip(challenge: String, response: TcpTextResponse)
    ensures
        spec_text_to_data(Some(ChallengeValue::Text(challenge))) matches Ok(d) && d == Some(
            challenge,
        ),
        spec_lookup(spec_text_to_dict(response), "response"@) == Some(
            FieldValue::Text(response.0),
        ),
{
}

} // verus!
