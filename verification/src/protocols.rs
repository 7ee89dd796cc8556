//! The six wire protocols as typed challenges.
//!
//! Every protocol fixes its payload and response types, so none can be
//! handed a payload meant for another.  A challenge is built for one host
//! and port, optionally carries a payload, and is exchanged once by a
//! transport; the exchange itself is I/O and lives with whoever implements
//! `Transport`.

use vstd::prelude::*;

use crate::checks::Kwargs;
use crate::table::Table;
use crate::text::second_token;
use vstd::string::StrSliceExecFns;

verus! {

/// One outbound challenge: the target and an optional typed payload.
pub struct Challenge<T> {
    pub host: String,
    pub port: u16,
    pub data: Option<T>,
}

/// The payload and response type of the bare-connect protocol.
pub type NoData = ();

/// What every protocol offers: construction for a target, and attaching a
/// payload (optional, overwrites any previous one; host and port stay).
/// The response type `V` is fixed by each implementor for its transport
/// exchange.
pub trait Protocol<T, V>: Sized {
    spec fn spec_host(&self) -> Seq<char>;

    spec fn spec_port(&self) -> u16;

    spec fn spec_data(&self) -> Option<T>;

    fn new(host: &str, port: u16) -> (s: Self)
        ensures
            s.spec_host() == host@,
            s.spec_port() == port,
            s.spec_data() is None,
    ;

    fn set_data(&mut self, data: T)
        ensures
            final(self).spec_host() == old(self).spec_host(),
            final(self).spec_port() == old(self).spec_port(),
    ;
}

/// Opens a TCP connection and closes it; no data is exchanged.
pub struct TcpConnect(pub Challenge<NoData>);

pub struct TcpConnectResponse(pub NoData);

impl Protocol<NoData, TcpConnectResponse> for TcpConnect {
    open spec fn spec_host(&self) -> Seq<char> {
        self.0.host@
    }

    open spec fn spec_port(&self) -> u16 {
        self.0.port
    }

    open spec fn spec_data(&self) -> Option<NoData> {
        self.0.data
    }

    fn new(host: &str, port: u16) -> (s: Self) {
        TcpConnect(Challenge { host: host.to_owned(), port, data: None })
    }

    /// The bare connect carries no payload; attaching is a no-op.
    fn set_data(&mut self, _data: NoData)
        ensures
            final(self).spec_data() == old(self).spec_data(),
    {
    }
}

/// Writes raw bytes over TCP and reads raw bytes back.
pub struct TcpRaw(pub Challenge<Vec<u8>>);

pub struct TcpRawResponse(pub Vec<u8>);

impl Protocol<Vec<u8>, TcpRawResponse> for TcpRaw {
    open spec fn spec_host(&self) -> Seq<char> {
        self.0.host@
    }

    open spec fn spec_port(&self) -> u16 {
        self.0.port
    }

    open spec fn spec_data(&self) -> Option<Vec<u8>> {
        self.0.data
    }

    fn new(host: &str, port: u16) -> (s: Self) {
        TcpRaw(Challenge { host: host.to_owned(), port, data: None })
    }

    fn set_data(&mut self, data: Vec<u8>)
        ensures
            final(self).spec_data() == Some(data),
    {
        self.0.data = Some(data);
    }
}

/// Writes text over TCP and reads text back, decoded lossily.
pub struct TcpText(pub Challenge<String>);

pub struct TcpTextResponse(pub String);

impl Protocol<String, TcpTextResponse> for TcpText {
    open spec fn spec_host(&self) -> Seq<char> {
        self.0.host@
    }

    open spec fn spec_port(&self) -> u16 {
        self.0.port
    }

    open spec fn spec_data(&self) -> Option<String> {
        self.0.data
    }

    fn new(host: &str, port: u16) -> (s: Self) {
        TcpText(Challenge { host: host.to_owned(), port, data: None })
    }

    fn set_data(&mut self, data: String)
        ensures
            final(self).spec_data() == Some(data),
    {
        self.0.data = Some(data);
    }
}

/// Sends one text datagram over UDP and waits for one reply datagram.
pub struct UdpText(pub Challenge<String>);

pub struct UdpTextResponse(pub String);

impl Protocol<String, UdpTextResponse> for UdpText {
    open spec fn spec_host(&self) -> Seq<char> {
        self.0.host@
    }

    open spec fn spec_port(&self) -> u16 {
        self.0.port
    }

    open spec fn spec_data(&self) -> Option<String> {
        self.0.data
    }

    fn new(host: &str, port: u16) -> (s: Self) {
        UdpText(Challenge { host: host.to_owned(), port, data: None })
    }

    fn set_data(&mut self, data: String)
        ensures
            final(self).spec_data() == Some(data),
    {
        self.0.data = Some(data);
    }
}

/// An HTTP status response; header capture and body capture are not
/// implemented, so the headers stay empty and the body is a fixed marker.
pub struct HttpResponse<T> {
    pub response_code: u16,
    pub headers: Kwargs,
    pub body: T,
}

/// Issues a GET over HTTP for the path named in the challenge text.
pub struct TcpHttp(pub Challenge<String>);

pub struct TcpHttpTextResponse(pub HttpResponse<String>);

impl Protocol<String, TcpHttpTextResponse> for TcpHttp {
    open spec fn spec_host(&self) -> Seq<char> {
        self.0.host@
    }

    open spec fn spec_port(&self) -> u16 {
        self.0.port
    }

    open spec fn spec_data(&self) -> Option<String> {
        self.0.data
    }

    fn new(host: &str, port: u16) -> (s: Self) {
        TcpHttp(Challenge { host: host.to_owned(), port, data: None })
    }

    fn set_data(&mut self, data: String)
        ensures
            final(self).spec_data() == Some(data),
    {
        self.0.data = Some(data);
    }
}

/// Issues a GET over HTTPS for the path named in the challenge text.
pub struct TcpHttps(pub Challenge<String>);

pub struct TcpHttpsTextResponse(pub HttpResponse<String>);

impl Protocol<String, TcpHttpsTextResponse> for TcpHttps {
    open spec fn spec_host(&self) -> Seq<char> {
        self.0.host@
    }

    open spec fn spec_port(&self) -> u16 {
        self.0.port
    }

    open spec fn spec_data(&self) -> Option<String> {
        self.0.data
    }

    fn new(host: &str, port: u16) -> (s: Self) {
        TcpHttps(Challenge { host: host.to_owned(), port, data: None })
    }

    fn set_data(&mut self, data: String)
        ensures
            final(self).spec_data() == Some(data),
    {
        self.0.data = Some(data);
    }
}

/// The bytes a raw exchange writes: the payload, or nothing when no
/// payload is attached.
pub open spec fn raw_payload_bytes(data: Option<Vec<u8>>) -> Seq<u8> {
    match data {
        Some(d) => d@,
        None => Seq::empty(),
    }
}

/// The bytes a text exchange writes: the payload encoded as UTF-8, or
/// nothing when no payload is attached.
pub open spec fn text_payload_bytes(data: Option<String>) -> Seq<u8> {
    match data {
        Some(d) => vstd::utf8::encode_utf8(d@),
        None => Seq::empty(),
    }
}

impl TcpRaw {
    /// The bytes this challenge puts on the wire.
    pub fn payload_bytes(&self) -> (r: Vec<u8>)
        ensures
            r@ == raw_payload_bytes(self.0.data),
    {
        match &self.0.data {
            Some(d) => crate::text::clone_bytes(d),
            None => Vec::new(),
        }
    }
}

impl TcpText {
    /// The bytes this challenge puts on the wire.
    pub fn payload_bytes(&self) -> (r: Vec<u8>)
        ensures
            r@ == text_payload_bytes(self.0.data),
    {
        match &self.0.data {
            Some(d) => d.as_str().as_bytes_vec(),
            None => Vec::new(),
        }
    }
}

impl UdpText {
    /// The bytes this challenge sends as one datagram.
    pub fn payload_bytes(&self) -> (r: Vec<u8>)
        ensures
            r@ == text_payload_bytes(self.0.data),
    {
        match &self.0.data {
            Some(d) => d.as_str().as_bytes_vec(),
            None => Vec::new(),
        }
    }
}

/// A transport failure: connect, write or read trouble, or a timeout,
/// reported by whatever performed the exchange.
pub struct TransportError {
    pub message: String,
}

/// The text that lossy UTF-8 decoding yields for a byte sequence: a
/// function of the bytes alone.
pub uninterp spec fn utf8_lossy(bytes: Seq<u8>) -> Seq<char>;

/// Relies on String::from_utf8_lossy: the decoding depends on the bytes
/// alone, and no bytes decode to no text.
#[verifier::external_body]
pub fn lossy_decode(bytes: &Vec<u8>) -> (r: String)
    ensures
        r@ == utf8_lossy(bytes@),
        bytes@.len() == 0 ==> r@.len() == 0,
{
    String::from_utf8_lossy(bytes.as_slice()).to_string()
}

impl TcpTextResponse {
    /// The text response carried by reply bytes, decoded lossily.
    pub fn from_bytes(bytes: &Vec<u8>) -> (r: TcpTextResponse)
        ensures
            r.0@ == utf8_lossy(bytes@),
    {
        TcpTextResponse(lossy_decode(bytes))
    }
}

impl UdpTextResponse {
    /// The text response carried by a reply datagram, decoded lossily.
    pub fn from_bytes(bytes: &Vec<u8>) -> (r: UdpTextResponse)
        ensures
            r.0@ == utf8_lossy(bytes@),
    {
        UdpTextResponse(lossy_decode(bytes))
    }
}

impl HttpResponse<String> {
    /// The response recorded for a status exchange: the code as received,
    /// no headers, and the fixed marker body.
    pub fn from_code(code: u16) -> (r: HttpResponse<String>)
        ensures
            r.response_code == code,
            r.headers@ == Seq::<(Seq<char>, String)>::empty(),
            r.body@ == "<not yet implemented>"@,
    {
        HttpResponse {
            response_code: code,
            headers: Table::new(),
            body: "<not yet implemented>".to_owned(),
        }
    }
}

impl TcpHttp {
    /// The path of the attached challenge text: its second
    /// whitespace-separated token (the first token names a verb that the
    /// exchange passes over in favour of GET).
    pub fn request_path(&self) -> (r: Option<String>)
        requires
            self.0.data is Some,
        ensures
            r matches Some(p) ==> second_token(self.0.data.unwrap()@) == Some(p@),
            r is None ==> second_token(self.0.data.unwrap()@) is None,
    {
        match &self.0.data {
            Some(d) => crate::text::second_token_of(d.as_str()),
            None => None,
        }
    }
}

impl TcpHttps {
    /// The path of the attached challenge text: its second
    /// whitespace-separated token, as for the HTTP challenge.
    pub fn request_path(&self) -> (r: Option<String>)
        requires
            self.0.data is Some,
        ensures
            r matches Some(p) ==> second_token(self.0.data.unwrap()@) == Some(p@),
            r is None ==> second_token(self.0.data.unwrap()@) is None,
    {
        match &self.0.data {
            Some(d) => crate::text::second_token_of(d.as_str()),
            None => None,
        }
    }
}

/// Performs the wire exchange of each protocol kind.  The real transport
/// lives with the I/O shell; tests supply canned ones.  Nothing is assumed
/// of an exchange's outcome: the engine states what holds whatever comes
/// back.
pub trait Transport {
    fn exchange_connect(&mut self, c: &TcpConnect) -> Result<TcpConnectResponse, TransportError>;

    fn exchange_raw(&mut self, c: &TcpRaw) -> Result<TcpRawResponse, TransportError>;

    fn exchange_text(&mut self, c: &TcpText) -> Result<TcpTextResponse, TransportError>;

    fn exchange_udp_text(&mut self, c: &UdpText) -> Result<UdpTextResponse, TransportError>;

    fn exchange_http(&mut self, c: &TcpHttp) -> Result<TcpHttpTextResponse, TransportError>;

    fn exchange_https(&mut self, c: &TcpHttps) -> Result<TcpHttpsTextResponse, TransportError>;
}

} // verus!
