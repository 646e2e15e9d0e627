//! Probe methods: the transport a probe uses (TCP or HTTP) and the HTTP verb
//! placed on the request line of an HTTP probe.

use vstd::prelude::*;

verus! {

/// The transport a probe attempt uses.
#[derive(Copy, Clone, PartialEq, Eq, Structural, Debug)]
pub enum PingMethod {
    Tcp,
    Http,
}

impl Default for PingMethod {
    fn default() -> (r: Self)
        ensures
            r == PingMethod::Tcp,
    {
        PingMethod::Tcp
    }
}

/// What a lowercased string selects: `"tcp"` selects TCP, anything else HTTP.
pub open spec fn spec_method_from(lowered: Seq<char>) -> PingMethod {
    if lowered == "tcp"@ {
        PingMethod::Tcp
    } else {
        PingMethod::Http
    }
}

/// The result of `str::to_lowercase`, which depends on the characters alone.
pub uninterp spec fn lower_of(s: Seq<char>) -> Seq<char>;

/// Relies on `str::to_lowercase`: maps each character to its Unicode
/// lowercase form, a function of the input characters alone.
#[verifier::external_body]
fn lowercase(s: &str) -> (r: String)
    ensures
        r@ == lower_of(s@),
{
    s.to_lowercase()
}

impl PingMethod {
    /// Selects the method a string names, case-insensitively: `"tcp"` gives
    /// TCP; every other string gives HTTP.
    pub fn from(value: &str) -> (r: Self)
        ensures
            r == spec_method_from(lower_of(value@)),
    {
        let lowered = lowercase(value);
        if lowered == String::from_str("tcp") {
            PingMethod::Tcp
        } else {
            PingMethod::Http
        }
    }
}

/// The verb on the request line of an HTTP probe.
#[derive(Copy, Clone, PartialEq, Eq, Structural, Debug)]
pub enum HttpMethod {
    GET,
    HEAD,
    POST,
    PUT,
    DELETE,
    CONNECT,
    OPTIONS,
    TRACE,
    PATCH,
}

impl Default for HttpMethod {
    fn default() -> (r: Self)
        ensures
            r == HttpMethod::GET,
    {
        HttpMethod::GET
    }
}

/// The verb's name as it appears on an HTTP request line.
pub open spec fn spec_http_method_str(m: HttpMethod) -> Seq<char> {
    match m {
        HttpMethod::GET => "GET"@,
        HttpMethod::HEAD => "HEAD"@,
        HttpMethod::POST => "POST"@,
        HttpMethod::PUT => "PUT"@,
        HttpMethod::DELETE => "DELETE"@,
        HttpMethod::CONNECT => "CONNECT"@,
        HttpMethod::OPTIONS => "OPTIONS"@,
        HttpMethod::TRACE => "TRACE"@,
        HttpMethod::PATCH => "PATCH"@,
    }
}

impl HttpMethod {
    /// The verb's name as it appears on an HTTP request line.
    pub fn as_str(&self) -> (r: &'static str)
        ensures
            r@ == spec_http_method_str(*self),
    {
        match self {
            HttpMethod::GET => "GET",
            HttpMethod::HEAD => "HEAD",
            HttpMethod::POST => "POST",
            HttpMethod::PUT => "PUT",
            HttpMethod::DELETE => "DELETE",
            HttpMethod::CONNECT => "CONNECT",
            HttpMethod::OPTIONS => "OPTIONS",
            HttpMethod::TRACE => "TRACE",
            HttpMethod::PATCH => "PATCH",
        }
    }
}

} // verus!
