//! The admission gate: what the cross-origin layer in front of the proxy is
//! set up with.

use vstd::prelude::*;
use crate::ipv4::{is_loopback, Ipv4Addr};
use crate::origin::{
    header_text, origin_allowed, origin_permitted, origin_text_allowed, url_parts, PartsView,
};

verus! {

/// The origin policy of a running service.
#[derive(Debug, Clone)]
pub struct OriginPolicy {
    /// The public address of the service, whose origin is always admitted.
    pub public_url: Option<String>,
    /// The machine's own addresses, found when the service started.
    pub local_ips: Vec<Ipv4Addr>,
    /// Whether every private IPv4 address is admitted.
    pub allow_private: bool,
}

impl OriginPolicy {
    /// The parts of the public address, where there is one and it is a URL.
    pub open spec fn public_parts(&self) -> Option<PartsView> {
        match self.public_url {
            Some(p) => url_parts(p@),
            None => None,
        }
    }

    /// A policy of the given public address, own addresses and switch.
    pub fn new(public_url: Option<String>, local_ips: Vec<Ipv4Addr>, allow_private: bool) -> (p:
        Self)
        ensures
            p.public_url == public_url,
            p.local_ips == local_ips,
            p.allow_private == allow_private,
    {
        OriginPolicy { public_url, local_ips, allow_private }
    }

    /// Decides whether the origin in a header value may call the service.
    pub fn allowed_header(&self, origin: &[u8]) -> (r: bool)
        ensures
            r == match header_text(origin@) {
                Some(text) => origin_permitted(
                    url_parts(text),
                    self.public_parts(),
                    self.local_ips@,
                    self.allow_private,
                ),
                None => false,
            },
    {
        let public: Option<&str> = match &self.public_url {
            Some(p) => Some(p.as_str()),
            None => None,
        };
        origin_allowed(origin, public, self.local_ips.as_slice(), self.allow_private)
    }

    /// Decides whether an origin may call the service.
    pub fn allowed(&self, origin: &str) -> (r: bool)
        ensures
            r == origin_permitted(
                url_parts(origin@),
                self.public_parts(),
                self.local_ips@,
                self.allow_private,
            ),
    {
        let public: Option<&str> = match &self.public_url {
            Some(p) => Some(p.as_str()),
            None => None,
        };
        origin_text_allowed(origin, public, self.local_ips.as_slice(), self.allow_private)
    }
}

/// The addresses that count as the machine's own, given the address that
/// the system would send from, where one was found: that address, unless it
/// is a loopback address.
pub open spec fn outward_addresses(found: Option<Ipv4Addr>) -> Seq<Ipv4Addr> {
    match found {
        Some(ip) if !is_loopback(ip) => seq![ip],
        _ => Seq::<Ipv4Addr>::empty(),
    }
}

/// Collects the machine's own addresses from what the discovery found.
pub fn detect_local_ips(found: Option<Ipv4Addr>) -> (ips: Vec<Ipv4Addr>)
    ensures
        ips@ == outward_addresses(found),
{
    let mut ips: Vec<Ipv4Addr> = Vec::new();
    match found {
        Some(ip) => {
            if !ip.is_loopback() {
                ips.push(ip);
                assert(ips@ =~= seq![ip]);
            }
        },
        None => {},
    }
    ips
}

/// What the cross-origin layer allows besides the origins.
#[derive(Debug, Clone)]
pub struct CorsSettings {
    pub allowed_methods: Vec<&'static str>,
    pub allowed_headers: Vec<&'static str>,
    pub max_age_secs: u64,
    pub allow_credentials: bool,
}

/// The texts of a list of names.
pub open spec fn texts(items: Seq<&'static str>) -> Seq<Seq<char>> {
    Seq::new(items.len(), |i: int| items[i]@)
}

/// The methods that a cross-origin request may use.
pub open spec fn cors_methods() -> Seq<Seq<char>> {
    seq!["GET"@, "POST"@, "PUT"@, "PATCH"@, "DELETE"@, "OPTIONS"@]
}

/// The request headers that a cross-origin request may carry.
pub open spec fn cors_headers() -> Seq<Seq<char>> {
    seq!["authorization"@, "content-type"@, "x-api-key"@, "x-requested-with"@]
}

/// The settings of the cross-origin layer: six methods, four request
/// headers, preflights good for an hour, and no credentials.
pub fn cors_settings() -> (s: CorsSettings)
    ensures
        texts(s.allowed_methods@) == cors_methods(),
        texts(s.allowed_headers@) == cors_headers(),
        s.max_age_secs == 3600,
        !s.allow_credentials,
{
    let mut methods: Vec<&'static str> = Vec::new();
    methods.push("GET");
    methods.push("POST");
    methods.push("PUT");
    methods.push("PATCH");
    methods.push("DELETE");
    methods.push("OPTIONS");
    let mut headers: Vec<&'static str> = Vec::new();
    headers.push("authorization");
    headers.push("content-type");
    headers.push("x-api-key");
    headers.push("x-requested-with");
    assert(texts(methods@) =~= cors_methods());
    assert(texts(headers@) =~= cors_headers());
    CorsSettings {
        allowed_methods: methods,
        allowed_headers: headers,
        max_age_secs: 3600,
        allow_credentials: false,
    }
}

} // verus!
