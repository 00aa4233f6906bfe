//! The origin policy: which browser origins may call the service.
//!
//! An origin is admitted when it is the configured public origin, when its
//! host is one of the machine's own addresses, when it is a loopback host,
//! or, where the operator allows it, when its host is a private IPv4
//! address. Everything else is turned away.

use vstd::prelude::*;
use vstd::string::StringSliceAdditionalSpecFns;
use crate::ipv4::{contains_ip, ipv4_of_text, is_loopback, is_private, parse_ipv4, Ipv4Addr};
use crate::text::{
    ascii_bytes, ascii_of, bytes_equal, bytes_equal_ignoring_case, same_ignoring_case,
};

verus! {

/// What the policy reads of a URL: its scheme, its host where it has one,
/// and its port, explicit or the scheme's default.
#[derive(Debug, PartialEq, Eq)]
pub struct UrlParts {
    pub scheme: Vec<u8>,
    pub host: Option<Vec<u8>>,
    pub port: Option<u16>,
}

/// The parts of a URL as plain values: scheme, host and port.
pub type PartsView = (Seq<u8>, Option<Seq<u8>>, Option<u16>);

impl View for UrlParts {
    type V = PartsView;

    open spec fn view(&self) -> PartsView {
        (
            self.scheme@,
            match self.host {
                Some(h) => Some(h@),
                None => None,
            },
            self.port,
        )
    }
}

/// The parts of a URL that was parsed, if it was.
pub open spec fn parts_view(p: Option<UrlParts>) -> Option<PartsView> {
    match p {
        Some(u) => Some(u@),
        None => None,
    }
}

/// The parts of the URL that a text writes, or `None` where the text is no
/// absolute URL. The URL parser decides this; nothing here says how.
pub uninterp spec fn url_parts(input: Seq<char>) -> Option<PartsView>;

/// Parses a text with `url::Url::parse` and hands out what `scheme`,
/// `host_str` and `port_or_known_default` return for the URL. Not proved:
/// that the result is the function of the text named `url_parts`.
#[verifier::external_body]
fn parse_url(input: &str) -> (r: Option<UrlParts>)
    ensures
        parts_view(r) == url_parts(input@),
{
    match url::Url::parse(input) {
        Ok(u) => Some(
            UrlParts {
                scheme: u.scheme().as_bytes().to_vec(),
                host: match u.host_str() {
                    Some(h) => Some(h.as_bytes().to_vec()),
                    None => None,
                },
                port: u.port_or_known_default(),
            },
        ),
        Err(_) => None,
    }
}

/// A host that is the name `localhost` in any casing, or the IPv6 loopback
/// address with or without brackets.
pub open spec fn is_loopback_name(host: Seq<u8>) -> bool {
    ||| same_ignoring_case(host, ascii_bytes("localhost"@))
    ||| host == ascii_bytes("[::1]"@)
    ||| host == ascii_bytes("::1"@)
}

/// A host that names the machine itself: a loopback name, or an IPv4
/// address of the loopback block 127/8.
pub open spec fn is_loopback_host(host: Seq<u8>) -> bool {
    ||| is_loopback_name(host)
    ||| (ipv4_of_text(host) matches Some(ip) && is_loopback(ip))
}

/// A host that is one of the machine's own IPv4 addresses.
pub open spec fn is_local_host(host: Seq<u8>, local_ips: Seq<Ipv4Addr>) -> bool {
    match ipv4_of_text(host) {
        Some(ip) => local_ips.contains(ip),
        None => false,
    }
}

/// A host that is a private IPv4 address.
pub open spec fn is_private_host(host: Seq<u8>) -> bool {
    match ipv4_of_text(host) {
        Some(ip) => is_private(ip),
        None => false,
    }
}

/// An origin with the scheme, host and port of the public origin.
pub open spec fn matches_public(
    scheme: Seq<u8>,
    host: Seq<u8>,
    port: Option<u16>,
    public: Option<PartsView>,
) -> bool {
    match public {
        Some(p) => p.0 == scheme && p.1 == Some(host) && p.2 == port,
        None => false,
    }
}

/// The policy. An origin that is no URL, or a URL without a host, is
/// denied; the port counts for the public origin only.
pub open spec fn origin_permitted(
    origin: Option<PartsView>,
    public: Option<PartsView>,
    local_ips: Seq<Ipv4Addr>,
    allow_private: bool,
) -> bool {
    match origin {
        Some((scheme, Some(host), port)) => {
            ||| matches_public(scheme, host, port, public)
            ||| is_local_host(host, local_ips)
            ||| is_loopback_host(host)
            ||| (allow_private && is_private_host(host))
        },
        _ => false,
    }
}

fn same_port(a: Option<u16>, b: Option<u16>) -> (r: bool)
    ensures
        r == (a == b),
{
    match (a, b) {
        (Some(x), Some(y)) => x == y,
        (None, None) => true,
        _ => false,
    }
}

fn public_matches(scheme: &[u8], host: &[u8], port: Option<u16>, public: &Option<UrlParts>) -> (r:
    bool)
    ensures
        r == matches_public(scheme@, host@, port, parts_view(*public)),
{
    match public {
        Some(p) => {
            let same_host = match &p.host {
                Some(h) => bytes_equal(h.as_slice(), host),
                None => false,
            };
            bytes_equal(p.scheme.as_slice(), scheme) && same_host && same_port(p.port, port)
        },
        None => false,
    }
}

/// Tells whether a host names the machine itself.
pub fn loopback_host(host: &[u8]) -> (r: bool)
    ensures
        r == is_loopback_host(host@),
{
    proof {
        reveal_strlit("localhost");
        reveal_strlit("[::1]");
        reveal_strlit("::1");
    }
    if bytes_equal_ignoring_case(host, ascii_of("localhost")) || bytes_equal(
        host,
        ascii_of("[::1]"),
    ) || bytes_equal(host, ascii_of("::1")) {
        return true;
    }
    match parse_ipv4(host) {
        Some(ip) => ip.is_loopback(),
        None => false,
    }
}

/// Decides on an origin whose URL, and the public URL, have been taken
/// apart already.
pub fn origin_decision(
    origin: &Option<UrlParts>,
    public: &Option<UrlParts>,
    local_ips: &[Ipv4Addr],
    allow_private: bool,
) -> (r: bool)
    ensures
        r == origin_permitted(parts_view(*origin), parts_view(*public), local_ips@, allow_private),
{
    let parts = match origin {
        Some(p) => p,
        None => { return false; },
    };
    let host = match &parts.host {
        Some(h) => h.as_slice(),
        None => { return false; },
    };
    if public_matches(parts.scheme.as_slice(), host, parts.port, public) {
        return true;
    }
    let ip = parse_ipv4(host);
    match ip {
        Some(v4) => {
            if contains_ip(local_ips, v4) {
                return true;
            }
        },
        None => {},
    }
    if loopback_host(host) {
        return true;
    }
    match ip {
        Some(v4) => allow_private && v4.is_private(),
        None => false,
    }
}

/// The parts of the URL that an optional text writes.
pub open spec fn text_parts(text: Option<&str>) -> Option<PartsView> {
    match text {
        Some(t) => url_parts(t@),
        None => None,
    }
}

/// Decides whether an origin, given as text, may call the service.
/// `public_url` is the public address of the service where it has one,
/// `local_ips` the machine's own addresses.
pub fn origin_text_allowed(
    origin: &str,
    public_url: Option<&str>,
    local_ips: &[Ipv4Addr],
    allow_private: bool,
) -> (r: bool)
    ensures
        r == origin_permitted(
            url_parts(origin@),
            text_parts(public_url),
            local_ips@,
            allow_private,
        ),
{
    let parts = parse_url(origin);
    let public = match public_url {
        Some(p) => parse_url(p),
        None => None,
    };
    origin_decision(&parts, &public, local_ips, allow_private)
}

/// A byte that may stand in a header value that is read as text: a
/// printable ASCII character, a blank or a tab.
pub open spec fn is_visible_ascii(b: u8) -> bool {
    (32 <= b && b < 127) || b == 9
}

/// The characters of a byte string that holds ASCII only.
pub open spec fn ascii_chars(bytes: Seq<u8>) -> Seq<char> {
    Seq::new(bytes.len(), |i: int| bytes[i] as char)
}

/// The text of a header value: its characters, where every byte of it may
/// stand in a text.
pub open spec fn header_text(value: Seq<u8>) -> Option<Seq<char>> {
    if forall|i: int| 0 <= i < value.len() ==> is_visible_ascii(#[trigger] value[i]) {
        Some(ascii_chars(value))
    } else {
        None
    }
}

/// Reads bytes as text with `core::str::from_utf8`. Not proved: that there
/// is a text where the bytes are valid UTF-8, and that the text has these
/// bytes.
#[verifier::external_body]
fn text_of(bytes: &[u8]) -> (r: Option<&str>)
    ensures
        vstd::utf8::valid_utf8(bytes@) ==> r.is_some(),
        r matches Some(s) ==> s.spec_bytes() == bytes@,
{
    core::str::from_utf8(bytes).ok()
}

/// A byte string of ASCII is the UTF-8 form of its characters.
proof fn lemma_ascii_is_text(bytes: Seq<u8>)
    requires
        forall|i: int| 0 <= i < bytes.len() ==> #[trigger] bytes[i] < 128,
    ensures
        vstd::utf8::encode_utf8(ascii_chars(bytes)) == bytes,
        vstd::utf8::valid_utf8(bytes),
{
    let chars = ascii_chars(bytes);
    assert(vstd::utf8::is_ascii_chars(chars)) by {
        assert forall|i: int| 0 <= i < chars.len() implies '\0' <= #[trigger] chars[i]
            <= '\u{7f}' by {
            assert(bytes[i] < 128);
        }
    }
    vstd::utf8::is_ascii_chars_encode_utf8(chars);
    assert(vstd::utf8::encode_utf8(chars) =~= bytes) by {
        assert forall|i: int| 0 <= i < bytes.len() implies vstd::utf8::encode_utf8(chars)[i]
            == bytes[i] by {
            assert(chars[i] as u8 == bytes[i]);
        }
    }
    vstd::utf8::encode_utf8_valid_utf8(chars);
}

/// Decides whether the origin that a browser sent, the bytes of its
/// `Origin` header, may call the service. A value that cannot be read as
/// text is denied. `public_url` is the public address of the service where
/// it has one, `local_ips` the machine's own addresses.
pub fn origin_allowed(
    origin: &[u8],
    public_url: Option<&str>,
    local_ips: &[Ipv4Addr],
    allow_private: bool,
) -> (r: bool)
    ensures
        r == match header_text(origin@) {
            Some(text) => origin_permitted(
                url_parts(text),
                text_parts(public_url),
                local_ips@,
                allow_private,
            ),
            None => false,
        },
{
    let mut i: usize = 0;
    while i < origin.len()
        invariant
            i <= origin@.len(),
            forall|j: int| 0 <= j < i ==> is_visible_ascii(#[trigger] origin@[j]),
        decreases origin@.len() - i,
    {
        let b = origin[i];
        if !((32 <= b && b < 127) || b == 9) {
            return false;
        }
        i += 1;
    }
    proof {
        assert forall|j: int| 0 <= j < origin@.len() implies #[trigger] origin@[j] < 128 by {
            assert(is_visible_ascii(origin@[j]));
        }
        lemma_ascii_is_text(origin@);
    }
    match text_of(origin) {
        Some(text) => {
            proof {
                vstd::utf8::encode_utf8_decode_utf8(text@);
                vstd::utf8::encode_utf8_decode_utf8(ascii_chars(origin@));
                assert(text@ == ascii_chars(origin@));
            }
            origin_text_allowed(text, public_url, local_ips, allow_private)
        },
        None => false,
    }
}

/// A loopback host is admitted whatever the configuration.
pub proof fn lemma_loopback_always_allowed(
    scheme: Seq<u8>,
    host: Seq<u8>,
    port: Option<u16>,
    public: Option<PartsView>,
    local_ips: Seq<Ipv4Addr>,
    allow_private: bool,
)
    requires
        is_loopback_host(host),
    ensures
        origin_permitted(Some((scheme, Some(host), port)), public, local_ips, allow_private),
{
}

/// A host that is no IPv4 address is admitted only as a loopback name or
/// as the public origin: no other name gets in, whatever it looks like.
pub proof fn lemma_names_need_public_match(
    scheme: Seq<u8>,
    host: Seq<u8>,
    port: Option<u16>,
    public: Option<PartsView>,
    local_ips: Seq<Ipv4Addr>,
    allow_private: bool,
)
    requires
        ipv4_of_text(host).is_none(),
        !is_loopback_name(host),
    ensures
        origin_permitted(Some((scheme, Some(host), port)), public, local_ips, allow_private)
            == matches_public(scheme, host, port, public),
{
}

/// A name that only starts like a loopback address is no loopback host:
/// what is no IPv4 address and no loopback name is not admitted as one.
pub proof fn lemma_loopback_is_name_or_address(host: Seq<u8>)
    ensures
        is_loopback_host(host) ==> is_loopback_name(host) || ipv4_of_text(host).is_some(),
{
}

/// The public origin is matched on scheme, host and port together: an
/// origin that differs from it in one of them is not admitted as public.
pub proof fn lemma_public_match_is_exact(
    scheme: Seq<u8>,
    host: Seq<u8>,
    port: Option<u16>,
    public: PartsView,
)
    ensures
        matches_public(scheme, host, port, Some(public)) == (public == (scheme, Some(host), port)),
{
}

/// An address of the machine is admitted on every port.
pub proof fn lemma_local_address_any_port(
    scheme: Seq<u8>,
    host: Seq<u8>,
    port: Option<u16>,
    public: Option<PartsView>,
    local_ips: Seq<Ipv4Addr>,
    allow_private: bool,
)
    requires
        is_local_host(host, local_ips),
    ensures
        origin_permitted(Some((scheme, Some(host), port)), public, local_ips, allow_private),
{
}

/// Allowing private addresses admits no origin less: whatever is admitted
/// without it is admitted with it.
pub proof fn lemma_private_only_widens(
    origin: Option<PartsView>,
    public: Option<PartsView>,
    local_ips: Seq<Ipv4Addr>,
)
    ensures
        origin_permitted(origin, public, local_ips, false) ==> origin_permitted(
            origin,
            public,
            local_ips,
            true,
        ),
{
}

} // verus!
