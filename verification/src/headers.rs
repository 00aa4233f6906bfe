//! Header lists and the two sanitising passes of the proxy: hop-by-hop
//! headers are dropped on both legs, and the forwarding headers are added on
//! the way upstream.

use vstd::prelude::*;
use crate::text::{ascii_bytes, ascii_of, bytes_equal_ignoring_case, copy_bytes, same_ignoring_case};

verus! {

/// One header line: a name and a value, both as bytes.
#[derive(Debug, PartialEq, Eq)]
pub struct Header {
    pub name: Vec<u8>,
    pub value: Vec<u8>,
}

impl View for Header {
    type V = (Seq<u8>, Seq<u8>);

    open spec fn view(&self) -> (Seq<u8>, Seq<u8>) {
        (self.name@, self.value@)
    }
}

/// A header list as a sequence of (name, value) pairs, in order.
pub open spec fn header_list(headers: Seq<Header>) -> Seq<(Seq<u8>, Seq<u8>)> {
    Seq::new(headers.len(), |i: int| headers[i]@)
}

/// Whether a header name belongs to one transport connection only, and so
/// must not pass an intermediary. Names compare without regard to case.
pub open spec fn is_hop_by_hop(name: Seq<u8>) -> bool {
    ||| same_ignoring_case(name, ascii_bytes("connection"@))
    ||| same_ignoring_case(name, ascii_bytes("proxy-authenticate"@))
    ||| same_ignoring_case(name, ascii_bytes("proxy-authorization"@))
    ||| same_ignoring_case(name, ascii_bytes("te"@))
    ||| same_ignoring_case(name, ascii_bytes("trailer"@))
    ||| same_ignoring_case(name, ascii_bytes("transfer-encoding"@))
    ||| same_ignoring_case(name, ascii_bytes("upgrade"@))
    ||| same_ignoring_case(name, ascii_bytes("keep-alive"@))
}

/// The headers of a list that may be forwarded, in their order.
pub open spec fn strip_hop_by_hop(headers: Seq<(Seq<u8>, Seq<u8>)>) -> Seq<(Seq<u8>, Seq<u8>)> {
    headers.filter(|h: (Seq<u8>, Seq<u8>)| !is_hop_by_hop(h.0))
}

/// The forwarding headers that the proxy adds for the upstream: the peer's
/// address where it is known, the protocol, and the inbound host where the
/// client named one.
pub open spec fn forwarded_headers(peer_ip: Option<Seq<u8>>, host: Option<Seq<u8>>) -> Seq<
    (Seq<u8>, Seq<u8>),
> {
    let peer = match peer_ip {
        Some(ip) => seq![(ascii_bytes("x-forwarded-for"@), ip)],
        None => Seq::<(Seq<u8>, Seq<u8>)>::empty(),
    };
    let proto = seq![(ascii_bytes("x-forwarded-proto"@), ascii_bytes("http"@))];
    let host_part = match host {
        Some(h) => seq![(ascii_bytes("x-forwarded-host"@), h)],
        None => Seq::<(Seq<u8>, Seq<u8>)>::empty(),
    };
    peer + proto + host_part
}

/// The header list that goes upstream.
pub open spec fn sanitized_request(
    headers: Seq<(Seq<u8>, Seq<u8>)>,
    peer_ip: Option<Seq<u8>>,
    host: Option<Seq<u8>>,
) -> Seq<(Seq<u8>, Seq<u8>)> {
    strip_hop_by_hop(headers) + forwarded_headers(peer_ip, host)
}

/// The value of the first header of the given name, if there is one.
pub open spec fn first_value(headers: Seq<(Seq<u8>, Seq<u8>)>, name: Seq<u8>) -> Option<Seq<u8>>
    decreases headers.len(),
{
    if headers.len() == 0 {
        None
    } else if same_ignoring_case(headers[0].0, name) {
        Some(headers[0].1)
    } else {
        first_value(headers.subrange(1, headers.len() as int), name)
    }
}

/// Whether the client asks to switch the connection to the WebSocket
/// protocol.
pub open spec fn wants_websocket(headers: Seq<(Seq<u8>, Seq<u8>)>) -> bool {
    match first_value(headers, ascii_bytes("upgrade"@)) {
        Some(v) => same_ignoring_case(v, ascii_bytes("websocket"@)),
        None => false,
    }
}

/// An optional byte string as a plain value.
pub open spec fn view_of(v: Option<Vec<u8>>) -> Option<Seq<u8>> {
    match v {
        Some(b) => Some(b@),
        None => None,
    }
}

/// Tells whether a header name is hop-by-hop.
pub fn is_hop_by_hop_name(name: &[u8]) -> (r: bool)
    ensures
        r == is_hop_by_hop(name@),
{
    proof {
        reveal_strlit("connection");
        reveal_strlit("proxy-authenticate");
        reveal_strlit("proxy-authorization");
        reveal_strlit("te");
        reveal_strlit("trailer");
        reveal_strlit("transfer-encoding");
        reveal_strlit("upgrade");
        reveal_strlit("keep-alive");
    }
    bytes_equal_ignoring_case(name, ascii_of("connection"))
        || bytes_equal_ignoring_case(name, ascii_of("proxy-authenticate"))
        || bytes_equal_ignoring_case(name, ascii_of("proxy-authorization"))
        || bytes_equal_ignoring_case(name, ascii_of("te"))
        || bytes_equal_ignoring_case(name, ascii_of("trailer"))
        || bytes_equal_ignoring_case(name, ascii_of("transfer-encoding"))
        || bytes_equal_ignoring_case(name, ascii_of("upgrade"))
        || bytes_equal_ignoring_case(name, ascii_of("keep-alive"))
}

/// Copies the headers that may be forwarded, in their order.
pub fn sanitize_response(headers: &Vec<Header>) -> (out: Vec<Header>)
    ensures
        header_list(out@) == strip_hop_by_hop(header_list(headers@)),
{
    let mut out: Vec<Header> = Vec::new();
    let mut i: usize = 0;
    assert(header_list(headers@).subrange(0, 0) =~= Seq::<(Seq<u8>, Seq<u8>)>::empty());
    assert(header_list(out@) =~= Seq::<(Seq<u8>, Seq<u8>)>::empty());
    proof {
        reveal(Seq::filter);
    }
    while i < headers.len()
        invariant
            i <= headers@.len(),
            header_list(out@) == strip_hop_by_hop(header_list(headers@).subrange(0, i as int)),
        decreases headers@.len() - i,
    {
        let ghost before = header_list(out@);
        let ghost all = header_list(headers@);
        proof {
            reveal(Seq::filter);
            assert(all.subrange(0, i + 1).drop_last() =~= all.subrange(0, i as int));
            assert(all.subrange(0, i + 1).last() == headers@[i as int]@);
        }
        if !is_hop_by_hop_name(headers[i].name.as_slice()) {
            let h = Header {
                name: copy_bytes(headers[i].name.as_slice()),
                value: copy_bytes(headers[i].value.as_slice()),
            };
            out.push(h);
            assert(header_list(out@) =~= before.push(headers@[i as int]@));
        }
        i += 1;
    }
    assert(header_list(headers@).subrange(0, i as int) =~= header_list(headers@));
    out
}

/// Builds the header list that goes upstream: the headers that may be
/// forwarded, in their order, followed by the forwarding headers.
pub fn sanitize_request(
    headers: &Vec<Header>,
    peer_ip: &Option<Vec<u8>>,
    host_header: &Option<Vec<u8>>,
) -> (out: Vec<Header>)
    ensures
        header_list(out@) == sanitized_request(
            header_list(headers@),
            view_of(*peer_ip),
            view_of(*host_header),
        ),
{
    proof {
        reveal_strlit("x-forwarded-for");
        reveal_strlit("x-forwarded-proto");
        reveal_strlit("x-forwarded-host");
        reveal_strlit("http");
    }
    let mut out = sanitize_response(headers);
    let ghost kept = header_list(out@);
    let ghost peer_part = match view_of(*peer_ip) {
        Some(ip) => seq![(ascii_bytes("x-forwarded-for"@), ip)],
        None => Seq::<(Seq<u8>, Seq<u8>)>::empty(),
    };
    match peer_ip {
        Some(ip) => {
            out.push(
                Header {
                    name: copy_bytes(ascii_of("x-forwarded-for")),
                    value: copy_bytes(ip.as_slice()),
                },
            );
        },
        None => {},
    }
    assert(header_list(out@) =~= kept + peer_part);
    out.push(
        Header {
            name: copy_bytes(ascii_of("x-forwarded-proto")),
            value: copy_bytes(ascii_of("http")),
        },
    );
    let ghost proto_part = seq![(ascii_bytes("x-forwarded-proto"@), ascii_bytes("http"@))];
    assert(header_list(out@) =~= kept + (peer_part + proto_part));
    let ghost host_part = match view_of(*host_header) {
        Some(h) => seq![(ascii_bytes("x-forwarded-host"@), h)],
        None => Seq::<(Seq<u8>, Seq<u8>)>::empty(),
    };
    match host_header {
        Some(h) => {
            out.push(
                Header {
                    name: copy_bytes(ascii_of("x-forwarded-host")),
                    value: copy_bytes(h.as_slice()),
                },
            );
        },
        None => {},
    }
    assert(header_list(out@) =~= kept + (peer_part + proto_part + host_part));
    out
}

/// Looks up the value of the first header of the given name, without regard
/// to case.
pub fn header_value(headers: &Vec<Header>, name: &[u8]) -> (r: Option<Vec<u8>>)
    ensures
        view_of(r) == first_value(header_list(headers@), name@),
{
    let mut i: usize = 0;
    let ghost all = header_list(headers@);
    assert(all.subrange(0, all.len() as int) =~= all);
    while i < headers.len()
        invariant
            i <= headers@.len(),
            all == header_list(headers@),
            first_value(all, name@) == first_value(all.subrange(i as int, all.len() as int), name@),
        decreases headers@.len() - i,
    {
        let ghost rest = all.subrange(i as int, all.len() as int);
        assert(rest[0] == headers@[i as int]@);
        if bytes_equal_ignoring_case(headers[i].name.as_slice(), name) {
            return Some(copy_bytes(headers[i].value.as_slice()));
        }
        assert(rest.subrange(1, rest.len() as int) =~= all.subrange(i + 1, all.len() as int));
        i += 1;
    }
    None
}

/// Tells whether the client asks for a WebSocket upgrade.
pub fn is_websocket_upgrade(headers: &Vec<Header>) -> (r: bool)
    ensures
        r == wants_websocket(header_list(headers@)),
{
    proof {
        reveal_strlit("upgrade");
        reveal_strlit("websocket");
    }
    match header_value(headers, ascii_of("upgrade")) {
        Some(v) => bytes_equal_ignoring_case(v.as_slice(), ascii_of("websocket")),
        None => false,
    }
}

/// A name is hop-by-hop in every casing: two names that differ in case
/// only are both in the set or both outside it.
pub proof fn lemma_hop_by_hop_ignores_case(a: Seq<u8>, b: Seq<u8>)
    requires
        same_ignoring_case(a, b),
    ensures
        is_hop_by_hop(a) == is_hop_by_hop(b),
{
}

/// No header that survives the stripping has a hop-by-hop name, and every
/// header of another name survives.
pub proof fn lemma_stripped_is_clean(headers: Seq<(Seq<u8>, Seq<u8>)>)
    ensures
        forall|i: int|
            0 <= i < strip_hop_by_hop(headers).len() ==> !is_hop_by_hop(
                #[trigger] strip_hop_by_hop(headers)[i].0,
            ),
        forall|i: int|
            0 <= i < headers.len() && !is_hop_by_hop(headers[i].0) ==> strip_hop_by_hop(
                headers,
            ).contains(#[trigger] headers[i]),
{
    broadcast use vstd::seq_lib::group_filter_ensures;

}

/// A list without hop-by-hop headers passes the stripping unchanged.
pub proof fn lemma_clean_list_unchanged(headers: Seq<(Seq<u8>, Seq<u8>)>)
    requires
        forall|i: int| 0 <= i < headers.len() ==> !is_hop_by_hop(#[trigger] headers[i].0),
    ensures
        strip_hop_by_hop(headers) == headers,
    decreases headers.len(),
{
    reveal(Seq::filter);
    if headers.len() > 0 {
        lemma_clean_list_unchanged(headers.drop_last());
        assert(headers.drop_last().push(headers.last()) =~= headers);
    }
}

/// None of the forwarding headers has a hop-by-hop name.
pub proof fn lemma_forwarded_names_are_not_hop_by_hop(
    peer_ip: Option<Seq<u8>>,
    host: Option<Seq<u8>>,
)
    ensures
        forall|i: int|
            0 <= i < forwarded_headers(peer_ip, host).len() ==> !is_hop_by_hop(
                #[trigger] forwarded_headers(peer_ip, host)[i].0,
            ),
{
    reveal_strlit("x-forwarded-for");
    reveal_strlit("x-forwarded-proto");
    reveal_strlit("x-forwarded-host");
    reveal_strlit("connection");
    reveal_strlit("proxy-authenticate");
    reveal_strlit("proxy-authorization");
    reveal_strlit("te");
    reveal_strlit("trailer");
    reveal_strlit("transfer-encoding");
    reveal_strlit("upgrade");
    reveal_strlit("keep-alive");
    let xff = ascii_bytes("x-forwarded-for"@);
    let xfp = ascii_bytes("x-forwarded-proto"@);
    let xfh = ascii_bytes("x-forwarded-host"@);
    assert(crate::text::lower_bytes(xfp)[0] != crate::text::lower_bytes(
        ascii_bytes("transfer-encoding"@),
    )[0]);
    assert(!is_hop_by_hop(xff)) by {
        lemma_length_decides(xff);
    }
    assert(!is_hop_by_hop(xfp)) by {
        lemma_length_decides(xfp);
    }
    assert(!is_hop_by_hop(xfh)) by {
        lemma_length_decides(xfh);
    }
}

/// Names that differ in length are not the same in any casing.
proof fn lemma_length_decides(name: Seq<u8>)
    ensures
        forall|other: Seq<u8>|
            other.len() != name.len() ==> !(#[trigger] same_ignoring_case(name, other)),
{
    assert forall|other: Seq<u8>| other.len() != name.len() implies !(
    #[trigger] same_ignoring_case(name, other)) by {
        assert(crate::text::lower_bytes(name).len() == name.len());
        assert(crate::text::lower_bytes(other).len() == other.len());
    }
}

/// What goes upstream holds no hop-by-hop header.
pub proof fn lemma_sanitized_request_is_clean(
    headers: Seq<(Seq<u8>, Seq<u8>)>,
    peer_ip: Option<Seq<u8>>,
    host: Option<Seq<u8>>,
)
    ensures
        forall|i: int|
            0 <= i < sanitized_request(headers, peer_ip, host).len() ==> !is_hop_by_hop(
                #[trigger] sanitized_request(headers, peer_ip, host)[i].0,
            ),
{
    lemma_stripped_is_clean(headers);
    lemma_forwarded_names_are_not_hop_by_hop(peer_ip, host);
    let kept = strip_hop_by_hop(headers);
    let added = forwarded_headers(peer_ip, host);
    assert forall|i: int| 0 <= i < (kept + added).len() implies !is_hop_by_hop(
        #[trigger] (kept + added)[i].0,
    ) by {
        if i < kept.len() {
            assert((kept + added)[i] == kept[i]);
        } else {
            assert((kept + added)[i] == added[i - kept.len()]);
        }
    }
}

} // verus!
