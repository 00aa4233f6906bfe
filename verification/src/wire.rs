//! The header map of the HTTP library, as the proxy reads and fills it.

use vstd::prelude::*;
use crate::engine::{
    early_refusal, is_valid_uri, plan_request, planned, refuse_early, relay_response,
    request_view, upstream_uri, RequestEnvelope,
};
use crate::fault::{Fault, HttpVersion, ResponseEnvelope};
use crate::headers::{header_list, strip_hop_by_hop, view_of, Header};
use crate::text::lower_bytes;

verus! {

/// `http::HeaderMap`, carried through as it is.
#[verifier::external_type_specification]
#[verifier::external_body]
#[verifier::reject_recursive_types(T)]
pub struct ExHeaderMap<T>(http::HeaderMap<T>);

/// `http::HeaderValue`, carried through as it is.
#[verifier::external_type_specification]
#[verifier::external_body]
pub struct ExHeaderValue(http::HeaderValue);

/// The headers that a map holds, as (name, value) pairs in the order in
/// which the map hands them out: the names in the order in which they came
/// into the map, and with each name its values in the order in which they
/// came.
pub uninterp spec fn map_entries(map: http::HeaderMap<http::HeaderValue>) -> Seq<
    (Seq<u8>, Seq<u8>),
>;

/// Makes a map with `http::HeaderMap::new`. Not proved: that it holds
/// nothing.
#[verifier::external_body]
fn new_map() -> (map: http::HeaderMap<http::HeaderValue>)
    ensures
        map_entries(map) == Seq::<(Seq<u8>, Seq<u8>)>::empty(),
{
    http::HeaderMap::new()
}

/// Hands out what `http::HeaderMap::iter` yields, each name and value as
/// bytes. Not proved: that these are the headers that the map holds, in its
/// order.
#[verifier::external_body]
fn entries_of(map: &http::HeaderMap<http::HeaderValue>) -> (list: Vec<Header>)
    ensures
        header_list(list@) == map_entries(*map),
{
    map.iter().map(
        |(name, value)| {
            Header { name: name.as_str().as_bytes().to_vec(), value: value.as_bytes().to_vec() }
        },
    ).collect()
}

/// A byte that may stand in a header name: a letter, a digit, or one of
/// the signs that a token may hold.
pub open spec fn is_token_byte(b: u8) -> bool {
    ||| (0x30 <= b && b <= 0x39)
    ||| (0x41 <= b && b <= 0x5a)
    ||| (0x61 <= b && b <= 0x7a)
    ||| b == 0x21
    ||| (0x23 <= b && b <= 0x27)
    ||| b == 0x2a
    ||| b == 0x2b
    ||| b == 0x2d
    ||| b == 0x2e
    ||| b == 0x5e
    ||| b == 0x5f
    ||| b == 0x60
    ||| b == 0x7c
    ||| b == 0x7e
}

/// A header name that the map takes: 1 to 65,535 token bytes.
pub open spec fn is_header_name(name: Seq<u8>) -> bool {
    &&& 1 <= name.len() <= 65535
    &&& forall|i: int| 0 <= i < name.len() ==> is_token_byte(#[trigger] name[i])
}

/// A header value that the map takes: no control byte but the tab.
pub open spec fn is_header_value(value: Seq<u8>) -> bool {
    forall|i: int|
        0 <= i < value.len() ==> (#[trigger] value[i] >= 32 && value[i] != 127) || value[i] == 9
}

/// A header that the map takes.
pub open spec fn is_map_header(h: (Seq<u8>, Seq<u8>)) -> bool {
    is_header_name(h.0) && is_header_value(h.1)
}

/// The number of headers below which a map has room for one more in any
/// case. A map refuses a header only where it would have to grow beyond
/// 32,768 slots, and one that holds fewer than 6,554 names never has to;
/// this number stays well below that.
pub open spec fn map_room() -> nat {
    4096
}

/// The place of the last header of a name in a list, or -1 where the list
/// has none of that name.
pub open spec fn last_of_name(list: Seq<(Seq<u8>, Seq<u8>)>, name: Seq<u8>) -> int
    decreases list.len(),
{
    if list.len() == 0 {
        -1
    } else if list.last().0 == name {
        list.len() - 1
    } else {
        last_of_name(list.drop_last(), name)
    }
}

/// A list after a header came in as a map takes it: behind the last header
/// of its name, or at the end where the name is new.
pub open spec fn with_header(list: Seq<(Seq<u8>, Seq<u8>)>, h: (Seq<u8>, Seq<u8>)) -> Seq<
    (Seq<u8>, Seq<u8>),
> {
    let at = last_of_name(list, h.0);
    if at < 0 {
        list.push(h)
    } else {
        list.subrange(0, at + 1).push(h) + list.subrange(at + 1, list.len() as int)
    }
}

/// Adds a header with `http::HeaderName::from_bytes`,
/// `http::HeaderValue::from_bytes` and `http::HeaderMap::try_append`, and
/// tells whether all three took it. Not proved: that only a valid name and
/// value are taken, that they are taken where the map holds fewer headers
/// than `map_room`, and that the map then holds the header, its name in
/// lower case, behind the others of its name.
#[verifier::external_body]
fn append_header(map: &mut http::HeaderMap<http::HeaderValue>, name: &[u8], value: &[u8]) -> (ok:
    bool)
    ensures
        ok ==> is_header_name(name@) && is_header_value(value@),
        ok ==> map_entries(*final(map)) == with_header(
            map_entries(*old(map)),
            (lower_bytes(name@), value@),
        ),
        is_header_name(name@) && is_header_value(value@) && map_entries(*old(map)).len()
            < map_room() ==> ok,
{
    match (http::HeaderName::from_bytes(name), http::HeaderValue::from_bytes(value)) {
        (Ok(n), Ok(v)) => map.try_append(n, v).is_ok(),
        _ => false,
    }
}

/// A header list with every name in lower case.
pub open spec fn lowered(list: Seq<(Seq<u8>, Seq<u8>)>) -> Seq<(Seq<u8>, Seq<u8>)> {
    Seq::new(list.len(), |i: int| (lower_bytes(list[i].0), list[i].1))
}

/// A header list as a map holds it after the headers came in one by one:
/// the headers of one name stand together, where the first of them came.
pub open spec fn regrouped(list: Seq<(Seq<u8>, Seq<u8>)>) -> Seq<(Seq<u8>, Seq<u8>)>
    decreases list.len(),
{
    if list.len() == 0 {
        Seq::<(Seq<u8>, Seq<u8>)>::empty()
    } else {
        with_header(regrouped(list.drop_last()), list.last())
    }
}

/// The last header of a name stands within the list.
pub proof fn lemma_last_of_name_in_range(list: Seq<(Seq<u8>, Seq<u8>)>, name: Seq<u8>)
    ensures
        -1 <= last_of_name(list, name) < list.len(),
        last_of_name(list, name) >= 0 ==> list[last_of_name(list, name)].0 == name,
    decreases list.len(),
{
    if list.len() > 0 && list.last().0 != name {
        lemma_last_of_name_in_range(list.drop_last(), name);
    }
}

/// A header that comes in makes the list longer by one.
pub proof fn lemma_with_header_grows(list: Seq<(Seq<u8>, Seq<u8>)>, h: (Seq<u8>, Seq<u8>))
    ensures
        with_header(list, h).len() == list.len() + 1,
{
    lemma_last_of_name_in_range(list, h.0);
}

/// Whether the map may refuse the header at a place of a list: the header
/// is not valid, or the map holds `map_room` headers by then.
pub open spec fn may_be_refused(list: Seq<(Seq<u8>, Seq<u8>)>, i: int) -> bool {
    !is_map_header(list[i]) || i >= map_room()
}

/// Fills a map with the headers of a list, one by one. There is a map
/// exactly when the map takes every header; it takes every valid header
/// while it holds fewer than `map_room` headers.
pub fn fill_map(list: &Vec<Header>) -> (r: Option<http::HeaderMap<http::HeaderValue>>)
    ensures
        r matches Some(map) ==> map_entries(map) == regrouped(lowered(header_list(list@))),
        r.is_some() ==> forall|i: int|
            0 <= i < list@.len() ==> is_map_header(#[trigger] header_list(list@)[i]),
        r.is_none() ==> exists|i: int| 0 <= i < list@.len() && #[trigger] may_be_refused(header_list(list@), i),
{
    let mut map = new_map();
    let mut i: usize = 0;
    let ghost all = lowered(header_list(list@));
    assert(all.subrange(0, 0) =~= Seq::<(Seq<u8>, Seq<u8>)>::empty());
    while i < list.len()
        invariant
            i <= list@.len(),
            all == lowered(header_list(list@)),
            map_entries(map) == regrouped(all.subrange(0, i as int)),
            map_entries(map).len() == i,
            forall|j: int| 0 <= j < i ==> is_map_header(#[trigger] header_list(list@)[j]),
        decreases list@.len() - i,
    {
        let ghost before = map_entries(map);
        let ok = append_header(&mut map, list[i].name.as_slice(), list[i].value.as_slice());
        if !ok {
            assert(may_be_refused(header_list(list@), i as int));
            return None;
        }
        proof {
            let added = (lower_bytes(list@[i as int].name@), list@[i as int].value@);
            assert(all.subrange(0, i + 1).drop_last() =~= all.subrange(0, i as int));
            assert(all.subrange(0, i + 1).last() == added);
            lemma_with_header_grows(before, added);
            assert(is_map_header(header_list(list@)[i as int]));
        }
        i += 1;
    }
    assert(all.subrange(0, i as int) =~= all);
    Some(map)
}

/// Builds the response that goes back to the client from the upstream's
/// status, header map, body and version: the hop-by-hop headers leave,
/// everything else stays, in the map's order.
pub fn relay_from_map(
    status: u16,
    headers: &http::HeaderMap<http::HeaderValue>,
    body: Vec<u8>,
    version: HttpVersion,
) -> (r: ResponseEnvelope)
    ensures
        r.status == status,
        r.body@ == body@,
        r.version == version,
        header_list(r.headers@) == strip_hop_by_hop(map_entries(*headers)),
{
    let list = entries_of(headers);
    relay_response(status, &list, body, version)
}

/// Tells, before the body of an inbound request is read, whether the
/// request is refused whatever its body holds.
pub fn refuse_early_from_map(
    path: &[u8],
    query: &Option<Vec<u8>>,
    headers: &http::HeaderMap<http::HeaderValue>,
) -> (r: Option<Fault>)
    ensures
        r == early_refusal(
            upstream_uri(path@, view_of(*query)),
            is_valid_uri(upstream_uri(path@, view_of(*query))),
            map_entries(*headers),
        ),
{
    let list = entries_of(headers);
    refuse_early(path, query, &list)
}

/// Builds the upstream request for an inbound request whose headers stand
/// in a map: the request is planned on the headers in the map's order.
pub fn plan_from_map(
    method: &[u8],
    path: &[u8],
    query: &Option<Vec<u8>>,
    headers: &http::HeaderMap<http::HeaderValue>,
    body: Option<Vec<u8>>,
    peer_ip: &Option<Vec<u8>>,
) -> (r: Result<RequestEnvelope, Fault>)
    ensures
        request_view(r) == planned(
            method@,
            upstream_uri(path@, view_of(*query)),
            is_valid_uri(upstream_uri(path@, view_of(*query))),
            map_entries(*headers),
            view_of(body),
            view_of(*peer_ip),
        ),
{
    let list = entries_of(headers);
    plan_request(method, path, query, &list, body, peer_ip)
}

} // verus!
