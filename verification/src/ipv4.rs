//! IPv4 addresses and their dotted-decimal text.

use vstd::prelude::*;

verus! {

/// An IPv4 address as its four octets, first octet first.
#[derive(Clone, Copy, Debug, PartialEq, Eq, Structural)]
pub struct Ipv4Addr {
    pub a: u8,
    pub b: u8,
    pub c: u8,
    pub d: u8,
}

/// Whether a byte is a decimal digit.
pub open spec fn is_digit(b: u8) -> bool {
    0x30 <= b && b <= 0x39
}

/// The value of a decimal digit.
pub open spec fn digit_value(b: u8) -> int {
    b - 0x30
}

/// How many decimal digits stand in a row from position `from` on.
pub open spec fn digit_run(s: Seq<u8>, from: int) -> nat
    decreases s.len() - from,
{
    if 0 <= from < s.len() && is_digit(s[from]) {
        1 + digit_run(s, from + 1)
    } else {
        0
    }
}

/// The octet that a run of `n` digits at `from` writes: one to three
/// digits, no zero in front of another digit, and at most 255.
pub open spec fn octet_value(s: Seq<u8>, from: int, n: nat) -> Option<u8> {
    if n == 1 {
        Some(digit_value(s[from]) as u8)
    } else if n == 2 && s[from] != 0x30 {
        Some((10 * digit_value(s[from]) + digit_value(s[from + 1])) as u8)
    } else if n == 3 && s[from] != 0x30 && 100 * digit_value(s[from]) + 10 * digit_value(
        s[from + 1],
    ) + digit_value(s[from + 2]) <= 255 {
        Some(
            (100 * digit_value(s[from]) + 10 * digit_value(s[from + 1]) + digit_value(
                s[from + 2],
            )) as u8,
        )
    } else {
        None
    }
}

/// The octet written at `from`, with the position behind it.
pub open spec fn octet_at(s: Seq<u8>, from: int) -> Option<(u8, int)> {
    match octet_value(s, from, digit_run(s, from)) {
        Some(v) => Some((v, from + digit_run(s, from))),
        None => None,
    }
}

/// Whether a dot stands at a position.
pub open spec fn dot_at(s: Seq<u8>, at: int) -> bool {
    0 <= at < s.len() && s[at] == 0x2e
}

/// The address that a text writes in dotted decimal: four octets with a
/// dot between each two, and nothing else.
pub open spec fn ipv4_of_text(s: Seq<u8>) -> Option<Ipv4Addr> {
    match octet_at(s, 0) {
        Some((a, p1)) if dot_at(s, p1) => match octet_at(s, p1 + 1) {
            Some((b, p2)) if dot_at(s, p2) => match octet_at(s, p2 + 1) {
                Some((c, p3)) if dot_at(s, p3) => match octet_at(s, p3 + 1) {
                    Some((d, p4)) if p4 == s.len() => Some(Ipv4Addr { a, b, c, d }),
                    _ => None,
                },
                _ => None,
            },
            _ => None,
        },
        _ => None,
    }
}

/// An address of the blocks set aside for private networks: 10/8,
/// 172.16/12 and 192.168/16.
pub open spec fn is_private(ip: Ipv4Addr) -> bool {
    ip.a == 10 || (ip.a == 172 && 16 <= ip.b && ip.b <= 31) || (ip.a == 192 && ip.b == 168)
}

/// An address of the loopback block 127/8.
pub open spec fn is_loopback(ip: Ipv4Addr) -> bool {
    ip.a == 127
}

impl Ipv4Addr {
    /// The address of the four octets.
    pub fn new(a: u8, b: u8, c: u8, d: u8) -> (ip: Ipv4Addr)
        ensures
            ip == (Ipv4Addr { a, b, c, d }),
    {
        Ipv4Addr { a, b, c, d }
    }

    /// The four octets, first octet first.
    pub fn octets(&self) -> (o: [u8; 4])
        ensures
            o@ == seq![self.a, self.b, self.c, self.d],
    {
        let o: [u8; 4] = [self.a, self.b, self.c, self.d];
        assert(o@ =~= seq![self.a, self.b, self.c, self.d]);
        o
    }

    /// Tells whether the address is private.
    pub fn is_private(&self) -> (r: bool)
        ensures
            r == is_private(*self),
    {
        self.a == 10 || (self.a == 172 && 16 <= self.b && self.b <= 31) || (self.a == 192
            && self.b == 168)
    }

    /// Tells whether the address is a loopback address.
    pub fn is_loopback(&self) -> (r: bool)
        ensures
            r == is_loopback(*self),
    {
        self.a == 127
    }
}

/// Counts the digits that stand in a row from `from` on, up to four: a
/// longer run writes no octet.
fn count_digits(s: &[u8], from: usize) -> (n: usize)
    requires
        from <= s@.len(),
    ensures
        n <= 4,
        from + n <= s@.len(),
        n < 4 ==> n == digit_run(s@, from as int),
        n == 4 ==> digit_run(s@, from as int) >= 4,
{
    let mut n: usize = 0;
    while n < 4 && n < s.len() - from && 0x30 <= s[from + n] && s[from + n] <= 0x39
        invariant
            n <= 4,
            from + n <= s@.len(),
            digit_run(s@, from as int) == n + digit_run(s@, from + n),
        decreases 4 - n,
    {
        n += 1;
    }
    n
}

fn read_octet(s: &[u8], from: usize) -> (r: Option<(u8, usize)>)
    requires
        from <= s@.len(),
    ensures
        match r {
            Some((v, next)) => octet_at(s@, from as int) == Some((v, next as int)) && from < next
                <= s@.len(),
            None => octet_at(s@, from as int).is_none(),
        },
{
    let n = count_digits(s, from);
    if n == 1 {
        Some((s[from] - 0x30, from + 1))
    } else if n == 2 && s[from] != 0x30 {
        proof {
            assert(is_digit(s@[from as int]));
            assert(digit_run(s@, from + 1) >= 1);
            assert(is_digit(s@[from + 1]));
        }
        let v: u8 = 10 * (s[from] - 0x30) + (s[from + 1] - 0x30);
        Some((v, from + 2))
    } else if n == 3 && s[from] != 0x30 {
        proof {
            assert(is_digit(s@[from as int]));
            assert(digit_run(s@, from + 1) >= 1);
            assert(is_digit(s@[from + 1]));
            assert(digit_run(s@, from + 2) >= 1);
            assert(is_digit(s@[from + 2]));
        }
        let wide: u16 = 100 * ((s[from] - 0x30) as u16) + 10 * ((s[from + 1] - 0x30) as u16) + ((
        s[from + 2] - 0x30) as u16);
        if wide <= 255 {
            Some((wide as u8, from + 3))
        } else {
            None
        }
    } else {
        None
    }
}

/// Reads an address in dotted decimal: a text gives an address exactly
/// when it is the text of that address.
pub fn parse_ipv4(s: &[u8]) -> (r: Option<Ipv4Addr>)
    ensures
        r == ipv4_of_text(s@),
        forall|ip: Ipv4Addr| r == Some(ip) <==> s@ == #[trigger] ipv4_text(ip),
{
    proof {
        assert forall|ip: Ipv4Addr| ipv4_of_text(s@) == Some(ip) <==> s@ == #[trigger] ipv4_text(
            ip,
        ) by {
            lemma_reads_exactly_texts(s@, ip);
        }
    }
    let (a, p1) = match read_octet(s, 0) {
        Some(x) => x,
        None => { return None; },
    };
    if !(p1 < s.len() && s[p1] == 0x2e) {
        return None;
    }
    let (b, p2) = match read_octet(s, p1 + 1) {
        Some(x) => x,
        None => { return None; },
    };
    if !(p2 < s.len() && s[p2] == 0x2e) {
        return None;
    }
    let (c, p3) = match read_octet(s, p2 + 1) {
        Some(x) => x,
        None => { return None; },
    };
    if !(p3 < s.len() && s[p3] == 0x2e) {
        return None;
    }
    let (d, p4) = match read_octet(s, p3 + 1) {
        Some(x) => x,
        None => { return None; },
    };
    if p4 != s.len() {
        return None;
    }
    Some(Ipv4Addr { a, b, c, d })
}

/// Whether an address is one of a list.
pub fn contains_ip(ips: &[Ipv4Addr], ip: Ipv4Addr) -> (r: bool)
    ensures
        r == ips@.contains(ip),
{
    let mut i: usize = 0;
    while i < ips.len()
        invariant
            i <= ips@.len(),
            forall|j: int| 0 <= j < i ==> ips@[j] != ip,
        decreases ips@.len() - i,
    {
        if ips[i] == ip {
            return true;
        }
        i += 1;
    }
    false
}

/// The decimal digits of an octet, without a zero in front.
pub open spec fn octet_text(v: u8) -> Seq<u8> {
    if v < 10 {
        seq![(0x30 + v) as u8]
    } else if v < 100 {
        seq![(0x30 + v / 10) as u8, (0x30 + v % 10) as u8]
    } else {
        seq![(0x30 + v / 100) as u8, (0x30 + (v / 10) % 10) as u8, (0x30 + v % 10) as u8]
    }
}

/// The dotted-decimal text of an address.
pub open spec fn ipv4_text(ip: Ipv4Addr) -> Seq<u8> {
    octet_text(ip.a) + seq![0x2e_u8] + octet_text(ip.b) + seq![0x2e_u8] + octet_text(ip.c)
        + seq![0x2e_u8] + octet_text(ip.d)
}

/// Where the digits of an octet stand at `from` and no digit follows them,
/// the octet is read there.
proof fn lemma_octet_read(s: Seq<u8>, from: int, v: u8)
    requires
        0 <= from,
        from + octet_text(v).len() <= s.len(),
        s.subrange(from, from + octet_text(v).len()) == octet_text(v),
        from + octet_text(v).len() == s.len() || !is_digit(s[from + octet_text(v).len()]),
    ensures
        octet_at(s, from) == Some((v, from + octet_text(v).len())),
{
    let t = octet_text(v);
    let n = t.len() as int;
    assert forall|k: int| 0 <= k < n implies s[from + k] == t[k] by {
        assert(s.subrange(from, from + n)[k] == s[from + k]);
    }
    reveal_with_fuel(digit_run, 5);
    if v < 10 {
        assert(s[from] == t[0]);
    } else if v < 100 {
        assert(s[from] == t[0]);
        assert(s[from + 1] == t[1]);
    } else {
        assert(s[from] == t[0]);
        assert(s[from + 1] == t[1]);
        assert(s[from + 2] == t[2]);
    }
}

/// The text of an address is read back as that address.
pub proof fn lemma_text_reads_back(ip: Ipv4Addr)
    ensures
        ipv4_of_text(ipv4_text(ip)) == Some(ip),
{
    let s = ipv4_text(ip);
    let ta = octet_text(ip.a);
    let tb = octet_text(ip.b);
    let tc = octet_text(ip.c);
    let td = octet_text(ip.d);
    let p1 = ta.len() as int;
    let p2 = p1 + 1 + tb.len();
    let p3 = p2 + 1 + tc.len();
    let p4 = p3 + 1 + td.len();
    assert(s.len() == p4);
    assert(s.subrange(0, p1) =~= ta);
    assert(s[p1] == 0x2e);
    assert(s.subrange(p1 + 1, p2) =~= tb);
    assert(s[p2] == 0x2e);
    assert(s.subrange(p2 + 1, p3) =~= tc);
    assert(s[p3] == 0x2e);
    assert(s.subrange(p3 + 1, p4) =~= td);
    lemma_octet_read(s, 0, ip.a);
    lemma_octet_read(s, p1 + 1, ip.b);
    lemma_octet_read(s, p2 + 1, ip.c);
    lemma_octet_read(s, p3 + 1, ip.d);
}

/// Where an octet is read, its digits stand there.
proof fn lemma_octet_digits(s: Seq<u8>, from: int)
    requires
        0 <= from,
        octet_at(s, from).is_some(),
    ensures
        from + digit_run(s, from) <= s.len(),
        s.subrange(from, from + digit_run(s, from)) == octet_text(octet_at(s, from).unwrap().0),
{
    reveal_with_fuel(digit_run, 5);
    let n = digit_run(s, from) as int;
    let v = octet_at(s, from).unwrap().0;
    assert(s.subrange(from, from + n) =~= octet_text(v));
}

/// A text that is read as an address is the text of that address: every
/// address has one text.
pub proof fn lemma_read_text_is_canonical(s: Seq<u8>)
    requires
        ipv4_of_text(s).is_some(),
    ensures
        s == ipv4_text(ipv4_of_text(s).unwrap()),
{
    let p1 = octet_at(s, 0).unwrap().1;
    let p2 = octet_at(s, p1 + 1).unwrap().1;
    let p3 = octet_at(s, p2 + 1).unwrap().1;
    let p4 = octet_at(s, p3 + 1).unwrap().1;
    lemma_octet_digits(s, 0);
    lemma_octet_digits(s, p1 + 1);
    lemma_octet_digits(s, p2 + 1);
    lemma_octet_digits(s, p3 + 1);
    let ta = s.subrange(0, p1);
    let tb = s.subrange(p1 + 1, p2);
    let tc = s.subrange(p2 + 1, p3);
    let td = s.subrange(p3 + 1, p4);
    let dot = seq![0x2e_u8];
    assert(p4 == s.len());
    let left = ta + dot + tb + dot;
    assert(left =~= s.subrange(0, p2 + 1));
    let wider = left + tc + dot;
    assert(wider =~= s.subrange(0, p3 + 1));
    assert(wider + td =~= s);
}

/// A text is read as an address exactly when it is the text of that
/// address.
pub proof fn lemma_reads_exactly_texts(s: Seq<u8>, ip: Ipv4Addr)
    ensures
        ipv4_of_text(s) == Some(ip) <==> s == ipv4_text(ip),
{
    if ipv4_of_text(s) == Some(ip) {
        lemma_read_text_is_canonical(s);
    }
    if s == ipv4_text(ip) {
        lemma_text_reads_back(ip);
    }
}

} // verus!
