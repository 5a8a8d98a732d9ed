//! Rate limiting of the relay: the two budgets, and the key a request is
//! counted under.
//!
//! The key is the address of the client. Behind a proxy that address is
//! named in a header, so the headers are searched first: `X-Forwarded-For`,
//! then `X-Real-IP`, then `Forwarded`. This module picks the texts that may
//! hold an address, in the order in which they are to be tried; whether a
//! text is an address is for the caller to say. From the answers the key is
//! chosen, and where there is none the loopback address stands in, so that
//! no request fails for want of a key.

use vstd::prelude::*;

verus! {

/// A budget of requests per key: `burst` requests at once, and one more
/// every `period_secs` seconds.
#[derive(Debug, Clone, Copy, PartialEq, Eq, Structural)]
pub struct RateLimitPolicy {
    pub period_secs: u64,
    pub burst: u32,
}

/// The budget for opening logins: ten at once, then one every six seconds.
pub fn start_policy() -> (p: RateLimitPolicy)
    ensures
        p == (RateLimitPolicy { period_secs: 6, burst: 10 }),
{
    RateLimitPolicy { period_secs: 6, burst: 10 }
}

/// The budget for polling: ten at once, then one every second.
pub fn poll_policy() -> (p: RateLimitPolicy)
    ensures
        p == (RateLimitPolicy { period_secs: 1, burst: 10 }),
{
    RateLimitPolicy { period_secs: 1, burst: 10 }
}

/// An IP address as a number: the 32 bits of a version 4 address or the 128
/// bits of a version 6 address, most significant byte first.
#[derive(Debug, Clone, Copy, PartialEq, Eq, Hash, Structural)]
pub enum IpKey {
    V4(u32),
    V6(u128),
}

/// 127.0.0.1 as a number.
pub const LOOPBACK_V4: u32 = 0x7f00_0001;

/// 127.0.0.1, the key of a request whose client cannot be told.
pub open spec fn loopback() -> IpKey {
    IpKey::V4(LOOPBACK_V4)
}

/// The bytes a header value may hold to count as text: printable ASCII
/// and the tab.
pub open spec fn is_visible_ascii(b: u8) -> bool {
    (32 <= b < 127) || b == 9
}

/// Whether every byte of `s` is visible ASCII.
pub open spec fn is_header_text(s: Seq<u8>) -> bool {
    forall|i: int| 0 <= i < s.len() ==> is_visible_ascii(#[trigger] s[i])
}

/// ASCII white space: tab, line feed, vertical tab, form feed, carriage
/// return and space.
pub open spec fn is_space(b: u8) -> bool {
    (9 <= b <= 13) || b == 32
}

/// The characters that may wrap an address in a `Forwarded` header: the
/// double quote and the square brackets.
pub open spec fn is_wrapper(b: u8) -> bool {
    b == 0x22 || b == 0x5b || b == 0x5d
}

/// Which bytes a trim takes off.
#[derive(Debug, Clone, Copy, PartialEq, Eq, Structural)]
pub enum Trim {
    Space,
    Wrapper,
}

impl Trim {
    /// Whether the trim takes `b` off.
    pub open spec fn takes(self, b: u8) -> bool {
        match self {
            Trim::Space => is_space(b),
            Trim::Wrapper => is_wrapper(b),
        }
    }

    fn takes_byte(self, b: u8) -> (r: bool)
        ensures
            r == self.takes(b),
    {
        match self {
            Trim::Space => (9 <= b && b <= 13) || b == 32,
            Trim::Wrapper => b == 0x22 || b == 0x5b || b == 0x5d,
        }
    }
}

/// `s` without the leading bytes that `t` takes.
pub open spec fn trimmed_start(s: Seq<u8>, t: Trim) -> Seq<u8>
    decreases s.len(),
{
    if s.len() > 0 && t.takes(s[0]) {
        trimmed_start(s.skip(1), t)
    } else {
        s
    }
}

/// `s` without the trailing bytes that `t` takes.
pub open spec fn trimmed_end(s: Seq<u8>, t: Trim) -> Seq<u8>
    decreases s.len(),
{
    if s.len() > 0 && t.takes(s.last()) {
        trimmed_end(s.drop_last(), t)
    } else {
        s
    }
}

/// `s` without the bytes that `t` takes at either end.
pub open spec fn trimmed(s: Seq<u8>, t: Trim) -> Seq<u8> {
    trimmed_end(trimmed_start(s, t), t)
}

/// The pieces of `s` between occurrences of `sep`, in order. A text without
/// `sep` is one piece; two adjacent separators enclose an empty piece.
pub open spec fn split_on(s: Seq<u8>, sep: u8) -> Seq<Seq<u8>>
    decreases s.len(),
{
    if s.len() == 0 {
        seq![s]
    } else if s.last() == sep {
        split_on(s.drop_last(), sep).push(Seq::empty())
    } else {
        let before = split_on(s.drop_last(), sep);
        before.drop_last().push(before.last().push(s.last()))
    }
}

/// The views of a list of byte strings.
pub open spec fn texts(v: Seq<Vec<u8>>) -> Seq<Seq<u8>> {
    Seq::new(v.len(), |i: int| v[i]@)
}

/// Splits `s` at every `sep`.
pub fn split_bytes(s: &[u8], sep: u8) -> (pieces: Vec<Vec<u8>>)
    ensures
        texts(pieces@) == split_on(s@, sep),
{
    let mut pieces: Vec<Vec<u8>> = Vec::new();
    let mut current: Vec<u8> = Vec::new();
    let mut i: usize = 0;
    assert(s@.take(0) =~= Seq::<u8>::empty());
    assert(texts(pieces@).push(current@) =~= split_on(s@.take(0), sep));
    while i < s.len()
        invariant
            i <= s.len(),
            texts(pieces@).push(current@) == split_on(s@.take(i as int), sep),
        decreases s.len() - i,
    {
        let b = s[i];
        let ghost prefix = s@.take(i as int);
        let ghost next = s@.take(i + 1);
        assert(next.drop_last() =~= prefix);
        assert(next.last() == b);
        if b == sep {
            let ghost before = texts(pieces@).push(current@);
            pieces.push(current);
            current = Vec::new();
            assert(texts(pieces@) =~= before);
            assert(texts(pieces@).push(current@) =~= split_on(next, sep));
        } else {
            let ghost before = texts(pieces@).push(current@);
            current.push(b);
            assert(before.drop_last() =~= texts(pieces@));
            assert(texts(pieces@).push(current@) =~= split_on(next, sep));
        }
        i += 1;
    }
    assert(s@.take(s.len() as int) =~= s@);
    let ghost before = texts(pieces@).push(current@);
    pieces.push(current);
    assert(texts(pieces@) =~= before);
    pieces
}

/// Takes off both ends of `s` the bytes that `t` takes.
pub fn trim_bytes(s: &[u8], t: Trim) -> (r: Vec<u8>)
    ensures
        r@ == trimmed(s@, t),
{
    let mut lo: usize = 0;
    assert(s@.skip(0) =~= s@);
    while lo < s.len() && t.takes_byte(s[lo])
        invariant
            lo <= s.len(),
            trimmed_start(s@, t) == trimmed_start(s@.skip(lo as int), t),
        decreases s.len() - lo,
    {
        assert(s@.skip(lo as int).skip(1) =~= s@.skip(lo + 1));
        lo += 1;
    }
    let mut hi: usize = s.len();
    assert(s@.subrange(lo as int, hi as int) =~= s@.skip(lo as int));
    while hi > lo && t.takes_byte(s[hi - 1])
        invariant
            lo <= hi <= s.len(),
            trimmed(s@, t) == trimmed_end(s@.subrange(lo as int, hi as int), t),
        decreases hi,
    {
        assert(s@.subrange(lo as int, hi as int).drop_last() =~= s@.subrange(
            lo as int,
            hi - 1,
        ));
        hi -= 1;
    }
    let mut r: Vec<u8> = Vec::new();
    let mut i: usize = lo;
    while i < hi
        invariant
            lo <= i <= hi <= s.len(),
            r@ == s@.subrange(lo as int, i as int),
        decreases hi - i,
    {
        r.push(s[i]);
        assert(r@ =~= s@.subrange(lo as int, i + 1));
        i += 1;
    }
    r
}

/// Whether every byte of `s` is visible ASCII.
pub fn header_is_text(s: &[u8]) -> (r: bool)
    ensures
        r == is_header_text(s@),
{
    let mut i: usize = 0;
    while i < s.len()
        invariant
            i <= s.len(),
            forall|j: int| 0 <= j < i ==> is_visible_ascii(#[trigger] s@[j]),
        decreases s.len() - i,
    {
        let b = s[i];
        if !((32 <= b && b < 127) || b == 9) {
            return false;
        }
        i += 1;
    }
    true
}

/// The lower-case form of an ASCII letter; any other byte is itself.
pub open spec fn ascii_lower(b: u8) -> u8 {
    if 0x41 <= b <= 0x5a {
        (b + 32) as u8
    } else {
        b
    }
}

/// Whether `s` begins with `for=`, in any mix of upper and lower case.
pub open spec fn names_for(s: Seq<u8>) -> bool {
    &&& s.len() >= 4
    &&& ascii_lower(s[0]) == 0x66
    &&& ascii_lower(s[1]) == 0x6f
    &&& ascii_lower(s[2]) == 0x72
    &&& s[3] == 0x3d
}

/// What one part of a `Forwarded` header offers as an address: for a part
/// that, white space aside, begins with `for=`, the rest without the quotes
/// and brackets around it; for any other part nothing.
pub open spec fn forwarded_part_value(part: Seq<u8>) -> Option<Seq<u8>> {
    let inner = trimmed(part, Trim::Space);
    if names_for(inner) {
        Some(trimmed(inner.skip(4), Trim::Wrapper))
    } else {
        None
    }
}

/// The values that the parts offer, in the order of the parts.
pub open spec fn forwarded_values(parts: Seq<Seq<u8>>) -> Seq<Seq<u8>>
    decreases parts.len(),
{
    if parts.len() == 0 {
        Seq::empty()
    } else {
        let before = forwarded_values(parts.drop_last());
        match forwarded_part_value(parts.last()) {
            Some(value) => before.push(value),
            None => before,
        }
    }
}

/// Each piece without the white space at its ends.
pub open spec fn space_trimmed(parts: Seq<Seq<u8>>) -> Seq<Seq<u8>> {
    Seq::new(parts.len(), |i: int| trimmed(parts[i], Trim::Space))
}

/// The texts an `X-Forwarded-For` header offers: its comma-separated
/// pieces, trimmed. A header that is not text offers nothing.
pub open spec fn x_forwarded_for_texts(value: Seq<u8>) -> Seq<Seq<u8>> {
    if is_header_text(value) {
        space_trimmed(split_on(value, 0x2c))
    } else {
        Seq::empty()
    }
}

/// The text an `X-Real-IP` header offers: all of it, as it is. A header
/// that is not text offers nothing.
pub open spec fn x_real_ip_texts(value: Seq<u8>) -> Seq<Seq<u8>> {
    if is_header_text(value) {
        seq![value]
    } else {
        Seq::empty()
    }
}

/// The texts a `Forwarded` header offers: the value of each `for=` among
/// its semicolon-separated parts. A header that is not text offers nothing.
pub open spec fn forwarded_texts(value: Seq<u8>) -> Seq<Seq<u8>> {
    if is_header_text(value) {
        forwarded_values(split_on(value, 0x3b))
    } else {
        Seq::empty()
    }
}

/// What a header that may be absent offers.
pub open spec fn offered(value: Option<Vec<u8>>, texts_of: spec_fn(Seq<u8>) -> Seq<Seq<u8>>) -> Seq<
    Seq<u8>,
> {
    match value {
        Some(bytes) => texts_of(bytes@),
        None => Seq::empty(),
    }
}

/// The three headers that may name the client, as raw bytes.
#[derive(Debug, Clone)]
pub struct ProxyHeaders {
    pub x_forwarded_for: Option<Vec<u8>>,
    pub x_real_ip: Option<Vec<u8>>,
    pub forwarded: Option<Vec<u8>>,
}

impl ProxyHeaders {
    /// What `X-Forwarded-For` offers.
    pub open spec fn from_x_forwarded_for(&self) -> Seq<Seq<u8>> {
        offered(self.x_forwarded_for, |v: Seq<u8>| x_forwarded_for_texts(v))
    }

    /// What `X-Real-IP` offers.
    pub open spec fn from_x_real_ip(&self) -> Seq<Seq<u8>> {
        offered(self.x_real_ip, |v: Seq<u8>| x_real_ip_texts(v))
    }

    /// What `Forwarded` offers.
    pub open spec fn from_forwarded(&self) -> Seq<Seq<u8>> {
        offered(self.forwarded, |v: Seq<u8>| forwarded_texts(v))
    }

    /// All the texts that may hold the client's address, in the order in
    /// which they are to be tried.
    pub open spec fn candidates(&self) -> Seq<Seq<u8>> {
        self.from_x_forwarded_for() + self.from_x_real_ip() + self.from_forwarded()
    }
}

fn copy_bytes(s: &[u8]) -> (r: Vec<u8>)
    ensures
        r@ == s@,
{
    let mut r: Vec<u8> = Vec::new();
    let mut i: usize = 0;
    while i < s.len()
        invariant
            i <= s.len(),
            r@ == s@.take(i as int),
        decreases s.len() - i,
    {
        r.push(s[i]);
        assert(r@ =~= s@.take(i + 1));
        i += 1;
    }
    assert(s@.take(s.len() as int) =~= s@);
    r
}

fn lower_byte(b: u8) -> (r: u8)
    ensures
        r == ascii_lower(b),
{
    if 0x41 <= b && b <= 0x5a {
        b + 32
    } else {
        b
    }
}

/// What one part of a `Forwarded` header offers as an address.
pub fn forwarded_part(part: &[u8]) -> (r: Option<Vec<u8>>)
    ensures
        match forwarded_part_value(part@) {
            Some(value) => r matches Some(found) && found@ == value,
            None => r is None,
        },
{
    let inner = trim_bytes(part, Trim::Space);
    if inner.len() >= 4 && lower_byte(inner[0]) == 0x66 && lower_byte(inner[1]) == 0x6f
        && lower_byte(inner[2]) == 0x72 && inner[3] == 0x3d {
        let mut rest: Vec<u8> = Vec::new();
        let mut i: usize = 4;
        while i < inner.len()
            invariant
                4 <= i <= inner.len(),
                rest@ == inner@.subrange(4, i as int),
            decreases inner.len() - i,
        {
            rest.push(inner[i]);
            assert(rest@ =~= inner@.subrange(4, i + 1));
            i += 1;
        }
        assert(rest@ =~= inner@.skip(4));
        Some(trim_bytes(rest.as_slice(), Trim::Wrapper))
    } else {
        None
    }
}

/// Appends to `out` what an `X-Forwarded-For` header offers.
fn push_x_forwarded_for(out: &mut Vec<Vec<u8>>, value: &[u8])
    ensures
        texts(final(out)@) == texts(old(out)@) + x_forwarded_for_texts(value@),
{
    if !header_is_text(value) {
        assert(texts(out@) =~= texts(out@) + Seq::<Seq<u8>>::empty());
        return ;
    }
    let pieces = split_bytes(value, 0x2c);
    let ghost all = space_trimmed(split_on(value@, 0x2c));
    let mut i: usize = 0;
    assert(texts(out@) =~= texts(old(out)@) + all.take(0));
    while i < pieces.len()
        invariant
            i <= pieces.len(),
            texts(pieces@) == split_on(value@, 0x2c),
            all == space_trimmed(split_on(value@, 0x2c)),
            texts(out@) == texts(old(out)@) + all.take(i as int),
        decreases pieces.len() - i,
    {
        let piece = trim_bytes(pieces[i].as_slice(), Trim::Space);
        assert(texts(pieces@)[i as int] == pieces@[i as int]@);
        assert(all.len() == pieces@.len());
        assert(all[i as int] == piece@);
        let ghost before = texts(out@);
        out.push(piece);
        assert(texts(out@) =~= before.push(piece@));
        assert(all.take(i + 1) =~= all.take(i as int).push(all[i as int]));
        assert(texts(out@) =~= texts(old(out)@) + all.take(i + 1));
        i += 1;
    }
    assert(all.take(pieces.len() as int) =~= all);
}

/// Appends to `out` what a `Forwarded` header offers.
fn push_forwarded(out: &mut Vec<Vec<u8>>, value: &[u8])
    ensures
        texts(final(out)@) == texts(old(out)@) + forwarded_texts(value@),
{
    if !header_is_text(value) {
        assert(texts(out@) =~= texts(out@) + Seq::<Seq<u8>>::empty());
        return ;
    }
    let pieces = split_bytes(value, 0x3b);
    let ghost parts = split_on(value@, 0x3b);
    let mut i: usize = 0;
    assert(parts.take(0) =~= Seq::<Seq<u8>>::empty());
    assert(texts(out@) =~= texts(old(out)@) + forwarded_values(parts.take(0)));
    while i < pieces.len()
        invariant
            i <= pieces.len(),
            texts(pieces@) == parts,
            texts(out@) == texts(old(out)@) + forwarded_values(parts.take(i as int)),
        decreases pieces.len() - i,
    {
        assert(parts[i as int] == pieces@[i as int]@);
        assert(parts.take(i + 1).drop_last() =~= parts.take(i as int));
        assert(parts.take(i + 1).last() == parts[i as int]);
        let ghost before = texts(out@);
        match forwarded_part(pieces[i].as_slice()) {
            Some(found) => {
                out.push(found);
                assert(texts(out@) =~= before.push(found@));
                assert(texts(out@) =~= texts(old(out)@) + forwarded_values(parts.take(i + 1)));
            },
            None => {
                assert(texts(out@) =~= texts(old(out)@) + forwarded_values(parts.take(i + 1)));
            },
        }
        i += 1;
    }
    assert(parts.take(pieces.len() as int) =~= parts);
}

/// The first key in the list, if any text was an address.
pub open spec fn first_valid(parsed: Seq<Option<IpKey>>) -> Option<IpKey>
    decreases parsed.len(),
{
    if parsed.len() == 0 {
        None
    } else {
        match parsed[0] {
            Some(key) => Some(key),
            None => first_valid(parsed.skip(1)),
        }
    }
}

/// The key of a request: the first candidate that was an address, else the
/// address of the peer, else the loopback address.
pub open spec fn chosen_key(parsed: Seq<Option<IpKey>>, peer: Option<IpKey>) -> IpKey {
    match first_valid(parsed) {
        Some(key) => key,
        None => match peer {
            Some(key) => key,
            None => loopback(),
        },
    }
}

/// Finds the key of a request without ever failing: where nothing names
/// the client, the loopback address is the key.
#[derive(Debug, Clone, Copy, PartialEq, Eq, Structural)]
pub struct FallbackIpKeyExtractor;

impl FallbackIpKeyExtractor {
    /// The texts that may hold the client's address, in the order in which
    /// they are to be tried: what `X-Forwarded-For` offers, then
    /// `X-Real-IP`, then `Forwarded`.
    pub fn candidates(&self, headers: &ProxyHeaders) -> (found: Vec<Vec<u8>>)
        ensures
            texts(found@) == headers.candidates(),
    {
        let mut found: Vec<Vec<u8>> = Vec::new();
        assert(texts(found@) =~= Seq::<Seq<u8>>::empty());
        match &headers.x_forwarded_for {
            Some(value) => {
                push_x_forwarded_for(&mut found, value.as_slice());
            },
            None => {},
        }
        assert(texts(found@) =~= headers.from_x_forwarded_for());
        match &headers.x_real_ip {
            Some(value) => {
                if header_is_text(value.as_slice()) {
                    let ghost before = texts(found@);
                    found.push(copy_bytes(value.as_slice()));
                    assert(texts(found@) =~= before + seq![value@]);
                }
            },
            None => {},
        }
        assert(texts(found@) =~= headers.from_x_forwarded_for() + headers.from_x_real_ip());
        match &headers.forwarded {
            Some(value) => {
                push_forwarded(&mut found, value.as_slice());
            },
            None => {},
        }
        assert(texts(found@) =~= headers.candidates());
        found
    }

    /// The key of a request. `parsed` says of each candidate, in order,
    /// which address it is, or `None` where it is no address; `peer` is the
    /// address the connection came from, where that is known.
    pub fn extract(&self, parsed: &Vec<Option<IpKey>>, peer: Option<IpKey>) -> (key: IpKey)
        ensures
            key == chosen_key(parsed@, peer),
    {
        let mut i: usize = 0;
        assert(parsed@.skip(0) =~= parsed@);
        while i < parsed.len()
            invariant
                i <= parsed.len(),
                first_valid(parsed@) == first_valid(parsed@.skip(i as int)),
            decreases parsed.len() - i,
        {
            match parsed[i] {
                Some(key) => {
                    return key;
                },
                None => {},
            }
            assert(parsed@.skip(i as int).skip(1) =~= parsed@.skip(i + 1));
            i += 1;
        }
        match peer {
            Some(key) => key,
            None => IpKey::V4(LOOPBACK_V4),
        }
    }
}

/// The first valid key of two lists in a row is that of the first list, or
/// where that has none, that of the second.
pub proof fn lemma_first_valid_concat(a: Seq<Option<IpKey>>, b: Seq<Option<IpKey>>)
    ensures
        first_valid(a + b) == match first_valid(a) {
            Some(key) => Some(key),
            None => first_valid(b),
        },
    decreases a.len(),
{
    if a.len() == 0 {
        assert(a + b =~= b);
    } else {
        assert((a + b).skip(1) =~= a.skip(1) + b);
        lemma_first_valid_concat(a.skip(1), b);
    }
}

/// Where `X-Forwarded-For` holds a valid address, the key is the first
/// valid address in it, whatever `X-Real-IP`, `Forwarded` and the peer say.
pub proof fn lemma_x_forwarded_for_wins(
    headers: ProxyHeaders,
    parsed: Seq<Option<IpKey>>,
    peer: Option<IpKey>,
)
    requires
        parsed.len() == headers.candidates().len(),
        first_valid(parsed.take(headers.from_x_forwarded_for().len() as int)) is Some,
    ensures
        chosen_key(parsed, peer) == first_valid(
            parsed.take(headers.from_x_forwarded_for().len() as int),
        )->0,
{
    let n = headers.from_x_forwarded_for().len() as int;
    assert(parsed =~= parsed.take(n) + parsed.skip(n));
    lemma_first_valid_concat(parsed.take(n), parsed.skip(n));
}

/// The key never fails to exist: with no valid candidate and no peer it is
/// the loopback address, and with a peer it is the peer.
pub proof fn lemma_key_falls_back(parsed: Seq<Option<IpKey>>, peer: Option<IpKey>)
    requires
        first_valid(parsed) is None,
    ensures
        peer is None ==> chosen_key(parsed, peer) == loopback(),
        peer matches Some(key) ==> chosen_key(parsed, peer) == key,
{
}

} // verus!
