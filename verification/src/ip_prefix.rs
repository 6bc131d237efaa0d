//! Client identity: a full IPv4 address or the /64 prefix of an IPv6 address.

use vstd::prelude::*;
use crate::encoding::{hex_decode, hex_decoding, lemma_hex_round_trip};
use crate::text::{decimal_text, hex_pair, hex_text, push_decimal, push_hex, push_hex_pair};

verus! {

/// A network address as the transport layer or a proxy header gives it.
#[derive(Debug, Clone, Copy, PartialEq, Eq)]
pub enum IpAddress {
    V4([u8; 4]),
    V6([u8; 16]),
}

/// Stores either a full IPv4 address or a /64 IPv6 subnet.
///
/// Used for rate limiting and identifying uploading clients.
#[derive(Debug, Clone, Copy, PartialEq, Eq, Hash)]
pub enum IpPrefix {
    V4([u8; 4]),
    V6([u8; 8]),
}

/// The canonical text of a prefix was malformed.
#[derive(Debug, PartialEq, Eq, Clone, Copy)]
pub struct UploadIpPrefixParseError;

/// The identity that a request was found to come from.
#[derive(Debug, PartialEq, Eq)]
pub struct ExtractIpPrefix(pub IpPrefix);

impl IpPrefix {
    /// The bytes that the prefix keeps: four for IPv4, eight for IPv6.
    pub open spec fn octets(self) -> Seq<u8> {
        match self {
            IpPrefix::V4(a) => a@,
            IpPrefix::V6(a) => a@,
        }
    }

    /// The three characters that open the canonical text.
    pub open spec fn tag(self) -> Seq<char> {
        match self {
            IpPrefix::V4(_) => seq!['v', '4', '_'],
            IpPrefix::V6(_) => seq!['v', '6', '_'],
        }
    }

    /// The canonical text: the tag, then the kept bytes in lower-case
    /// hexadecimal. It has a fixed width for each kind of address.
    pub open spec fn canonical(self) -> Seq<char> {
        self.tag() + hex_text(self.octets())
    }

    /// Whether `s` is a text that parses to this prefix.
    pub open spec fn parses_from(self, s: Seq<char>) -> bool {
        &&& s.len() >= 3
        &&& s.take(3) == self.tag()
        &&& hex_decoding(s.skip(3)) == Some(self.octets())
    }

    /// The human-readable text: dotted decimal for IPv4, four colon-separated
    /// groups and `::/64` for IPv6.
    pub open spec fn pretty(self) -> Seq<char> {
        match self {
            IpPrefix::V4(a) => decimal_text(a@[0] as nat) + seq!['.'] + decimal_text(a@[1] as nat)
                + seq!['.'] + decimal_text(a@[2] as nat) + seq!['.'] + decimal_text(a@[3] as nat),
            IpPrefix::V6(a) => hex_pair(a@[0]) + hex_pair(a@[1]) + seq![':'] + hex_pair(a@[2])
                + hex_pair(a@[3]) + seq![':'] + hex_pair(a@[4]) + hex_pair(a@[5]) + seq![':']
                + hex_pair(a@[6]) + hex_pair(a@[7]) + seq![':', ':', '/', '6', '4'],
        }
    }

    /// A number that stands for the prefix where a number is needed as a key:
    /// the kept bytes read as one big-endian number, and 2^64 added for IPv6.
    /// Different prefixes have different keys.
    pub open spec fn key(self) -> u128 {
        match self {
            IpPrefix::V4(a) => big_endian(a@) as u128,
            IpPrefix::V6(a) => (0x1_0000_0000_0000_0000 + big_endian(a@)) as u128,
        }
    }

    /// The key of the prefix.
    pub fn to_key(&self) -> (k: u128)
        ensures
            k == self.key(),
    {
        match self {
            IpPrefix::V4(a) => read_big_endian(a.as_slice()),
            IpPrefix::V6(a) => 0x1_0000_0000_0000_0000 + read_big_endian(a.as_slice()),
        }
    }

    /// The prefix of an address: an IPv4 address whole, an IPv6 address cut
    /// down to its first eight bytes.
    pub open spec fn of_address(addr: IpAddress) -> IpPrefix {
        match addr {
            IpAddress::V4(a) => IpPrefix::V4(a),
            IpAddress::V6(a) => IpPrefix::V6([a@[0], a@[1], a@[2], a@[3], a@[4], a@[5], a@[6], a@[7]]),
        }
    }

    /// Converts an address to its prefix. Infallible.
    pub fn from_address(addr: IpAddress) -> (p: IpPrefix)
        ensures
            p == IpPrefix::of_address(addr),
            addr matches IpAddress::V4(a) ==> p.octets() == a@,
            addr matches IpAddress::V6(a) ==> p.octets() == a@.take(8),
            addr is V4 <==> p is V4,
    {
        match addr {
            IpAddress::V4(a) => IpPrefix::V4(a),
            IpAddress::V6(a) => {
                let p = IpPrefix::V6([a[0], a[1], a[2], a[3], a[4], a[5], a[6], a[7]]);
                assert(p.octets() =~= a@.take(8));
                p
            },
        }
    }

    /// The canonical fixed-width text of the prefix, as it is stored and logged.
    pub fn to_string(&self) -> (s: String)
        ensures
            s@ == self.canonical(),
    {
        match self {
            IpPrefix::V4(a) => {
                let mut out = "v4_".to_owned();
                proof {
                    reveal_strlit("v4_");
                    assert(out@ =~= self.tag());
                }
                push_hex(&mut out, a.as_slice());
                out
            },
            IpPrefix::V6(a) => {
                let mut out = "v6_".to_owned();
                proof {
                    reveal_strlit("v6_");
                    assert(out@ =~= self.tag());
                }
                push_hex(&mut out, a.as_slice());
                out
            },
        }
    }

    /// Prints the contained IP-Prefix in pretty / human-readable notation for logging.
    pub fn pretty_print(&self) -> (s: String)
        ensures
            s@ == self.pretty(),
    {
        let mut out = String::new();
        match self {
            IpPrefix::V4(a) => {
                push_decimal(&mut out, a[0] as u64);
                out.push('.');
                push_decimal(&mut out, a[1] as u64);
                out.push('.');
                push_decimal(&mut out, a[2] as u64);
                out.push('.');
                push_decimal(&mut out, a[3] as u64);
                assert(out@ =~= self.pretty());
            },
            IpPrefix::V6(a) => {
                push_hex_pair(&mut out, a[0]);
                push_hex_pair(&mut out, a[1]);
                out.push(':');
                push_hex_pair(&mut out, a[2]);
                push_hex_pair(&mut out, a[3]);
                out.push(':');
                push_hex_pair(&mut out, a[4]);
                push_hex_pair(&mut out, a[5]);
                out.push(':');
                push_hex_pair(&mut out, a[6]);
                push_hex_pair(&mut out, a[7]);
                out.append("::/64");
                proof {
                    reveal_strlit("::/64");
                    assert("::/64"@ =~= seq![':', ':', '/', '6', '4']);
                }
                assert(out@ =~= self.pretty());
            },
        }
        out
    }

    /// Parses the canonical text back into a prefix. The text is the tag
    /// `v4_` and eight hexadecimal digits, or `v6_` and sixteen; the digits may
    /// be of either case. Everything else is an error.
    pub fn from_str(s: &str) -> (r: Result<IpPrefix, UploadIpPrefixParseError>)
        ensures
            match r {
                Ok(p) => p.parses_from(s@),
                Err(_) => forall|p: IpPrefix| !p.parses_from(s@),
            },
    {
        let n = s.unicode_len();
        if n != 11 && n != 19 {
            proof {
                assert forall|p: IpPrefix| !p.parses_from(s@) by {
                    if p.parses_from(s@) {
                        assert(hex_decoding(s@.skip(3)).unwrap().len() == p.octets().len());
                    }
                }
            }
            return Err(UploadIpPrefixParseError);
        }
        let c0 = s.get_char(0);
        let c1 = s.get_char(1);
        let c2 = s.get_char(2);
        if c0 != 'v' || c2 != '_' || (c1 != '4' && c1 != '6') {
            proof {
                assert forall|p: IpPrefix| !p.parses_from(s@) by {
                    if p.parses_from(s@) {
                        assert(s@.take(3)[0] == s@[0]);
                        assert(s@.take(3)[1] == s@[1]);
                        assert(s@.take(3)[2] == s@[2]);
                    }
                }
            }
            return Err(UploadIpPrefixParseError);
        }
        let rest = s.substring_char(3, n);
        assert(rest@ =~= s@.skip(3));
        match hex_decode(rest) {
            None => Err(UploadIpPrefixParseError),
            Some(o) => {
                if c1 == '4' && o.len() == 4 {
                    let p = IpPrefix::V4([o[0], o[1], o[2], o[3]]);
                    proof {
                        assert(p.octets() =~= o@);
                        assert(s@.take(3) =~= p.tag());
                    }
                    Ok(p)
                } else if c1 == '6' && o.len() == 8 {
                    let p = IpPrefix::V6([o[0], o[1], o[2], o[3], o[4], o[5], o[6], o[7]]);
                    proof {
                        assert(p.octets() =~= o@);
                        assert(s@.take(3) =~= p.tag());
                    }
                    Ok(p)
                } else {
                    proof {
                        assert forall|p: IpPrefix| !p.parses_from(s@) by {
                            if p.parses_from(s@) {
                                assert(s@.take(3)[1] == s@[1]);
                            }
                        }
                    }
                    Err(UploadIpPrefixParseError)
                }
            },
        }
    }
}

/// The canonical text of a prefix parses back to that prefix: nothing is lost
/// in storage.
pub proof fn lemma_canonical_round_trip(p: IpPrefix)
    ensures
        p.parses_from(p.canonical()),
{
    let s = p.canonical();
    lemma_hex_round_trip(p.octets());
    assert(s.take(3) =~= p.tag());
    assert(s.skip(3) =~= hex_text(p.octets()));
}

/// A text parses to at most one prefix.
pub proof fn lemma_parse_unique(s: Seq<char>, p: IpPrefix, q: IpPrefix)
    requires
        p.parses_from(s),
        q.parses_from(s),
    ensures
        p == q,
{
    assert(p.tag()[1] == q.tag()[1]);
    match (p, q) {
        (IpPrefix::V4(a), IpPrefix::V4(b)) => {
            assert(a@ == b@);
            assert(a =~= b);
        },
        (IpPrefix::V6(a), IpPrefix::V6(b)) => {
            assert(a@ == b@);
            assert(a =~= b);
        },
        _ => {},
    }
}

/// Two prefixes with the same canonical text are the same prefix: the text can
/// stand for the identity wherever it is stored or compared.
pub proof fn lemma_canonical_injective(p: IpPrefix, q: IpPrefix)
    requires
        p.canonical() == q.canonical(),
    ensures
        p == q,
{
    lemma_canonical_round_trip(p);
    lemma_canonical_round_trip(q);
    lemma_parse_unique(p.canonical(), p, q);
}

/// The number that a byte string denotes when read with the first byte as
/// the most significant.
pub open spec fn big_endian(bytes: Seq<u8>) -> nat
    decreases bytes.len(),
{
    if bytes.len() == 0 {
        0
    } else {
        big_endian(bytes.drop_last()) * 256 + bytes.last() as nat
    }
}

/// Reads up to eight bytes as one number, the first byte the most
/// significant.
fn read_big_endian(bytes: &[u8]) -> (k: u128)
    requires
        bytes@.len() <= 8,
    ensures
        k == big_endian(bytes@),
        k < 0x1_0000_0000_0000_0000,
{
    let mut k: u128 = 0;
    let mut i: usize = 0;
    while i < bytes.len()
        invariant
            i <= bytes.len() <= 8,
            k == big_endian(bytes@.take(i as int)),
            k < 0x1_0000_0000_0000_0000,
        decreases bytes.len() - i,
    {
        proof {
            assert(bytes@.take(i + 1).drop_last() =~= bytes@.take(i as int));
            lemma_big_endian_bound(bytes@.take(i + 1));
        }
        k = k * 256 + bytes[i] as u128;
        i += 1;
    }
    assert(bytes@.take(bytes.len() as int) =~= bytes@);
    k
}

/// 256 to the power of `n`.
pub open spec fn pow256(n: nat) -> nat
    decreases n,
{
    if n == 0 {
        1
    } else {
        256 * pow256((n - 1) as nat)
    }
}

/// A byte string of length `n` denotes a number below 256 to the `n`.
pub proof fn lemma_big_endian_bound(bytes: Seq<u8>)
    ensures
        big_endian(bytes) < pow256(bytes.len()),
        bytes.len() <= 4 ==> big_endian(bytes) < 0x1_0000_0000,
        bytes.len() <= 8 ==> big_endian(bytes) < 0x1_0000_0000_0000_0000,
    decreases bytes.len(),
{
    reveal_with_fuel(pow256, 9);
    if bytes.len() > 0 {
        lemma_big_endian_bound(bytes.drop_last());
    }
}

/// Byte strings of one length that denote the same number are the same.
pub proof fn lemma_big_endian_injective(a: Seq<u8>, b: Seq<u8>)
    requires
        a.len() == b.len(),
        big_endian(a) == big_endian(b),
    ensures
        a == b,
    decreases a.len(),
{
    if a.len() > 0 {
        lemma_big_endian_injective(a.drop_last(), b.drop_last());
        assert(a =~= a.drop_last().push(a.last()));
        assert(b =~= b.drop_last().push(b.last()));
    } else {
        assert(a =~= b);
    }
}

/// Different prefixes have different keys.
pub proof fn lemma_key_injective(p: IpPrefix, q: IpPrefix)
    requires
        p.key() == q.key(),
    ensures
        p == q,
{
    lemma_big_endian_bound(p.octets());
    lemma_big_endian_bound(q.octets());
    match (p, q) {
        (IpPrefix::V4(a), IpPrefix::V4(b)) => {
            lemma_big_endian_injective(a@, b@);
            assert(a =~= b);
        },
        (IpPrefix::V6(a), IpPrefix::V6(b)) => {
            lemma_big_endian_injective(a@, b@);
            assert(a =~= b);
        },
        _ => {},
    }
}

} // verus!
