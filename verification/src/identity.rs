//! Finding the client's identity: the peer of the connection, or the entry
//! of the forwarded-address header that the trusted proxies vouch for.

use vstd::prelude::*;
use crate::error_handling::{AppError, StatusCode};
use crate::ip_prefix::{ExtractIpPrefix, IpAddress, IpPrefix};
use crate::text::chars_of;

verus! {

/// Whether a character parts the entries of the header: a space or a comma.
pub open spec fn is_separator(c: char) -> bool {
    c == ' ' || c == ','
}

/// The entry that is being read, as a list of one, or nothing where no entry
/// is open.
pub open spec fn closed_entry(current: Seq<char>) -> Seq<Seq<char>> {
    if current.len() > 0 {
        seq![current]
    } else {
        Seq::empty()
    }
}

/// The entries of the rest `s` of a header, `current` being the characters of
/// the entry that is open at its start.
pub open spec fn entries_from(s: Seq<char>, current: Seq<char>) -> Seq<Seq<char>>
    decreases s.len(),
{
    if s.len() == 0 {
        closed_entry(current)
    } else if is_separator(s[0]) {
        closed_entry(current) + entries_from(s.skip(1), Seq::empty())
    } else {
        entries_from(s.skip(1), current.push(s[0]))
    }
}

/// The entries of a forwarded-address header in their order, the nearest
/// proxy's last: the longest runs of characters that hold neither a space nor
/// a comma.
pub open spec fn forwarded_entries(header: Seq<char>) -> Seq<Seq<char>> {
    entries_from(header, Seq::empty())
}

/// The entry that `proxy_depth` trusted proxies vouch for: the one that many
/// places from the end. There is none where the depth is zero or the header
/// has fewer entries than that.
pub open spec fn selected_entry(header: Seq<char>, proxy_depth: u64) -> Option<Seq<char>> {
    let entries = forwarded_entries(header);
    if 1 <= proxy_depth <= entries.len() {
        Some(entries[entries.len() - proxy_depth])
    } else {
        None
    }
}

/// The texts of a list of strings.
pub open spec fn texts_of(entries: Seq<String>) -> Seq<Seq<char>> {
    Seq::new(entries.len(), |i: int| entries[i]@)
}

/// Parts a forwarded-address header into its entries.
pub fn split_forwarded(header: &str) -> (entries: Vec<String>)
    ensures
        texts_of(entries@) == forwarded_entries(header@),
{
    let chars = chars_of(header);
    let mut entries: Vec<String> = Vec::new();
    let mut current = String::new();
    let mut i: usize = 0;
    proof {
        assert(chars@.skip(0) =~= chars@);
        assert(texts_of(entries@) + entries_from(chars@.skip(0), current@) =~= forwarded_entries(
            header@,
        ));
    }
    while i < chars.len()
        invariant
            i <= chars.len(),
            chars@ == header@,
            texts_of(entries@) + entries_from(chars@.skip(i as int), current@)
                == forwarded_entries(header@),
        decreases chars.len() - i,
    {
        let c = chars[i];
        let ghost rest = chars@.skip(i as int);
        let ghost before = entries@;
        proof {
            assert(rest[0] == c);
            assert(rest.skip(1) =~= chars@.skip(i + 1));
        }
        if c == ' ' || c == ',' {
            if current.as_str().unicode_len() > 0 {
                let ghost closed = current@;
                entries.push(current);
                current = String::new();
                proof {
                    assert(texts_of(entries@) =~= texts_of(before).push(closed));
                    assert(texts_of(entries@) + entries_from(chars@.skip(i + 1), current@)
                        =~= texts_of(before) + entries_from(rest, closed));
                }
            } else {
                proof {
                    assert(current@ =~= Seq::<char>::empty());
                    assert(texts_of(entries@) + entries_from(chars@.skip(i + 1), current@)
                        =~= texts_of(before) + entries_from(rest, current@));
                }
            }
        } else {
            current.push(c);
        }
        i += 1;
    }
    let ghost before = entries@;
    let ghost last = current@;
    proof {
        assert(chars@.skip(chars.len() as int) =~= Seq::<char>::empty());
    }
    if current.as_str().unicode_len() > 0 {
        entries.push(current);
        proof {
            assert(texts_of(entries@) =~= texts_of(before).push(last));
        }
    }
    proof {
        assert(texts_of(entries@) =~= texts_of(before) + closed_entry(last));
    }
    entries
}

/// The entry of the header that `proxy_depth` trusted proxies vouch for.
pub fn forwarded_entry(header: &str, proxy_depth: u64) -> (r: Option<String>)
    ensures
        match selected_entry(header@, proxy_depth) {
            Some(entry) => r is Some && r->Some_0@ == entry,
            None => r is None,
        },
{
    let mut entries = split_forwarded(header);
    let n = entries.len();
    if proxy_depth == 0 || proxy_depth > n as u64 {
        return None;
    }
    let index: usize = n - proxy_depth as usize;
    let ghost all = entries@;
    proof {
        assert(texts_of(all)[index as int] == all[index as int]@);
    }
    let entry = entries.swap_remove(index);
    Some(entry)
}

/// The message for a request without the address of its peer.
pub open spec fn no_peer_message() -> Seq<char> {
    "failed to extract SocketAddr from request; your reverse-proxy configuration might be incorrect"@
}

/// The message for a request whose forwarded-address header gives no address
/// at the configured depth.
pub open spec fn no_forwarded_message() -> Seq<char> {
    "failed to extract IP from X-Forwarded-For header; your reverse-proxy configuration might be incorrect"@
}

/// The identity of a request, given the address of its peer and the address
/// that the selected entry of its header denotes, each where there is one.
/// With no trusted proxy the peer counts, with one or more the header. A
/// missing address is a fault of the configuration, and so a server error.
pub open spec fn identity_of(
    proxy_depth: u64,
    peer: Option<IpAddress>,
    forwarded: Option<IpAddress>,
) -> Result<IpPrefix, (StatusCode, Seq<char>)> {
    if proxy_depth == 0 {
        match peer {
            Some(addr) => Ok(IpPrefix::of_address(addr)),
            None => Err((StatusCode::INTERNAL_SERVER_ERROR, no_peer_message())),
        }
    } else {
        match forwarded {
            Some(addr) => Ok(IpPrefix::of_address(addr)),
            None => Err((StatusCode::INTERNAL_SERVER_ERROR, no_forwarded_message())),
        }
    }
}

impl ExtractIpPrefix {
    /// Extracts the client's identity from what the request carries.
    ///
    /// With a proxy depth of 0 the peer's address is used. With a depth of 1
    /// or higher the address of the forwarded entry is used, which is the
    /// entry that [`forwarded_entry`] selects.
    pub fn from_request_parts(
        proxy_depth: u64,
        peer: Option<IpAddress>,
        forwarded: Option<IpAddress>,
    ) -> (r: Result<ExtractIpPrefix, AppError>)
        ensures
            match identity_of(proxy_depth, peer, forwarded) {
                Ok(p) => r is Ok && r->Ok_0.0 == p,
                Err(e) => r is Err && r->Err_0@ == e,
            },
    {
        let source = if proxy_depth == 0 {
            match peer {
                Some(addr) => addr,
                None => {
                    return AppError::err(
                        StatusCode::INTERNAL_SERVER_ERROR,
                        "failed to extract SocketAddr from request; your reverse-proxy configuration might be incorrect",
                    );
                },
            }
        } else {
            match forwarded {
                Some(addr) => addr,
                None => {
                    return AppError::err(
                        StatusCode::INTERNAL_SERVER_ERROR,
                        "failed to extract IP from X-Forwarded-For header; your reverse-proxy configuration might be incorrect",
                    );
                },
            }
        };
        Ok(ExtractIpPrefix(IpPrefix::from_address(source)))
    }
}

} // verus!
