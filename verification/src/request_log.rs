//! What the log may say of a request: the query with every capability taken
//! out.

use vstd::prelude::*;
use crate::text::chars_of;

verus! {

/// The name of the parameter that carries a capability, with its equals sign.
pub open spec fn capability_parameter() -> Seq<char> {
    seq!['a', 'd', 'm', 'i', 'n', '=']
}

/// Whether a piece of a query carries a capability.
pub open spec fn carries_capability(piece: Seq<char>) -> bool {
    piece.len() >= 6 && piece.take(6) == capability_parameter()
}

/// A piece of a query as it is logged: a piece that carries a capability is
/// replaced as a whole, every other piece stays.
pub open spec fn logged_piece(piece: Seq<char>) -> Seq<char> {
    if carries_capability(piece) {
        "admin=<REDACTED IN LOGS>"@
    } else {
        piece
    }
}

/// The rest `s` of a query as it is logged, `current` being the characters of
/// the piece that is open at its start.
pub open spec fn logged_from(s: Seq<char>, current: Seq<char>) -> Seq<char>
    decreases s.len(),
{
    if s.len() == 0 {
        logged_piece(current)
    } else if s[0] == '&' {
        logged_piece(current) + seq!['&'] + logged_from(s.skip(1), Seq::empty())
    } else {
        logged_from(s.skip(1), current.push(s[0]))
    }
}

/// A query as it is logged: its pieces between the ampersands, each as it is
/// logged, with the ampersands between them. The capability of a single file
/// is not supposed to be stored anywhere on the server, not even in the logs.
pub open spec fn logged_query(query: Seq<char>) -> Seq<char> {
    logged_from(query, Seq::empty())
}

/// Appends a piece of a query as it is logged.
fn push_logged_piece(out: &mut String, piece: &Vec<char>)
    ensures
        final(out)@ == old(out)@ + logged_piece(piece@),
{
    if piece.len() >= 6 && piece[0] == 'a' && piece[1] == 'd' && piece[2] == 'm' && piece[3] == 'i'
        && piece[4] == 'n' && piece[5] == '=' {
        assert(piece@.take(6) =~= capability_parameter());
        out.append("admin=<REDACTED IN LOGS>");
    } else {
        proof {
            if carries_capability(piece@) {
                let p = piece@.take(6);
                assert(p[0] == piece@[0] && p[1] == piece@[1] && p[2] == piece@[2] && p[3]
                    == piece@[3] && p[4] == piece@[4] && p[5] == piece@[5]);
            }
        }
        let mut i: usize = 0;
        while i < piece.len()
            invariant
                i <= piece.len(),
                out@ == old(out)@ + piece@.take(i as int),
            decreases piece.len() - i,
        {
            out.push(piece[i]);
            proof {
                assert(piece@.take(i + 1) =~= piece@.take(i as int).push(piece@[i as int]));
            }
            i += 1;
        }
        proof {
            assert(piece@.take(piece.len() as int) =~= piece@);
        }
    }
}

/// The query of a request as it may be logged.
pub fn redact_query(query: &str) -> (logged: String)
    ensures
        logged@ == logged_query(query@),
{
    let chars = chars_of(query);
    let mut out = String::new();
    let mut current: Vec<char> = Vec::new();
    let mut i: usize = 0;
    proof {
        assert(chars@.skip(0) =~= chars@);
        assert(out@ + logged_from(chars@.skip(0), current@) =~= logged_query(query@));
    }
    while i < chars.len()
        invariant
            i <= chars.len(),
            chars@ == query@,
            out@ + logged_from(chars@.skip(i as int), current@) == logged_query(query@),
        decreases chars.len() - i,
    {
        let c = chars[i];
        let ghost rest = chars@.skip(i as int);
        let ghost before = out@;
        let ghost open = current@;
        proof {
            assert(rest[0] == c);
            assert(rest.skip(1) =~= chars@.skip(i + 1));
        }
        if c == '&' {
            push_logged_piece(&mut out, &current);
            out.push('&');
            current = Vec::new();
            proof {
                assert(out@ + logged_from(chars@.skip(i + 1), current@) =~= before + logged_from(
                    rest,
                    open,
                ));
            }
        } else {
            current.push(c);
        }
        i += 1;
    }
    proof {
        assert(chars@.skip(chars.len() as int) =~= Seq::<char>::empty());
    }
    push_logged_piece(&mut out, &current);
    out
}

} // verus!
