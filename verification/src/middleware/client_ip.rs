//! Which address a request is taken to come from.

use vstd::prelude::*;
use crate::text::{
    back_white_space, back_ws, chars_of, find_char, find_in, lemma_back_ws_bounds,
    lemma_find_in_bounds, lemma_skip_ws_bounds, skip_white_space, skip_ws, string_of,
};

verus! {

/// The first entry of an `X-Forwarded-For` header: the text before the first
/// `,`, trimmed.
pub open spec fn first_forwarded(header: Seq<char>) -> Seq<char> {
    let e = find_in(header, ',', 0, header.len() as int);
    let a = skip_ws(header, 0, e);
    header.subrange(a, back_ws(header, a, e))
}

/// The first entry of an `X-Forwarded-For` header.
pub fn first_forwarded_entry(header: &str) -> (res: String)
    ensures
        res@ == first_forwarded(header@),
{
    let v = chars_of(header);
    let e = find_char(&v, ',', 0, v.len());
    proof {
        lemma_find_in_bounds(v@, ',', 0, v@.len() as int);
    }
    let a = skip_white_space(&v, 0, e);
    proof {
        lemma_skip_ws_bounds(v@, 0, e as int);
    }
    let b = back_white_space(&v, a, e);
    proof {
        lemma_back_ws_bounds(v@, a as int, e as int);
    }
    string_of(&v, a, b)
}

/// The client address of a request: the parsed first `X-Forwarded-For`
/// entry when there is one (the service runs behind a proxy), else the
/// parsed `X-Real-IP` header, else the connection's peer address, else
/// `fallback` (the loopback address).
pub fn choose_client_ip<T>(forwarded: Option<T>, real_ip: Option<T>, peer: Option<T>, fallback: T) -> (res: T)
    ensures
        res == match forwarded {
            Some(f) => f,
            None => match real_ip {
                Some(r) => r,
                None => match peer {
                    Some(p) => p,
                    None => fallback,
                },
            },
        },
{
    match forwarded {
        Some(f) => f,
        None => match real_ip {
            Some(r) => r,
            None => match peer {
                Some(p) => p,
                None => fallback,
            },
        },
    }
}

} // verus!
