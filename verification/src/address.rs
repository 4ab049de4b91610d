//! Splitting and normalizing the configured bind address.
//!
//! The configured address is `host:port`, `host` alone (the port defaults),
//! `:port` (the host defaults to the unspecified address), or the alias
//! `localhost`. The split is at the last colon, so a future bracketed host
//! keeps its inner colons. Parsing the two halves into an IP address and a
//! port number is the caller's work.

use vstd::prelude::*;

verus! {

/// The position of the last colon in the sequence, or `None` when it has
/// none.
pub open spec fn spec_rfind_colon(s: Seq<char>) -> Option<int>
    decreases s.len(),
{
    if s.len() == 0 {
        None
    } else if s.last() == ':' {
        Some(s.len() - 1)
    } else {
        spec_rfind_colon(s.drop_last())
    }
}

/// A colon with none after it is the last one.
proof fn lemma_rfind_colon_at(s: Seq<char>, i: int)
    requires
        0 <= i < s.len(),
        s[i] == ':',
        forall|k: int| i < k < s.len() ==> s[k] != ':',
    ensures
        spec_rfind_colon(s) == Some(i),
    decreases s.len(),
{
    if i < s.len() - 1 {
        lemma_rfind_colon_at(s.drop_last(), i);
    }
}

/// A sequence without any colon has no last one.
proof fn lemma_rfind_colon_none(s: Seq<char>)
    requires
        forall|k: int| 0 <= k < s.len() ==> s[k] != ':',
    ensures
        spec_rfind_colon(s) is None,
    decreases s.len(),
{
    if s.len() > 0 {
        lemma_rfind_colon_none(s.drop_last());
    }
}

/// Finds the last colon of the address, scanning from the end.
fn rfind_colon(addr: &str) -> (r: Option<usize>)
    ensures
        match r {
            Some(i) => i < addr@.len() && spec_rfind_colon(addr@) == Some(i as int),
            None => spec_rfind_colon(addr@) is None,
        },
{
    let len = addr.unicode_len();
    let mut j: usize = len;
    while j > 0
        invariant
            j <= len,
            len == addr@.len(),
            forall|k: int| j <= k < len ==> addr@[k] != ':',
        decreases j,
    {
        let c = addr.get_char(j - 1);
        if c == ':' {
            proof {
                lemma_rfind_colon_at(addr@, j - 1);
            }
            return Some(j - 1);
        }
        j -= 1;
    }
    proof {
        lemma_rfind_colon_none(addr@);
    }
    None
}

/// The host half after normalization: an empty host stands for the
/// unspecified address, and the alias `localhost` for the loopback one.
pub open spec fn spec_normalize_host(h: Seq<char>) -> Seq<char> {
    if h.len() == 0 {
        "0.0.0.0"@
    } else if h == "localhost"@ {
        "127.0.0.1"@
    } else {
        h
    }
}

/// The host and port halves owed to a configured address: the split is at
/// the last colon; without one the whole address is the host and the port
/// defaults to 80; the host is then normalized.
pub open spec fn spec_split_address(addr: Seq<char>) -> (Seq<char>, Seq<char>) {
    match spec_rfind_colon(addr) {
        Some(i) => (spec_normalize_host(addr.take(i)), addr.skip(i + 1)),
        None => (spec_normalize_host(addr), "80"@),
    }
}

/// Normalizes the host half of an address.
fn normalize_host(h: &str) -> (r: String)
    ensures
        r@ == spec_normalize_host(h@),
{
    if h.unicode_len() == 0 {
        String::from_str("0.0.0.0")
    } else {
        let hs = String::from_str(h);
        if hs == String::from_str("localhost") {
            String::from_str("127.0.0.1")
        } else {
            hs
        }
    }
}

/// Splits a configured bind address into its host and port halves, at the
/// last colon, defaulting the port to 80 and normalizing the host. The
/// caller parses the halves into an IP address and a port number.
pub fn split_address(addr: &str) -> (r: (String, String))
    ensures
        r.0@ == spec_split_address(addr@).0,
        r.1@ == spec_split_address(addr@).1,
{
    let len = addr.unicode_len();
    match rfind_colon(addr) {
        Some(i) => {
            let host = addr.substring_char(0, i);
            let port = addr.substring_char(i + 1, len);
            proof {
                assert(addr@.subrange(0, i as int) =~= addr@.take(i as int));
                assert(addr@.subrange(i + 1, len as int) =~= addr@.skip(i + 1));
            }
            (normalize_host(host), String::from_str(port))
        },
        None => (normalize_host(addr), String::from_str("80")),
    }
}

} // verus!
