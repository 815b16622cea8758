//! The durable association between a source message and its relayed copy.
//!
//! There is no database: the pair `(destinationMessageId, sourceMessageId)`
//! is written as the text `"{destination}:{source}"` into a bot-authored
//! reply to the source message, and recovered later by parsing that text
//! back. Encoding and parsing are verified against one spec-level format, so
//! a recorded link is always recoverable.

use crate::digits::dec_digits;
use crate::digits::dec_val;
use crate::digits::lemma_dec_digits_value;
use crate::digits::lemma_digits_no_colon;
use crate::digits::parse_u64_range;
use crate::digits::u64_to_string;
use crate::digits::valid_u64_digits;
use vstd::prelude::*;
use vstd::string::StrSliceExecFns;
use vstd::string::StringExecFns;

verus! {

/// The serialized form of a link: the destination id's digits, a colon, the
/// source id's digits.
pub open spec fn link_repr(dest_id: u64, src_id: u64) -> Seq<char> {
    dec_digits(dest_id as nat) + seq![':'] + dec_digits(src_id as nat)
}

/// The index of the first colon in `s`, if there is one.
pub open spec fn find_colon(s: Seq<char>) -> Option<int>
    decreases s.len(),
{
    if s.len() == 0 {
        None
    } else if s[0] == ':' {
        Some(0int)
    } else {
        match find_colon(s.drop_first()) {
            None => None,
            Some(i) => Some(i + 1),
        }
    }
}

/// The link a text denotes: split at the first colon, both sides nonempty
/// digit strings whose values fit in 64 bits. Anything else is not a link.
pub open spec fn link_of(s: Seq<char>) -> Option<(u64, u64)> {
    match find_colon(s) {
        None => None,
        Some(i) => {
            let left = s.take(i);
            let right = s.skip(i + 1);
            if valid_u64_digits(left) && valid_u64_digits(right) {
                Some(((dec_val(left) as u64), (dec_val(right) as u64)))
            } else {
                None
            }
        },
    }
}

proof fn lemma_find_colon_first(s: Seq<char>, k: int)
    requires
        0 <= k < s.len(),
        s[k] == ':',
        forall|j: int| 0 <= j < k ==> s[j] != ':',
    ensures
        find_colon(s) == Some(k),
    decreases k,
{
    if k > 0 {
        let t = s.drop_first();
        assert(t[k - 1] == s[k]);
        assert(forall|j: int| 0 <= j < k - 1 ==> #[trigger] t[j] == s[j + 1]);
        lemma_find_colon_first(t, k - 1);
    }
}

proof fn lemma_find_colon_none(s: Seq<char>)
    requires
        forall|j: int| 0 <= j < s.len() ==> s[j] != ':',
    ensures
        find_colon(s) is None,
    decreases s.len(),
{
    if s.len() > 0 {
        let t = s.drop_first();
        assert(forall|j: int| 0 <= j < t.len() ==> #[trigger] t[j] == s[j + 1]);
        lemma_find_colon_none(t);
    }
}

/// Write the link text for a destination/source pair.
pub fn encode_link(dest_id: u64, src_id: u64) -> (s: String)
    ensures
        s@ == link_repr(dest_id, src_id),
{
    let mut s = u64_to_string(dest_id);
    s.append(":");
    let rest = u64_to_string(src_id);
    s.append(rest.as_str());
    proof {
        reveal_strlit(":");
        assert(s@ =~= link_repr(dest_id, src_id));
    }
    s
}

/// Read a link text back: returns exactly the pair `link_of` assigns to the
/// text, and nothing on any text that is not a link.
pub fn parse_link(s: &str) -> (r: Option<(u64, u64)>)
    ensures
        r == link_of(s@),
{
    let n = s.unicode_len();
    let mut k: usize = 0;
    while k < n
        invariant
            k <= n,
            n == s@.len(),
            forall|j: int| 0 <= j < k ==> s@[j] != ':',
        decreases n - k,
    {
        if s.get_char(k) == ':' {
            proof {
                lemma_find_colon_first(s@, k as int);
                assert(s@.take(k as int) =~= s@.subrange(0, k as int));
                assert(s@.skip(k as int + 1) =~= s@.subrange(k as int + 1, n as int));
            }
            let left = parse_u64_range(s, 0, k);
            let right = parse_u64_range(s, k + 1, n);
            if let (Some(a), Some(b)) = (left, right) {
                return Some((a, b));
            } else {
                return None;
            }
        }
        k = k + 1;
    }
    proof {
        lemma_find_colon_none(s@);
    }
    None
}

/// A recorded link is always recoverable: parsing the text written for a
/// pair yields that pair back.
pub proof fn lemma_link_round_trip(dest_id: u64, src_id: u64)
    ensures
        link_of(link_repr(dest_id, src_id)) == Some((dest_id, src_id)),
{
    let l = dec_digits(dest_id as nat);
    let r = dec_digits(src_id as nat);
    let s = link_repr(dest_id, src_id);
    lemma_dec_digits_value(dest_id as nat);
    lemma_dec_digits_value(src_id as nat);
    lemma_digits_no_colon(dest_id as nat);
    assert(forall|j: int| 0 <= j < l.len() ==> #[trigger] s[j] == l[j]);
    assert(s[l.len() as int] == ':');
    lemma_find_colon_first(s, l.len() as int);
    assert(s.take(l.len() as int) =~= l);
    assert(s.skip(l.len() as int + 1) =~= r);
}

} // verus!
