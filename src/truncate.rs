//! Bounding a display line to a maximum number of characters.
use vstd::prelude::*;

verus! {

/// The marker that ends a shortened line.
pub open spec fn ellipsis() -> Seq<char> {
    seq!['.', '.', '.']
}

/// `s` shortened to at most `max_length` characters, or to the bare marker
/// when `max_length` is too small to hold it.
pub open spec fn truncate_spec(s: Seq<char>, max_length: nat) -> Seq<char> {
    if s.len() <= max_length {
        s
    } else if max_length >= 3 {
        s.take(max_length - 3) + ellipsis()
    } else {
        ellipsis()
    }
}

/// Whether `s` ends with `suffix`.
pub open spec fn ends_with(s: Seq<char>, suffix: Seq<char>) -> bool {
    suffix.len() <= s.len() && s.subrange(s.len() - suffix.len(), s.len() as int) == suffix
}

/// Truncates `string` to `max_length` characters, replacing the tail with
/// `...` when it was too long. A `max_length` below three cannot hold the
/// marker: the kept prefix is then empty and the result is `...` alone.
pub fn truncate_string(string: &str, max_length: usize) -> (r: String)
    ensures
        r@ == truncate_spec(string@, max_length as nat),
        max_length >= 3 ==> r@.len() <= max_length,
        string@.len() > max_length ==> ends_with(r@, ellipsis()),
{
    let len = string.unicode_len();
    if len <= max_length {
        return String::from_str(string);
    }
    let keep: usize = if max_length >= 3 { max_length - 3 } else { 0 };
    let mut r = String::from_str(string.substring_char(0, keep));
    r.append("...");
    proof {
        reveal_strlit("...");
        assert("..."@ =~= ellipsis());
        assert(r@.subrange(r@.len() - 3, r@.len() as int) =~= ellipsis());
    }
    r
}

/// A truncated line never exceeds the bound, and a line that had to be
/// shortened ends with the marker.
pub proof fn lemma_truncate_bounded(s: Seq<char>, max_length: nat)
    requires
        max_length >= 3,
    ensures
        truncate_spec(s, max_length).len() <= max_length,
        s.len() > max_length ==> ends_with(truncate_spec(s, max_length), ellipsis()),
{
    let t = truncate_spec(s, max_length);
    if s.len() > max_length {
        assert(t.subrange(t.len() - 3, t.len() as int) =~= ellipsis());
    }
}

/// Truncating an already truncated line changes nothing.
pub proof fn lemma_truncate_idempotent(s: Seq<char>, max_length: nat)
    ensures
        truncate_spec(truncate_spec(s, max_length), max_length) == truncate_spec(s, max_length),
{
}

} // verus!
