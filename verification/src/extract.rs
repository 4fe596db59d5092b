//! Count extraction: a located fragment's text becomes a commit count, and
//! anything malformed degrades to zero rather than failing the invocation.
use crate::digits::{all_digits, digit_of, digits_val, is_ascii_digit};
use crate::locate::{spec_frag_view, ActivityFragment};
use vstd::prelude::*;
use vstd::string::*;

verus! {

/// The count a fragment's text stands for: its decimal value where the text is
/// non-empty, all digits and fits the count type, and zero otherwise.
pub open spec fn spec_count_of(s: Seq<char>) -> nat {
    if s.len() > 0 && all_digits(s) && digits_val(s) <= u32::MAX {
        digits_val(s)
    } else {
        0
    }
}

/// The count extracted from a located fragment: zero where nothing was found.
pub open spec fn spec_extracted_count(located: Option<Seq<char>>) -> nat {
    match located {
        Some(content) => spec_count_of(content),
        None => 0,
    }
}

/// The value of a digit prefix never exceeds the value of the whole text.
proof fn lemma_digits_val_prefix(s: Seq<char>, i: int)
    requires
        0 <= i <= s.len(),
    ensures
        digits_val(s.take(i)) <= digits_val(s),
    decreases s.len() - i,
{
    if i < s.len() {
        lemma_digits_val_prefix(s, i + 1);
        assert(s.take(i + 1).drop_last() =~= s.take(i));
        assert(digits_val(s.take(i + 1)) == digits_val(s.take(i)) * 10 + digit_of(
            s.take(i + 1).last(),
        ));
    } else {
        assert(s.take(i) =~= s);
    }
}

/// A fragment whose count text holds any non-digit character yields zero.
pub proof fn lemma_malformed_count_degrades(content: Seq<char>, i: int)
    requires
        0 <= i < content.len(),
        !is_ascii_digit(content[i]),
    ensures
        spec_count_of(content) == 0,
{
}

/// Parses a decimal commit count, degrading to zero on empty text, any
/// non-digit character, or a value too large for the count type.
pub fn parse_count(s: &str) -> (c: u32)
    ensures
        c as nat == spec_count_of(s@),
{
    let len = s.unicode_len();
    if len == 0 {
        return 0;
    }
    let mut acc: u64 = 0;
    let mut i: usize = 0;
    while i < len
        invariant
            0 <= i <= len,
            len == s@.len(),
            all_digits(s@.take(i as int)),
            acc as nat == digits_val(s@.take(i as int)),
            acc <= u32::MAX,
        decreases len - i,
    {
        let ch = s.get_char(i);
        let v = ch as u32;
        if v < 48 || v > 57 {
            proof {
                assert(!is_ascii_digit(s@[i as int]));
            }
            return 0;
        }
        let next: u64 = acc * 10 + (v - 48) as u64;
        proof {
            assert(s@.take(i as int + 1).drop_last() =~= s@.take(i as int));
            assert(digits_val(s@.take(i as int + 1)) == next as nat);
        }
        if next > 0xffff_ffff {
            proof {
                lemma_digits_val_prefix(s@, i as int + 1);
            }
            return 0;
        }
        acc = next;
        i += 1;
    }
    proof {
        assert(s@.take(len as int) =~= s@);
    }
    acc as u32
}

/// Extracts the commit count from the locator's outcome: an absent fragment is
/// the defined fallback of zero, a present fragment is parsed leniently.
pub fn extract(located: &Option<ActivityFragment>) -> (c: u32)
    ensures
        c as nat == spec_extracted_count(spec_frag_view(*located)),
        located is None ==> c == 0,
{
    match located {
        None => 0,
        Some(fragment) => parse_count(fragment.content.as_str()),
    }
}

} // verus!
