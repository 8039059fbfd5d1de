//! White space, and the trimming of it from both ends of a text.
//!
//! The tool's output channel adds line terminators after a value. They are
//! no part of the value, so a decoded text is trimmed before it is handed on.
//! White space inside the text belongs to the value and stays.

use vstd::prelude::*;
use vstd::std_specs::iter::IteratorSpec;

verus! {

/// Whether `c` has the Unicode property `White_Space`.
pub open spec fn spec_is_whitespace(c: char) -> bool {
    let n = c as u32;
    ||| 0x09 <= n <= 0x0D
    ||| n == 0x20
    ||| n == 0x85
    ||| n == 0xA0
    ||| n == 0x1680
    ||| 0x2000 <= n <= 0x200A
    ||| n == 0x2028
    ||| n == 0x2029
    ||| n == 0x202F
    ||| n == 0x205F
    ||| n == 0x3000
}

/// Whether `s` holds nothing but white space.
pub open spec fn all_whitespace(s: Seq<char>) -> bool {
    forall|i: int| 0 <= i < s.len() ==> is_whitespace(#[trigger] s[i])
}

/// Whether `s` neither starts nor ends with white space. The empty text is
/// bare.
pub open spec fn is_bare(s: Seq<char>) -> bool {
    s.len() > 0 ==> !is_whitespace(s.first()) && !is_whitespace(s.last())
}

/// `s` without the white space it starts with.
pub open spec fn strip_leading(s: Seq<char>) -> Seq<char>
    decreases s.len(),
{
    if s.len() > 0 && is_whitespace(s.first()) {
        strip_leading(s.drop_first())
    } else {
        s
    }
}

/// `s` without the white space it ends with.
pub open spec fn strip_trailing(s: Seq<char>) -> Seq<char>
    decreases s.len(),
{
    if s.len() > 0 && is_whitespace(s.last()) {
        strip_trailing(s.drop_last())
    } else {
        s
    }
}

/// `s` without the white space at either end.
pub open spec fn trimmed(s: Seq<char>) -> Seq<char> {
    strip_trailing(strip_leading(s))
}

/// White space in front of a text does not change what is left once the
/// leading white space is gone.
pub proof fn lemma_strip_leading_skips(lead: Seq<char>, rest: Seq<char>)
    requires
        all_whitespace(lead),
    ensures
        strip_leading(lead + rest) == strip_leading(rest),
    decreases lead.len(),
{
    if lead.len() > 0 {
        let s = lead + rest;
        assert(s.first() == lead[0]);
        assert(s.drop_first() =~= lead.drop_first() + rest);
        lemma_strip_leading_skips(lead.drop_first(), rest);
    } else {
        assert(lead + rest =~= rest);
    }
}

/// White space behind a text does not change what is left once the
/// trailing white space is gone.
pub proof fn lemma_strip_trailing_skips(rest: Seq<char>, trail: Seq<char>)
    requires
        all_whitespace(trail),
    ensures
        strip_trailing(rest + trail) == strip_trailing(rest),
    decreases trail.len(),
{
    if trail.len() > 0 {
        let s = rest + trail;
        assert(s.last() == trail[trail.len() - 1]);
        assert(s.drop_last() =~= rest + trail.drop_last());
        lemma_strip_trailing_skips(rest, trail.drop_last());
    } else {
        assert(rest + trail =~= rest);
    }
}

/// Trimming takes the padding off a bare text and nothing else: whatever
/// white space stands in front of `core` and behind it, `core` comes back.
pub proof fn lemma_trimmed_padding(lead: Seq<char>, core: Seq<char>, trail: Seq<char>)
    requires
        all_whitespace(lead),
        all_whitespace(trail),
        is_bare(core),
    ensures
        trimmed(lead + core + trail) == core,
{
    if core.len() == 0 {
        let empty = Seq::<char>::empty();
        assert(lead + core + trail =~= (lead + trail) + empty);
        lemma_strip_leading_skips(lead + trail, empty);
    } else {
        assert(lead + core + trail =~= lead + (core + trail));
        lemma_strip_leading_skips(lead, core + trail);
        assert((core + trail).first() == core.first());
        lemma_strip_trailing_skips(core, trail);
    }
}

/// What `strip_leading` takes off is white space, and what it leaves does
/// not start with any. Returns what was taken off.
pub proof fn lemma_strip_leading_splits(s: Seq<char>) -> (lead: Seq<char>)
    ensures
        all_whitespace(lead),
        s == lead + strip_leading(s),
        strip_leading(s).len() > 0 ==> !is_whitespace(strip_leading(s).first()),
    decreases s.len(),
{
    if s.len() > 0 && is_whitespace(s.first()) {
        let rest = lemma_strip_leading_splits(s.drop_first());
        let lead = seq![s.first()] + rest;
        assert(s =~= seq![s.first()] + s.drop_first());
        assert(lead + strip_leading(s) =~= seq![s.first()] + (rest + strip_leading(s)));
        lead
    } else {
        let lead = Seq::<char>::empty();
        assert(s =~= lead + strip_leading(s));
        lead
    }
}

/// What `strip_trailing` takes off is white space, and what it leaves does
/// not end with any. Returns what was taken off.
pub proof fn lemma_strip_trailing_splits(s: Seq<char>) -> (trail: Seq<char>)
    ensures
        all_whitespace(trail),
        s == strip_trailing(s) + trail,
        strip_trailing(s).len() > 0 ==> !is_whitespace(strip_trailing(s).last()),
    decreases s.len(),
{
    if s.len() > 0 && is_whitespace(s.last()) {
        let rest = lemma_strip_trailing_splits(s.drop_last());
        let trail = rest.push(s.last());
        assert(s =~= s.drop_last().push(s.last()));
        assert(strip_trailing(s) + trail =~= (strip_trailing(s) + rest).push(s.last()));
        trail
    } else {
        let trail = Seq::<char>::empty();
        assert(s =~= strip_trailing(s) + trail);
        trail
    }
}

/// A trimmed text is bare, and it is the text it was made from but for white
/// space in front of it and behind it. Returns that white space.
pub proof fn lemma_trimmed_splits(s: Seq<char>) -> (padding: (Seq<char>, Seq<char>))
    ensures
        all_whitespace(padding.0),
        all_whitespace(padding.1),
        s == padding.0 + trimmed(s) + padding.1,
        is_bare(trimmed(s)),
{
    let lead = lemma_strip_leading_splits(s);
    let rest = strip_leading(s);
    let trail = lemma_strip_trailing_splits(rest);
    let core = strip_trailing(rest);
    assert(s =~= lead + core + trail);
    if core.len() > 0 {
        assert(core.first() == rest.first());
    }
    (lead, trail)
}

/// Tells whether `c` has the Unicode property `White_Space`.
#[verifier::when_used_as_spec(spec_is_whitespace)]
pub fn is_whitespace(c: char) -> (r: bool)
    ensures
        r == spec_is_whitespace(c),
{
    let n: u32 = c as u32;
    (0x09 <= n && n <= 0x0D) || n == 0x20 || n == 0x85 || n == 0xA0 || n == 0x1680 || (0x2000 <= n
        && n <= 0x200A) || n == 0x2028 || n == 0x2029 || n == 0x202F || n == 0x205F || n == 0x3000
}

/// Returns the part of `s` between its leading and its trailing white space.
pub fn trim(s: &str) -> (r: &str)
    ensures
        r@ == trimmed(s@),
{
    let len: usize = s.unicode_len();
    let mut start: usize = 0;
    let mut end: usize = 0;
    let mut i: usize = 0;
    for c in it: s.chars()
        invariant
            it.seq() == s@,
            i == it.index(),
            len == s@.len(),
            start <= end <= i <= len,
            all_whitespace(s@.subrange(0, start as int)),
            all_whitespace(s@.subrange(end as int, i as int)),
            is_bare(s@.subrange(start as int, end as int)),
    {
        if !is_whitespace(c) {
            if start == end {
                proof {
                    let head = s@.subrange(0, start as int);
                    let gap = s@.subrange(end as int, i as int);
                    assert(s@.subrange(0, i as int) =~= head + gap);
                }
                start = i;
            }
            end = i + 1;
        } else {
            proof {
                let gap = s@.subrange(end as int, i as int);
                assert(s@.subrange(end as int, i + 1) =~= gap.push(c));
            }
        }
        i = i + 1;
    }
    proof {
        let lead = s@.subrange(0, start as int);
        let core = s@.subrange(start as int, end as int);
        let trail = s@.subrange(end as int, len as int);
        assert(s@ =~= lead + core + trail);
        lemma_trimmed_padding(lead, core, trail);
    }
    s.substring_char(start, end)
}

} // verus!
