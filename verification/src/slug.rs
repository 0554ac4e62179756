//! Slug normalization: the deterministic transformation from a free-form
//! display name to a filesystem- and identifier-safe slug.
//!
//! The leading character is case-folded in place; after that, every ASCII
//! uppercase letter expands to a hyphen followed by its lowercase form,
//! every white-space character becomes a single hyphen, and every other
//! character is kept unchanged.  The leading character therefore never
//! receives a hyphen prefix, while every later uppercase letter does; no
//! trimming of a possible leading hyphen is performed.

use vstd::prelude::*;

use crate::chars::{is_ascii_upper, is_space, lower_char, space_check, to_lower, upper_check};

verus! {

/// What a single (already leading-folded) character contributes to the slug.
pub open spec fn expansion(c: char) -> Seq<char> {
    if is_ascii_upper(c) {
        seq!['-', to_lower(c)]
    } else if is_space(c) {
        seq!['-']
    } else {
        seq![c]
    }
}

/// The concatenated expansions of a character sequence, in order.
pub open spec fn expand(s: Seq<char>) -> Seq<char>
    decreases s.len(),
{
    if s.len() == 0 {
        Seq::empty()
    } else {
        expand(s.drop_last()) + expansion(s.last())
    }
}

/// The input with its leading character case-folded.
pub open spec fn lower_head(s: Seq<char>) -> Seq<char>
    recommends
        s.len() > 0,
{
    s.update(0, to_lower(s[0]))
}

/// The slug derived from a non-empty display name.
pub open spec fn slug_of(s: Seq<char>) -> Seq<char>
    recommends
        s.len() > 0,
{
    expand(lower_head(s))
}

/// The characters of a string slice, as a vector.
pub fn chars_of(s: &str) -> (r: Vec<char>)
    ensures
        r@ == s@,
{
    let n = s.unicode_len();
    let mut r: Vec<char> = Vec::new();
    let mut i: usize = 0;
    while i < n
        invariant
            i <= n,
            n == s@.len(),
            r@ == s@.take(i as int),
        decreases n - i,
    {
        r.push(s.get_char(i));
        i = i + 1;
        proof {
            assert(r@ =~= s@.take(i as int));
        }
    }
    proof {
        assert(r@ =~= s@);
    }
    r
}

/// Relies on `String::push`: appends the given character to the end of
/// the string.
#[verifier::external_body]
fn push_char(s: &mut String, c: char)
    ensures
        final(s)@ == old(s)@.push(c),
{
    s.push(c)
}

/// Derives the slug of a non-empty display name.
pub fn normalize(name: &str) -> (r: String)
    requires
        name@.len() > 0,
    ensures
        r@ == slug_of(name@),
{
    let mut folded = chars_of(name);
    let head = folded[0];
    folded.set(0, lower_char(head));
    proof {
        assert(folded@ =~= lower_head(name@));
    }
    let n = folded.len();
    let mut out = String::new();
    let mut i: usize = 0;
    while i < n
        invariant
            i <= n,
            n == folded@.len(),
            folded@ == lower_head(name@),
            out@ == expand(folded@.take(i as int)),
        decreases n - i,
    {
        let c = folded[i];
        if upper_check(c) {
            push_char(&mut out, '-');
            push_char(&mut out, lower_char(c));
        } else if space_check(c) {
            push_char(&mut out, '-');
        } else {
            push_char(&mut out, c);
        }
        i = i + 1;
        proof {
            let t = folded@.take(i as int);
            assert(t.drop_last() =~= folded@.take(i - 1));
            assert(t.last() == folded@[i - 1]);
            assert(out@ =~= expand(t.drop_last()) + expansion(t.last()));
        }
    }
    proof {
        assert(folded@.take(n as int) =~= folded@);
    }
    out
}

/// Normalization is a pure function of its input: equal display names
/// always yield equal slugs, so deriving the slug twice gives the same
/// result both times.
pub proof fn lemma_slug_deterministic(s1: Seq<char>, s2: Seq<char>)
    requires
        s1 == s2,
    ensures
        slug_of(s1) == slug_of(s2),
{
}

proof fn lemma_expand_clean(s: Seq<char>)
    ensures
        forall|i: int|
            0 <= i < expand(s).len() ==> !is_ascii_upper(#[trigger] expand(s)[i]) && !is_space(
                expand(s)[i],
            ),
    decreases s.len(),
{
    if s.len() > 0 {
        lemma_expand_clean(s.drop_last());
        let head = expand(s.drop_last());
        let tail = expansion(s.last());
        assert(forall|i: int|
            0 <= i < tail.len() ==> !is_ascii_upper(#[trigger] tail[i]) && !is_space(tail[i]));
        assert(forall|i: int| 0 <= i < expand(s).len() ==> expand(s)[i] == if i < head.len() {
            head[i]
        } else {
            tail[i - head.len()]
        });
    }
}

/// No character of the slug of a non-empty display name is an ASCII
/// uppercase letter.
pub proof fn lemma_slug_no_upper(s: Seq<char>)
    requires
        s.len() > 0,
    ensures
        forall|i: int| 0 <= i < slug_of(s).len() ==> !is_ascii_upper(#[trigger] slug_of(s)[i]),
{
    lemma_expand_clean(lower_head(s));
}

/// No character of the slug of a non-empty display name is white space.
pub proof fn lemma_slug_no_space(s: Seq<char>)
    requires
        s.len() > 0,
    ensures
        forall|i: int| 0 <= i < slug_of(s).len() ==> !is_space(#[trigger] slug_of(s)[i]),
{
    lemma_expand_clean(lower_head(s));
}

} // verus!
