//! Laws of lexing: what holds of the lexemes of every text.

use crate::classes::CharClass;
use crate::lexemes::{
    decimal_value, ignored, joins_run, lexeme_at, lexemes, lexemes_from, punctuation, run_end,
    run_lexeme, splits_run, starts_run,
};
use crate::token::Lexeme;
use vstd::prelude::*;

verus! {

/// A run ends within the text, holds only characters of its class, and is
/// followed by no character of its class.
pub proof fn lemma_run_end(s: Seq<char>, start: int, class: CharClass)
    requires
        0 <= start <= s.len(),
    ensures
        start <= run_end(s, start, class) <= s.len(),
        forall|k: int| start <= k < run_end(s, start, class) ==> class.contains(#[trigger] s[k]),
        run_end(s, start, class) < s.len() ==> !class.contains(s[run_end(s, start, class)]),
    decreases s.len() - start,
{
    if start < s.len() && class.contains(s[start]) {
        lemma_run_end(s, start + 1, class);
    }
}

/// The end of a run is the same from each position inside the run.
pub proof fn lemma_run_end_inside(s: Seq<char>, start: int, inside: int, class: CharClass)
    requires
        0 <= start <= inside <= s.len(),
        forall|k: int| start <= k < inside ==> class.contains(#[trigger] s[k]),
    ensures
        run_end(s, start, class) == run_end(s, inside, class),
    decreases inside - start,
{
    if start < inside {
        lemma_run_end_inside(s, start + 1, inside, class);
    }
}

/// No lexeme starts inside a run, behind its first character.
proof fn lemma_no_lexeme_inside_run(s: Seq<char>, from: int, end: int, class: CharClass)
    requires
        1 <= from <= end <= s.len(),
        forall|k: int| from - 1 <= k < end ==> class.contains(#[trigger] s[k]),
    ensures
        lexemes_from(s, from) == lexemes_from(s, end),
    decreases end - from,
{
    if from < end {
        assert(class.contains(s[from]));
        assert(class.contains(s[from - 1]));
        assert(lexeme_at(s, from) is None);
        lemma_no_lexeme_inside_run(s, from + 1, end, class);
    }
}

/// The lexemes from the first character of a run on are the lexeme of the
/// run, then the lexemes from the end of the run on.
pub proof fn lemma_lexemes_from_run(s: Seq<char>, start: int, class: CharClass)
    requires
        0 <= start < s.len(),
        starts_run(s, start, class),
    ensures
        lexemes_from(s, start) == seq![
            run_lexeme(class, s.subrange(start, run_end(s, start, class))),
        ] + lexemes_from(s, run_end(s, start, class)),
{
    lemma_run_end(s, start, class);
    lemma_no_lexeme_inside_run(s, start + 1, run_end(s, start, class), class);
}

/// A longer stretch of digits denotes no smaller a number.
pub proof fn lemma_decimal_value_grows(s: Seq<char>, start: int, mid: int, end: int)
    requires
        0 <= start <= mid <= end <= s.len(),
    ensures
        decimal_value(s.subrange(start, mid)) <= decimal_value(s.subrange(start, end)),
    decreases end - mid,
{
    if mid < end {
        lemma_decimal_value_grows(s, start, mid, end - 1);
        assert(s.subrange(start, end).drop_last() == s.subrange(start, end - 1));
    }
}

/// A run that begins in `a` ends at the same place in `a + b`, unless it
/// extends into `b`.
proof fn lemma_run_end_in_left(a: Seq<char>, b: Seq<char>, start: int, class: CharClass)
    requires
        0 <= start < a.len(),
        !joins_run(a, b, class),
    ensures
        run_end(a + b, start, class) == run_end(a, start, class),
    decreases a.len() - start,
{
    assert((a + b)[start] == a[start]);
    if class.contains(a[start]) {
        if start + 1 < a.len() {
            lemma_run_end_in_left(a, b, start + 1, class);
        } else {
            assert(a.last() == a[start]);
            if b.len() > 0 {
                assert((a + b)[start + 1] == b.first());
            }
            assert(run_end(a + b, start + 1, class) == start + 1);
            assert(run_end(a, start + 1, class) == start + 1);
        }
    }
}

/// A run that begins in `b` ends at the same place, counted from the
/// beginning of `b`, in `a + b`.
proof fn lemma_run_end_in_right(a: Seq<char>, b: Seq<char>, start: int, class: CharClass)
    requires
        0 <= start <= b.len(),
    ensures
        run_end(a + b, a.len() + start, class) == a.len() + run_end(b, start, class),
    decreases b.len() - start,
{
    if start < b.len() {
        assert((a + b)[a.len() + start] == b[start]);
        if class.contains(b[start]) {
            lemma_run_end_in_right(a, b, start + 1, class);
        }
    }
}

/// The lexemes of `a + b` that start in `b` are those of `b`, where the
/// join splits no run.
proof fn lemma_lexemes_from_in_right(a: Seq<char>, b: Seq<char>, from: int)
    requires
        !splits_run(a, b),
        0 <= from <= b.len(),
    ensures
        lexemes_from(a + b, a.len() + from) == lexemes_from(b, from),
    decreases b.len() - from,
{
    if from < b.len() {
        let joined = a + b;
        let at = a.len() + from;
        assert(joined[at] == b[from]);
        if from > 0 {
            assert(joined[at - 1] == b[from - 1]);
        } else if a.len() > 0 {
            assert(joined[at - 1] == a.last());
        }
        lemma_run_end_in_right(a, b, from, CharClass::Letter);
        lemma_run_end_in_right(a, b, from, CharClass::Digit);
        lemma_run_end(b, from, CharClass::Letter);
        lemma_run_end(b, from, CharClass::Digit);
        assert(joined.subrange(at, a.len() + run_end(b, from, CharClass::Letter)) =~= b.subrange(
            from,
            run_end(b, from, CharClass::Letter),
        ));
        assert(joined.subrange(at, a.len() + run_end(b, from, CharClass::Digit)) =~= b.subrange(
            from,
            run_end(b, from, CharClass::Digit),
        ));
        assert(lexeme_at(joined, at) == lexeme_at(b, from));
        lemma_lexemes_from_in_right(a, b, from + 1);
    }
}

/// The lexemes of `a + b` from a position in `a` on are those of `a` from
/// there on, then those of `b`, where the join splits no run.
proof fn lemma_lexemes_from_in_left(a: Seq<char>, b: Seq<char>, from: int)
    requires
        !splits_run(a, b),
        0 <= from <= a.len(),
    ensures
        lexemes_from(a + b, from) == lexemes_from(a, from) + lexemes_from(b, 0),
    decreases a.len() - from,
{
    let joined = a + b;
    if from < a.len() {
        assert(joined[from] == a[from]);
        if from > 0 {
            assert(joined[from - 1] == a[from - 1]);
        }
        lemma_run_end_in_left(a, b, from, CharClass::Letter);
        lemma_run_end_in_left(a, b, from, CharClass::Digit);
        lemma_run_end(a, from, CharClass::Letter);
        lemma_run_end(a, from, CharClass::Digit);
        assert(joined.subrange(from, run_end(a, from, CharClass::Letter)) =~= a.subrange(
            from,
            run_end(a, from, CharClass::Letter),
        ));
        assert(joined.subrange(from, run_end(a, from, CharClass::Digit)) =~= a.subrange(
            from,
            run_end(a, from, CharClass::Digit),
        ));
        assert(lexeme_at(joined, from) == lexeme_at(a, from));
        lemma_lexemes_from_in_left(a, b, from + 1);
        assert(lexemes_from(joined, from) =~= lexemes_from(a, from) + lexemes_from(b, 0));
    } else {
        lemma_lexemes_from_in_right(a, b, 0);
        assert(lexemes_from(a, from) =~= Seq::<Lexeme>::empty());
        assert(lexemes_from(joined, from) =~= lexemes_from(a, from) + lexemes_from(b, 0));
    }
}

/// Lexing distributes over concatenation: the lexemes of two texts joined
/// are the lexemes of the first, then the lexemes of the second, where the
/// join does not fall inside a run of letters or of digits.
pub proof fn lemma_lexemes_of_concatenation(a: Seq<char>, b: Seq<char>)
    requires
        !splits_run(a, b),
    ensures
        lexemes(a + b) == lexemes(a) + lexemes(b),
{
    lemma_lexemes_from_in_left(a, b, 0);
}

/// Maximal munch: a text that is one run of letters, or one run of digits,
/// has exactly one lexeme, made of all its characters.
pub proof fn lemma_run_is_one_lexeme(run: Seq<char>, class: CharClass)
    requires
        run.len() > 0,
        forall|k: int| 0 <= k < run.len() ==> class.contains(#[trigger] run[k]),
    ensures
        lexemes(run) == seq![run_lexeme(class, run)],
{
    lemma_run_end_inside(run, 0, run.len() as int, class);
    lemma_lexemes_from_run(run, 0, class);
    assert(run.subrange(0, run.len() as int) =~= run);
    assert(lexemes_from(run, run.len() as int) =~= Seq::<Lexeme>::empty());
}

/// Maximal munch inside a text: a run of letters or of digits that no
/// character of its class touches on either side contributes exactly one
/// lexeme, between the lexemes of what stands before it and those of what
/// stands behind it.
pub proof fn lemma_run_in_context(
    before: Seq<char>,
    run: Seq<char>,
    behind: Seq<char>,
    class: CharClass,
)
    requires
        run.len() > 0,
        forall|k: int| 0 <= k < run.len() ==> class.contains(#[trigger] run[k]),
        before.len() > 0 ==> !class.contains(before.last()),
        behind.len() > 0 ==> !class.contains(behind.first()),
    ensures
        lexemes(before + run + behind) == lexemes(before) + seq![run_lexeme(class, run)] + lexemes(
            behind,
        ),
{
    assert(class.contains(run.first()));
    assert(class.contains(run.last()));
    assert((before + run).last() == run.last());
    lemma_lexemes_of_concatenation(before, run);
    lemma_lexemes_of_concatenation(before + run, behind);
    lemma_run_is_one_lexeme(run, class);
}

/// A text of ignored characters has no lexemes.
pub proof fn lemma_ignored_text(s: Seq<char>, from: int)
    requires
        0 <= from <= s.len(),
        forall|k: int| 0 <= k < s.len() ==> ignored(#[trigger] s[k]),
    ensures
        lexemes_from(s, from) == Seq::<Lexeme>::empty(),
    decreases s.len() - from,
{
    if from < s.len() {
        assert(ignored(s[from]));
        lemma_ignored_text(s, from + 1);
    }
}

/// A punctuation character alone has one lexeme.
pub proof fn lemma_punctuation_alone(c: char)
    requires
        punctuation(c) is Some,
    ensures
        lexemes(seq![c]) == seq![punctuation(c)->Some_0],
{
    let s = seq![c];
    assert(lexemes_from(s, 1) =~= Seq::<Lexeme>::empty());
    assert(lexemes_from(s, 0) =~= seq![punctuation(c)->Some_0]);
}

} // verus!
