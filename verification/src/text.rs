//! Characters and words: what counts as white space, and how a line falls
//! apart into the words between it.

use vstd::prelude::*;
use vstd::std_specs::iter::IteratorSpec;

verus! {

/// Whether `c` carries the Unicode property `White_Space`.
pub open spec fn is_space(c: char) -> bool {
    let n = c as u32;
    ||| 0x09 <= n <= 0x0D
    ||| n == 0x20
    ||| n == 0x85
    ||| n == 0xA0
    ||| n == 0x1680
    ||| 0x2000 <= n <= 0x200A
    ||| n == 0x2028
    ||| n == 0x2029
    ||| n == 0x202F
    ||| n == 0x205F
    ||| n == 0x3000
}

/// Whether every character of `s` is white space; true of the empty sequence.
pub open spec fn is_blank(s: Seq<char>) -> bool {
    forall|i: int| 0 <= i < s.len() ==> is_space(#[trigger] s[i])
}

/// Tells whether a character is white space.
pub fn is_whitespace(c: char) -> (b: bool)
    ensures
        b == is_space(c),
{
    let n: u32 = c as u32;
    (0x09 <= n && n <= 0x0D) || n == 0x20 || n == 0x85 || n == 0xA0 || n == 0x1680 || (0x2000 <= n
        && n <= 0x200A) || n == 0x2028 || n == 0x2029 || n == 0x202F || n == 0x205F || n == 0x3000
}

/// Whether the characters of `s` from place `from` up to, not including,
/// place `to` are a word of `s`: a run of characters that are not white
/// space, which is not empty and cannot be lengthened at either end.
pub open spec fn is_run(s: Seq<char>, from: int, to: int) -> bool {
    &&& 0 <= from < to <= s.len()
    &&& forall|i: int| from <= i < to ==> !is_space(#[trigger] s[i])
    &&& from == 0 || is_space(s[from - 1])
    &&& to == s.len() || is_space(s[to])
}

/// Whether `r` lists the words of `s` by their places: each entry is a word
/// of `s`, the entries stand in the order of the text, and no character that
/// is not white space lies outside them.
pub open spec fn marks_words(s: Seq<char>, r: Seq<(int, int)>) -> bool {
    &&& forall|k: int| 0 <= k < r.len() ==> is_run(s, (#[trigger] r[k]).0, r[k].1)
    &&& forall|j: int, k: int| 0 <= j < k < r.len() ==> (#[trigger] r[j]).1 < (#[trigger] r[k]).0
    &&& forall|i: int|
        0 <= i < s.len() && !is_space(#[trigger] s[i]) ==> exists|k: int|
            0 <= k < r.len() && (#[trigger] r[k]).0 <= i < r[k].1
}

/// The places of the words of `s`, found from left to right: a character
/// that is white space adds nothing; one that follows a character of a word
/// lengthens the last word; any other begins a new word.
pub open spec fn runs(s: Seq<char>) -> Seq<(int, int)>
    decreases s.len(),
{
    if s.len() == 0 {
        Seq::empty()
    } else {
        let before = runs(s.drop_last());
        let n = s.len() as int;
        if is_space(s.last()) {
            before
        } else if n >= 2 && !is_space(s[n - 2]) {
            before.update(before.len() - 1, (before.last().0, n))
        } else {
            before.push((n - 1, n))
        }
    }
}

/// The words of `s`: its maximal runs of characters that are not white
/// space, in order.
pub open spec fn words(s: Seq<char>) -> Seq<Seq<char>> {
    Seq::new(runs(s).len(), |k: int| s.subrange(runs(s)[k].0, runs(s)[k].1))
}

/// Whether `w` could be a word: it is not empty and holds no white space.
pub open spec fn is_word(w: Seq<char>) -> bool {
    w.len() > 0 && forall|i: int| 0 <= i < w.len() ==> !is_space(#[trigger] w[i])
}

/// `runs` finds the words and nothing else: what it lists are the maximal
/// runs of characters that are not white space, each once, in the order of
/// the text. A text that ends in a character of a word ends with its last
/// word.
pub proof fn lemma_runs(s: Seq<char>)
    ensures
        marks_words(s, runs(s)),
        s.len() > 0 && !is_space(s.last()) ==> runs(s).len() > 0 && runs(s).last().1 == s.len(),
    decreases s.len(),
{
    if s.len() > 0 {
        let front = s.drop_last();
        let before = runs(front);
        let r = runs(s);
        let n = s.len() as int;
        lemma_runs(front);
        assert forall|i: int| 0 <= i < front.len() implies front[i] == s[i] by {}
        if n >= 2 {
            assert(front.last() == s[n - 2]);
        }
        assert forall|k: int| 0 <= k < before.len() implies (#[trigger] before[k]).1 < n - 1
            || (before[k].1 == n - 1 && k == before.len() - 1 && n >= 2 && !is_space(s[n - 2])) by {
            assert(is_run(front, before[k].0, before[k].1));
            if before[k].1 == n - 1 {
                assert(!is_space(front[n - 2]));
                if k < before.len() - 1 {
                    assert(before[k].1 < before[before.len() - 1].0);
                    assert(is_run(front, before[before.len() - 1].0, before[before.len() - 1].1));
                }
            }
        }
        if is_space(s.last()) {
            assert forall|k: int| 0 <= k < r.len() implies is_run(s, (#[trigger] r[k]).0, r[k].1) by {
                assert(is_run(front, before[k].0, before[k].1));
            }
            assert forall|i: int| 0 <= i < s.len() && !is_space(#[trigger] s[i]) implies exists|
                k: int,
            |
                0 <= k < r.len() && (#[trigger] r[k]).0 <= i < r[k].1 by {
                assert(!is_space(front[i]));
                let k = choose|k: int| 0 <= k < before.len() && (#[trigger] before[k]).0 <= i
                    < before[k].1;
                assert(r[k] == before[k]);
            }
        } else if n >= 2 && !is_space(s[n - 2]) {
            let last = before.len() - 1;
            assert forall|k: int| 0 <= k < r.len() implies is_run(s, (#[trigger] r[k]).0, r[k].1) by {
                assert(is_run(front, before[k].0, before[k].1));
                if k < last {
                    assert(r[k] == before[k]);
                }
            }
            assert forall|j: int, k: int| 0 <= j < k < r.len() implies (#[trigger] r[j]).1 < (
            #[trigger] r[k]).0 by {
                assert(before[j].1 < before[k].0);
            }
            assert forall|i: int| 0 <= i < s.len() && !is_space(#[trigger] s[i]) implies exists|
                k: int,
            |
                0 <= k < r.len() && (#[trigger] r[k]).0 <= i < r[k].1 by {
                if i == n - 1 {
                    assert(is_run(front, before[last].0, before[last].1));
                    assert(r[last].0 <= i < r[last].1);
                } else {
                    assert(!is_space(front[i]));
                    let k = choose|k: int| 0 <= k < before.len() && (#[trigger] before[k]).0 <= i
                        < before[k].1;
                    assert(r[k].0 <= i < r[k].1);
                }
            }
        } else {
            assert forall|k: int| 0 <= k < r.len() implies is_run(s, (#[trigger] r[k]).0, r[k].1) by {
                if k < before.len() {
                    assert(r[k] == before[k]);
                    assert(is_run(front, before[k].0, before[k].1));
                }
            }
            assert forall|j: int, k: int| 0 <= j < k < r.len() implies (#[trigger] r[j]).1 < (
            #[trigger] r[k]).0 by {
                assert(r[j] == before[j]);
                if k < before.len() {
                    assert(before[j].1 < before[k].0);
                }
            }
            assert forall|i: int| 0 <= i < s.len() && !is_space(#[trigger] s[i]) implies exists|
                k: int,
            |
                0 <= k < r.len() && (#[trigger] r[k]).0 <= i < r[k].1 by {
                if i == n - 1 {
                    assert(r[before.len() as int].0 <= i < r[before.len() as int].1);
                } else {
                    assert(!is_space(front[i]));
                    let k = choose|k: int| 0 <= k < before.len() && (#[trigger] before[k]).0 <= i
                        < before[k].1;
                    assert(r[k] == before[k]);
                }
            }
        }
    }
}

/// Each of the words of a text is a word: none is empty, and none holds
/// white space.
pub proof fn lemma_words_are_words(s: Seq<char>, k: int)
    requires
        0 <= k < words(s).len(),
    ensures
        is_word(words(s)[k]),
{
    lemma_runs(s);
    assert(is_run(s, runs(s)[k].0, runs(s)[k].1));
}

/// The places in `spans`, as integers.
pub open spec fn places(spans: Seq<(usize, usize)>) -> Seq<(int, int)> {
    Seq::new(spans.len(), |k: int| (spans[k].0 as int, spans[k].1 as int))
}

/// Tells whether a line is blank: empty, or white space throughout.
pub fn is_blank_line(line: &str) -> (b: bool)
    ensures
        b == is_blank(line@),
{
    let n = line.unicode_len();
    let mut chars = line.chars();
    let mut i: usize = 0;
    proof {
        vstd::string::axiom_spec_iter(line);
    }
    while i < n
        invariant
            i <= n == line@.len(),
            chars.remaining() == line@.skip(i as int),
            forall|k: int| 0 <= k < i ==> is_space(#[trigger] line@[k]),
        decreases n - i,
    {
        let ghost before = chars;
        let next = chars.next();
        proof {
            vstd::string::next_postcondition(&before, &chars, next);
            assert(line@.skip(i as int).drop_first() =~= line@.skip(i + 1));
        }
        match next {
            Some(c) => {
                if !is_whitespace(c) {
                    return false;
                }
            },
            None => {},
        }
        i += 1;
    }
    true
}

/// Finds the words of `s`: for each, in order, the place of its first
/// character and the place behind its last one, counted in characters.
pub fn word_spans(s: &str) -> (spans: Vec<(usize, usize)>)
    ensures
        places(spans@) == runs(s@),
        marks_words(s@, places(spans@)),
{
    let n = s.unicode_len();
    let mut chars = s.chars();
    let mut spans: Vec<(usize, usize)> = Vec::new();
    let mut in_word = false;
    let mut i: usize = 0;
    proof {
        vstd::string::axiom_spec_iter(s);
        assert(s@.take(0) =~= Seq::<char>::empty());
        assert(places(spans@) =~= runs(s@.take(0)));
    }
    while i < n
        invariant
            i <= n == s@.len(),
            chars.remaining() == s@.skip(i as int),
            places(spans@) == runs(s@.take(i as int)),
            in_word <==> i > 0 && !is_space(s@[i - 1]),
        decreases n - i,
    {
        let ghost before = chars;
        let ghost prefix = s@.take(i as int);
        let ghost longer = s@.take(i + 1);
        let next = chars.next();
        proof {
            vstd::string::next_postcondition(&before, &chars, next);
            assert(s@.skip(i as int).drop_first() =~= s@.skip(i + 1));
            assert(longer.drop_last() =~= prefix);
            assert(longer.last() == s@[i as int]);
            if i > 0 {
                assert(longer[longer.len() - 2] == s@[i - 1]);
                assert(prefix.last() == s@[i - 1]);
            }
            lemma_runs(prefix);
        }
        match next {
            Some(c) => {
                if is_whitespace(c) {
                    in_word = false;
                } else if in_word {
                    let last = spans.len() - 1;
                    let from = spans[last].0;
                    spans.set(last, (from, i + 1));
                    proof {
                        assert(places(spans@) =~= runs(longer));
                    }
                } else {
                    spans.push((i, i + 1));
                    in_word = true;
                    proof {
                        assert(places(spans@) =~= runs(longer));
                    }
                }
            },
            None => {},
        }
        i += 1;
    }
    proof {
        assert(s@.take(n as int) =~= s@);
        lemma_runs(s@);
    }
    spans
}

} // verus!
