//! Character-level text helpers: conversion between strings and character
//! vectors, and the greedy word-wrap used by the error view.

use vstd::prelude::*;
use vstd::string::StrSliceExecFns;

verus! {

/// Collects the characters of a string into a vector.
pub fn str_to_chars(s: &str) -> (r: Vec<char>)
    ensures
        r@ == s@,
{
    let n = s.unicode_len();
    let mut r: Vec<char> = Vec::new();
    let mut i: usize = 0;
    while i < n
        invariant
            n == s@.len(),
            i <= n,
            r@ =~= s@.take(i as int),
        decreases n - i,
    {
        r.push(s.get_char(i));
        i = i + 1;
    }
    assert(r@ =~= s@);
    r
}

/// Relies on `String: FromIterator<char>`: collecting characters yields the
/// string spelling exactly those characters in order.
#[verifier::external_body]
pub(crate) fn chars_to_string(cs: &Vec<char>) -> (r: String)
    ensures
        r@ == cs@,
{
    cs.iter().collect()
}

/// The whitespace characters that separate words.
pub open spec fn is_space(c: char) -> bool {
    c == ' ' || c == '\t' || c == '\n' || c == '\r'
}

/// The words of `s`: maximal runs of non-whitespace characters, in order.
/// `cur` accumulates the word currently being read.
pub open spec fn words_acc(s: Seq<char>, cur: Seq<char>) -> Seq<Seq<char>>
    decreases s.len(),
{
    if s.len() == 0 {
        if cur.len() == 0 {
            Seq::empty()
        } else {
            seq![cur]
        }
    } else if is_space(s[0]) {
        if cur.len() == 0 {
            words_acc(s.drop_first(), Seq::empty())
        } else {
            seq![cur] + words_acc(s.drop_first(), Seq::empty())
        }
    } else {
        words_acc(s.drop_first(), cur.push(s[0]))
    }
}

/// The words of `s`.
pub open spec fn words_of(s: Seq<char>) -> Seq<Seq<char>> {
    words_acc(s, Seq::empty())
}

/// Greedy wrapping of `ws` into lines of at most `max` characters, with the
/// quirk that a single word longer than `max` still gets a line of its own:
/// a line is flushed before a word that would not fit after it, words on a
/// line are joined by single spaces, and a trailing partial line is kept.
pub open spec fn wrap_acc(ws: Seq<Seq<char>>, cur: Seq<char>, max: int) -> Seq<Seq<char>>
    decreases ws.len(),
{
    if ws.len() == 0 {
        if cur.len() == 0 {
            Seq::empty()
        } else {
            seq![cur]
        }
    } else {
        let w = ws[0];
        let flushed = cur.len() + w.len() + 1 > max;
        let pre: Seq<Seq<char>> = if flushed && cur.len() > 0 {
            seq![cur]
        } else {
            Seq::empty()
        };
        let base: Seq<char> = if flushed {
            Seq::empty()
        } else {
            cur
        };
        let joined: Seq<char> = if base.len() > 0 {
            base.push(' ') + w
        } else {
            base + w
        };
        pre + wrap_acc(ws.drop_first(), joined, max)
    }
}

/// The lines of `s` wrapped greedily at `max` characters.
pub open spec fn split_lines(s: Seq<char>, max: int) -> Seq<Seq<char>> {
    wrap_acc(words_of(s), Seq::empty(), max)
}

/// Splits `text` into its whitespace-separated words.
fn split_words(text: &Vec<char>) -> (r: Vec<Vec<char>>)
    ensures
        r.deep_view() == words_of(text@),
{
    let mut out: Vec<Vec<char>> = Vec::new();
    let mut cur: Vec<char> = Vec::new();
    let mut i: usize = 0;
    assert(text@.skip(0) =~= text@);
    while i < text.len()
        invariant
            i <= text@.len(),
            words_of(text@) =~~= out.deep_view() + words_acc(text@.skip(i as int), cur@),
        decreases text@.len() - i,
    {
        let ghost pre = text@.skip(i as int);
        let ghost out0 = out.deep_view();
        let ghost cur0 = cur@;
        proof {
            assert(pre.len() == text@.len() - i);
            assert(pre[0] == text@[i as int]);
            assert(pre.drop_first() =~= text@.skip(i as int + 1));
        }
        let c = text[i];
        if c == ' ' || c == '\t' || c == '\n' || c == '\r' {
            proof {
                if cur0.len() == 0 {
                    assert(words_acc(pre, cur0) == words_acc(pre.drop_first(), Seq::empty()));
                } else {
                    assert(words_acc(pre, cur0) == seq![cur0] + words_acc(
                        pre.drop_first(),
                        Seq::empty(),
                    ));
                }
            }
            if cur.len() > 0 {
                out.push(cur);
                cur = Vec::new();
                assert(out.deep_view() =~~= out0 + seq![cur0]);
            }
            assert(cur@ =~= Seq::<char>::empty());
        } else {
            proof {
                assert(words_acc(pre, cur0) == words_acc(pre.drop_first(), cur0.push(pre[0])));
            }
            cur.push(c);
            assert(cur@ =~= cur0.push(text@[i as int]));
        }
        i = i + 1;
        assert(words_of(text@) =~~= out.deep_view() + words_acc(text@.skip(i as int), cur@));
    }
    assert(text@.skip(text@.len() as int) =~= Seq::<char>::empty());
    let ghost out0 = out.deep_view();
    let ghost cur0 = cur@;
    if cur.len() > 0 {
        out.push(cur);
        assert(out.deep_view() =~~= out0 + seq![cur0]);
    }
    assert(out.deep_view() =~~= words_of(text@));
    out
}

/// Wraps `text` greedily into lines of at most `max_line_length`
/// characters, splitting on whitespace.
pub fn split_text_into_lines(text: &str, max_line_length: usize) -> (r: Vec<String>)
    ensures
        r.deep_view() == split_lines(text@, max_line_length as int),
{
    let chars = str_to_chars(text);
    let words = split_words(&chars);
    let ghost wv = words.deep_view();
    let ghost max = max_line_length as int;
    let mut out: Vec<String> = Vec::new();
    let mut cur: Vec<char> = Vec::new();
    let mut j: usize = 0;
    proof {
        assert(wv.skip(0) =~= wv);
        assert(cur@ =~= Seq::<char>::empty());
    }
    while j < words.len()
        invariant
            j <= wv.len(),
            wv == words.deep_view(),
            words@.len() == wv.len(),
            max == max_line_length as int,
            split_lines(text@, max) =~= out.deep_view() + wrap_acc(
                wv.skip(j as int),
                cur@,
                max,
            ),
        decreases wv.len() - j,
    {
        let ghost pre = wv.skip(j as int);
        let ghost out0 = out.deep_view();
        let ghost cur0 = cur@;
        proof {
            assert(pre.len() == wv.len() - j);
            assert(pre[0] == wv[j as int]);
            assert(pre.drop_first() =~= wv.skip(j as int + 1));
        }
        let w = &words[j];
        assert(w@ == wv[j as int]);
        let ghost flushed = cur0.len() + w@.len() + 1 > max;
        let ghost head: Seq<Seq<char>> = if flushed && cur0.len() > 0 {
            seq![cur0]
        } else {
            Seq::empty()
        };
        let ghost base: Seq<char> = if flushed {
            Seq::empty()
        } else {
            cur0
        };
        let ghost joined: Seq<char> = if base.len() > 0 {
            base.push(' ') + w@
        } else {
            base + w@
        };
        proof {
            assert(wrap_acc(pre, cur0, max) == head + wrap_acc(pre.drop_first(), joined, max));
        }
        let over = (cur.len() as u128) + (w.len() as u128) + 1 > (max_line_length as u128);
        if over {
            if cur.len() > 0 {
                out.push(chars_to_string(&cur));
                cur = Vec::new();
                assert(out.deep_view() =~= out0 + seq![cur0]);
            }
            assert(cur@ =~= Seq::<char>::empty());
        }
        assert(cur@ == base);
        if cur.len() > 0 {
            cur.push(' ');
        }
        let ghost started = cur@;
        assert(joined =~= started + w@);
        let mut k: usize = 0;
        while k < w.len()
            invariant
                k <= w@.len(),
                cur@ =~= started + w@.take(k as int),
            decreases w@.len() - k,
        {
            let ghost cpre = cur@;
            cur.push(w[k]);
            k = k + 1;
            assert(cur@ =~= cpre.push(w@[k - 1]));
            assert(w@.take(k as int) =~= w@.take(k as int - 1).push(w@[k - 1]));
            assert(cur@ =~= started + w@.take(k as int));
        }
        assert(w@.take(w@.len() as int) =~= w@);
        assert(cur@ =~= joined);
        j = j + 1;
        assert(split_lines(text@, max) =~= out.deep_view() + wrap_acc(
            wv.skip(j as int),
            cur@,
            max,
        ));
    }
    assert(wv.skip(wv.len() as int) =~= Seq::<Seq<char>>::empty());
    let ghost out0 = out.deep_view();
    let ghost cur0 = cur@;
    if cur.len() > 0 {
        out.push(chars_to_string(&cur));
        assert(out.deep_view() =~= out0 + seq![cur0]);
    }
    assert(out.deep_view() =~= split_lines(text@, max));
    out
}

} // verus!
