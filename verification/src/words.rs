//! Splitting a line into words at runs of white space, and joining words
//! back into a line.

use vstd::prelude::*;
use vstd::std_specs::iter::IteratorSpec;

verus! {

/// The characters that separate words: those with the Unicode property
/// `White_Space`.
pub open spec fn is_blank(c: char) -> bool {
    let u = c as u32;
    ||| 0x09 <= u <= 0x0D
    ||| u == 0x20
    ||| u == 0x85
    ||| u == 0xA0
    ||| u == 0x1680
    ||| 0x2000 <= u <= 0x200A
    ||| u == 0x2028
    ||| u == 0x2029
    ||| u == 0x202F
    ||| u == 0x205F
    ||| u == 0x3000
}

/// A word is a non-empty run of characters none of which is blank.
pub open spec fn is_word(w: Seq<char>) -> bool {
    &&& w.len() > 0
    &&& no_blank(w)
}

/// No character of `w` is blank.
pub open spec fn no_blank(w: Seq<char>) -> bool {
    forall|i: int| 0 <= i < w.len() ==> !is_blank(#[trigger] w[i])
}

/// Every character of `s` is blank.
pub open spec fn all_blank(s: Seq<char>) -> bool {
    forall|i: int| 0 <= i < s.len() ==> is_blank(#[trigger] s[i])
}

/// The length of the longest prefix of `s` that holds no blank.
pub open spec fn word_len(s: Seq<char>) -> nat
    decreases s.len(),
{
    if s.len() == 0 || is_blank(s[0]) {
        0
    } else {
        1 + word_len(s.drop_first())
    }
}

/// The words of a line, in order: leading blanks are passed over, then the
/// longest run without a blank is one word, and so on for what follows it.
pub open spec fn words_of(s: Seq<char>) -> Seq<Seq<char>>
    decreases s.len(),
    via words_of_decreases
{
    if s.len() == 0 {
        Seq::empty()
    } else if is_blank(s[0]) {
        words_of(s.drop_first())
    } else {
        seq![s.take(word_len(s) as int)] + words_of(s.skip(word_len(s) as int))
    }
}

#[via_fn]
proof fn words_of_decreases(s: Seq<char>) {
    lemma_word_len_bounds(s);
}

/// The words written one after another with a single space between
/// neighbours.
pub open spec fn joined(words: Seq<Seq<char>>) -> Seq<char>
    decreases words.len(),
{
    if words.len() == 0 {
        Seq::empty()
    } else if words.len() == 1 {
        words[0]
    } else {
        joined(words.drop_last()) + seq![' '] + words.last()
    }
}

/// Whether a character separates words.
pub fn blank(c: char) -> (b: bool)
    ensures
        b == is_blank(c),
{
    let u: u32 = c as u32;
    (0x09 <= u && u <= 0x0D) || u == 0x20 || u == 0x85 || u == 0xA0 || u == 0x1680 || (0x2000 <= u
        && u <= 0x200A) || u == 0x2028 || u == 0x2029 || u == 0x202F || u == 0x205F || u == 0x3000
}

/// The first run without blanks lies within the line, holds no blank, ends at
/// a blank or at the end of the line, and is not empty when the line starts
/// with a character that is not blank.
pub proof fn lemma_word_len_bounds(s: Seq<char>)
    ensures
        word_len(s) <= s.len(),
        no_blank(s.take(word_len(s) as int)),
        word_len(s) < s.len() ==> is_blank(s[word_len(s) as int]),
        s.len() > 0 && !is_blank(s[0]) ==> word_len(s) > 0,
    decreases s.len(),
{
    if s.len() == 0 || is_blank(s[0]) {
    } else {
        let t = s.drop_first();
        lemma_word_len_bounds(t);
        let n = word_len(t) as int;
        assert forall|i: int| 0 <= i < n + 1 implies !is_blank(#[trigger] s.take(n + 1)[i]) by {
            if i > 0 {
                assert(s.take(n + 1)[i] == t.take(n)[i - 1]);
            }
        }
    }
}

/// A run without blanks in front of `rest` is in the first word as a whole.
pub proof fn lemma_word_len_append(w: Seq<char>, rest: Seq<char>)
    requires
        no_blank(w),
    ensures
        word_len(w + rest) == w.len() + word_len(rest),
    decreases w.len(),
{
    if w.len() == 0 {
        assert(w + rest =~= rest);
    } else {
        let s = w + rest;
        assert(s[0] == w[0]);
        assert(s.drop_first() =~= w.drop_first() + rest);
        assert forall|i: int| 0 <= i < w.drop_first().len() implies !is_blank(
            #[trigger] w.drop_first()[i],
        ) by {
            assert(w.drop_first()[i] == w[i + 1]);
        }
        lemma_word_len_append(w.drop_first(), rest);
    }
}

/// A word followed by a blank is the first word of the line, and the rest of
/// the words are those of what follows the blank.
pub proof fn lemma_words_after_word(w: Seq<char>, c: char, rest: Seq<char>)
    requires
        is_word(w),
        is_blank(c),
    ensures
        words_of(w + seq![c] + rest) == seq![w] + words_of(rest),
{
    let tail = seq![c] + rest;
    let s = w + tail;
    assert(s =~= w + seq![c] + rest);
    lemma_word_len_append(w, tail);
    assert(tail[0] == c);
    assert(word_len(tail) == 0);
    assert(word_len(s) == w.len());
    assert(s[0] == w[0]);
    assert(!is_blank(s[0]));
    assert(s.take(w.len() as int) =~= w);
    assert(s.skip(w.len() as int) =~= tail);
    assert(words_of(s) == seq![w] + words_of(tail));
    assert(tail.drop_first() =~= rest);
    assert(words_of(tail) == words_of(rest));
}

/// A line that is one word has that word and no other.
pub proof fn lemma_words_of_word(w: Seq<char>)
    requires
        is_word(w),
    ensures
        words_of(w) == seq![w],
{
    lemma_word_len_append(w, Seq::empty());
    assert(w + Seq::<char>::empty() =~= w);
    assert(w.take(w.len() as int) =~= w);
    assert(w.skip(w.len() as int) =~= Seq::<char>::empty());
    assert(words_of(w.skip(w.len() as int)) =~= Seq::<Seq<char>>::empty());
}

/// A first word that ends inside `a` is not changed by what is put behind `a`.
pub proof fn lemma_word_len_prefix(a: Seq<char>, b: Seq<char>)
    requires
        word_len(a) < a.len(),
    ensures
        word_len(a + b) == word_len(a),
    decreases a.len(),
{
    let s = a + b;
    assert(s[0] == a[0]);
    if !is_blank(a[0]) {
        assert(s.drop_first() =~= a.drop_first() + b);
        lemma_word_len_prefix(a.drop_first(), b);
    }
}

/// Every word of a line is a non-empty run without blanks.
pub proof fn lemma_words_are_words(s: Seq<char>)
    ensures
        forall|i: int| 0 <= i < words_of(s).len() ==> is_word(#[trigger] words_of(s)[i]),
    decreases s.len(),
{
    if s.len() == 0 {
    } else if is_blank(s[0]) {
        lemma_words_are_words(s.drop_first());
        assert(words_of(s) == words_of(s.drop_first()));
    } else {
        lemma_word_len_bounds(s);
        let n = word_len(s) as int;
        lemma_words_are_words(s.skip(n));
        let later = words_of(s.skip(n));
        let first = s.take(n);
        assert(words_of(s) == seq![first] + later);
        assert(first.len() == n);
        assert(is_word(first));
        assert forall|i: int| 0 <= i < words_of(s).len() implies is_word(
            #[trigger] words_of(s)[i],
        ) by {
            if i > 0 {
                assert(words_of(s)[i] == later[i - 1]);
            } else {
                assert(words_of(s)[i] == first);
            }
        }
    }
}

/// A line has no word exactly when it holds nothing but blanks.
pub proof fn lemma_no_words_iff_blank(s: Seq<char>)
    ensures
        words_of(s).len() == 0 <==> all_blank(s),
    decreases s.len(),
{
    if s.len() == 0 {
    } else if is_blank(s[0]) {
        let t = s.drop_first();
        lemma_no_words_iff_blank(t);
        if all_blank(t) {
            assert forall|i: int| 0 <= i < s.len() implies is_blank(#[trigger] s[i]) by {
                if i > 0 {
                    assert(s[i] == t[i - 1]);
                }
            }
        }
        if all_blank(s) {
            assert forall|i: int| 0 <= i < t.len() implies is_blank(#[trigger] t[i]) by {
                assert(t[i] == s[i + 1]);
            }
        }
    } else {
        assert(words_of(s).len() > 0);
    }
}

/// A blank between two pieces of text separates their words: the words of the
/// whole are those of the first piece followed by those of the second.
pub proof fn lemma_words_split_at_blank(a: Seq<char>, c: char, b: Seq<char>)
    requires
        is_blank(c),
    ensures
        words_of(a + seq![c] + b) == words_of(a) + words_of(b),
    decreases a.len(),
{
    let tail = seq![c] + b;
    let s = a + tail;
    assert(s =~= a + seq![c] + b);
    if a.len() == 0 {
        assert(s =~= tail);
        assert(tail[0] == c);
        assert(tail.drop_first() =~= b);
        assert(words_of(a) + words_of(b) =~= words_of(b));
    } else if is_blank(a[0]) {
        assert(s[0] == a[0]);
        assert(s.drop_first() =~= a.drop_first() + seq![c] + b);
        lemma_words_split_at_blank(a.drop_first(), c, b);
    } else {
        lemma_word_len_bounds(a);
        let n = word_len(a) as int;
        if n == a.len() {
            assert(a.take(n) =~= a);
            assert(is_word(a));
            lemma_words_after_word(a, c, b);
            lemma_words_of_word(a);
        } else {
            lemma_word_len_prefix(a, tail);
            assert(s[0] == a[0]);
            assert(s.take(n) =~= a.take(n));
            assert(s.skip(n) =~= a.skip(n) + seq![c] + b);
            lemma_words_split_at_blank(a.skip(n), c, b);
            assert(words_of(s) == seq![a.take(n)] + (words_of(a.skip(n)) + words_of(b)));
            assert(seq![a.take(n)] + (words_of(a.skip(n)) + words_of(b)) =~= (seq![a.take(n)]
                + words_of(a.skip(n))) + words_of(b));
        }
    }
}

/// Words joined by single spaces split into the same words again.
pub proof fn lemma_words_of_joined(words: Seq<Seq<char>>)
    requires
        forall|i: int| 0 <= i < words.len() ==> is_word(#[trigger] words[i]),
    ensures
        words_of(joined(words)) == words,
    decreases words.len(),
{
    if words.len() == 0 {
        assert(words =~= Seq::<Seq<char>>::empty());
    } else if words.len() == 1 {
        lemma_words_of_word(words[0]);
        assert(words =~= seq![words[0]]);
    } else {
        let front = words.drop_last();
        assert forall|i: int| 0 <= i < front.len() implies is_word(#[trigger] front[i]) by {
            assert(front[i] == words[i]);
        }
        lemma_words_of_joined(front);
        assert(is_blank(' '));
        lemma_words_split_at_blank(joined(front), ' ', words.last());
        lemma_words_of_word(words.last());
        assert(front + seq![words.last()] =~= words);
    }
}

/// Splitting a line and joining its words with single spaces gives a line
/// with the same words: runs of blanks collapse and nothing else changes.
pub proof fn lemma_joined_words_are_stable(s: Seq<char>)
    ensures
        words_of(joined(words_of(s))) == words_of(s),
{
    lemma_words_are_words(s);
    lemma_words_of_joined(words_of(s));
}

/// Splits a line into its words.
pub fn split_words(line: &str) -> (words: Vec<String>)
    ensures
        words.deep_view() == words_of(line@),
{
    let mut words: Vec<String> = Vec::new();
    let mut word = String::new();
    let mut rest = line.chars();
    let ghost mut k: int = 0;
    proof {
        assert(line@.skip(0) =~= line@);
        assert(word@ + line@ =~= line@);
        assert(words.deep_view() =~= Seq::<Seq<char>>::empty());
        assert(words.deep_view() + words_of(line@) =~= words_of(line@));
    }
    loop
        invariant
            0 <= k <= line@.len(),
            rest.remaining() == line@.skip(k),
            no_blank(word@),
            words_of(line@) == words.deep_view() + words_of(word@ + line@.skip(k)),
        decreases line@.len() - k,
    {
        let ghost done = words.deep_view();
        let ghost partial = word@;
        let ghost tail = line@.skip(k);
        match rest.next() {
            Some(c) => {
                let ghost after = line@.skip(k + 1);
                proof {
                    assert(tail.len() > 0);
                    assert(tail[0] == c);
                    assert(tail.drop_first() =~= after);
                    assert(tail =~= seq![c] + after);
                }
                if blank(c) {
                    if word.as_str().is_empty() {
                        proof {
                            assert(partial + tail =~= tail);
                            assert(words_of(tail) == words_of(after));
                            assert(partial + after =~= after);
                        }
                    } else {
                        proof {
                            assert(partial + tail =~= partial + seq![c] + after);
                            lemma_words_after_word(partial, c, after);
                        }
                        words.push(word);
                        word = String::new();
                        proof {
                            assert(words.deep_view() =~= done.push(partial));
                            assert(word@ + after =~= after);
                            assert(done + (seq![partial] + words_of(after)) =~= done.push(partial)
                                + words_of(after));
                        }
                    }
                } else {
                    word.push(c);
                    proof {
                        assert(word@ + after =~= partial + tail);
                        assert forall|i: int| 0 <= i < word@.len() implies !is_blank(
                            #[trigger] word@[i],
                        ) by {
                            if i < partial.len() {
                                assert(word@[i] == partial[i]);
                            }
                        }
                    }
                }
                proof {
                    k = k + 1;
                }
            },
            None => {
                proof {
                    assert(tail.len() == 0);
                    assert(partial + tail =~= partial);
                }
                if !word.as_str().is_empty() {
                    proof {
                        lemma_words_of_word(partial);
                    }
                    words.push(word);
                    assert(words.deep_view() =~= done.push(partial));
                    assert(done + seq![partial] =~= done.push(partial));
                } else {
                    assert(partial =~= Seq::<char>::empty());
                    assert(done + Seq::<Seq<char>>::empty() =~= done);
                }
                return words;
            },
        }
    }
}

/// Writes the words one after another with a single space between neighbours.
pub fn join_words(words: &Vec<String>) -> (line: String)
    ensures
        line@ == joined(words.deep_view()),
{
    let mut line = String::new();
    let mut i: usize = 0;
    while i < words.len()
        invariant
            i <= words.len(),
            line@ == joined(words.deep_view().take(i as int)),
        decreases words.len() - i,
    {
        let ghost all = words.deep_view();
        let ghost before = line@;
        if i > 0 {
            line.push(' ');
        }
        line.append(words[i].as_str());
        proof {
            let upto = all.take(i + 1);
            assert(upto.drop_last() =~= all.take(i as int));
            assert(upto.last() == words@[i as int]@);
            if i == 0 {
                assert(before =~= Seq::<char>::empty());
                assert(line@ =~= upto[0]);
            }
        }
        i += 1;
    }
    assert(words.deep_view().take(i as int) =~= words.deep_view());
    line
}

} // verus!
