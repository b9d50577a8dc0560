//! Splitting a text into whitespace-delimited words, and joining words with single spaces.

use vstd::prelude::*;

verus! {

/// Whether `c` carries the Unicode `White_Space` property.
pub uninterp spec fn has_white_space_property(c: char) -> bool;

/// Whether `c` separates words.
pub open spec fn is_whitespace(c: char) -> bool {
    c == ' ' || has_white_space_property(c)
}

/// Length of the longest prefix of `s` that holds no separator.
pub open spec fn word_len(s: Seq<char>) -> nat
    decreases s.len(),
{
    if s.len() == 0 || is_whitespace(s[0]) {
        0
    } else {
        1 + word_len(s.drop_first())
    }
}

/// The words of `s`: its maximal runs of characters that are not separators, in order.
pub open spec fn split_words(s: Seq<char>) -> Seq<Seq<char>>
    decreases s.len(),
{
    if s.len() == 0 {
        Seq::empty()
    } else if is_whitespace(s[0]) {
        split_words(s.drop_first())
    } else {
        let n = word_len(s) as int;
        proof {
            lemma_word_len_bounds(s);
        }
        seq![s.take(n)] + split_words(s.skip(n))
    }
}

/// The words written one after another with one space between neighbours.
pub open spec fn join_words(words: Seq<Seq<char>>) -> Seq<char>
    decreases words.len(),
{
    if words.len() == 0 {
        Seq::empty()
    } else if words.len() == 1 {
        words[0]
    } else {
        words[0] + seq![' '] + join_words(words.drop_first())
    }
}

/// Whether `w` can be a word: it is not empty and holds no separator.
pub open spec fn is_word(w: Seq<char>) -> bool {
    w.len() > 0 && forall|i: int| 0 <= i < w.len() ==> !is_whitespace(#[trigger] w[i])
}

/// The leading word of `s` lies within `s`, holds no separator, and ends at a separator or
/// at the end of `s`.
pub proof fn lemma_word_len_bounds(s: Seq<char>)
    ensures
        word_len(s) <= s.len(),
        forall|i: int| 0 <= i < word_len(s) ==> !is_whitespace(#[trigger] s[i]),
        word_len(s) < s.len() ==> is_whitespace(s[word_len(s) as int]),
    decreases s.len(),
{
    if s.len() == 0 || is_whitespace(s[0]) {
    } else {
        let tail = s.drop_first();
        lemma_word_len_bounds(tail);
        assert forall|i: int| 0 <= i < word_len(s) implies !is_whitespace(#[trigger] s[i]) by {
            if i > 0 {
                assert(s[i] == tail[i - 1]);
            }
        }
        if word_len(s) < s.len() {
            assert(s[word_len(s) as int] == tail[word_len(tail) as int]);
        }
    }
}

/// Whether every separator in `s` is a single space that stands between two words: it is
/// a space, neither the first nor the last character, and no separator follows it.
pub open spec fn is_single_spaced(s: Seq<char>) -> bool {
    forall|i: int|
        0 <= i < s.len() && #[trigger] is_whitespace(s[i]) ==> {
            &&& s[i] == ' '
            &&& 0 < i < s.len() - 1
            &&& !is_whitespace(s[i + 1])
        }
}

/// Whether every member of `words` can be a word.
pub open spec fn all_words(words: Seq<Seq<char>>) -> bool {
    forall|i: int| 0 <= i < words.len() ==> is_word(#[trigger] words[i])
}

/// A run without separators that ends at a separator, or at the end of the text, is the
/// leading word of the text.
proof fn lemma_word_len_of_run(run: Seq<char>, tail: Seq<char>)
    requires
        forall|i: int| 0 <= i < run.len() ==> !is_whitespace(#[trigger] run[i]),
        tail.len() == 0 || is_whitespace(tail[0]),
    ensures
        word_len(run + tail) == run.len(),
    decreases run.len(),
{
    let s = run + tail;
    if run.len() == 0 {
        assert(s =~= tail);
    } else {
        assert(s[0] == run[0]);
        assert(s.drop_first() =~= run.drop_first() + tail);
        assert forall|i: int| 0 <= i < run.drop_first().len() implies !is_whitespace(
            #[trigger] run.drop_first()[i],
        ) by {
            assert(run.drop_first()[i] == run[i + 1]);
        }
        lemma_word_len_of_run(run.drop_first(), tail);
    }
}

/// Every member of the split of a text is a word: it is not empty and holds no separator.
pub proof fn lemma_split_yields_words(s: Seq<char>)
    ensures
        all_words(split_words(s)),
    decreases s.len(),
{
    if s.len() == 0 {
    } else if is_whitespace(s[0]) {
        lemma_split_yields_words(s.drop_first());
    } else {
        let n = word_len(s) as int;
        lemma_word_len_bounds(s);
        lemma_split_yields_words(s.skip(n));
        let rest = split_words(s.skip(n));
        assert(is_word(s.take(n)));
        assert forall|i: int| 0 <= i < split_words(s).len() implies is_word(
            #[trigger] split_words(s)[i],
        ) by {
            if i > 0 {
                assert(split_words(s)[i] == rest[i - 1]);
            }
        }
    }
}

/// Words that are joined with single spaces and split again come back as they were, in
/// their order.
pub proof fn lemma_split_of_join(words: Seq<Seq<char>>)
    requires
        all_words(words),
    ensures
        split_words(join_words(words)) == words,
    decreases words.len(),
{
    if words.len() == 0 {
        assert(words =~= Seq::<Seq<char>>::empty());
    } else {
        let first = words[0];
        assert(is_word(first));
        let rest = words.drop_first();
        assert forall|i: int| 0 <= i < rest.len() implies is_word(#[trigger] rest[i]) by {
            assert(rest[i] == words[i + 1]);
        }
        let tail: Seq<char> = if words.len() == 1 {
            Seq::empty()
        } else {
            seq![' '] + join_words(rest)
        };
        let s = join_words(words);
        assert(s =~= first + tail);
        lemma_word_len_of_run(first, tail);
        assert(s[0] == first[0]);
        let n = first.len() as int;
        assert(s.take(n) =~= first);
        assert(s.skip(n) =~= tail);
        if words.len() == 1 {
            assert(split_words(tail) =~= Seq::<Seq<char>>::empty());
            assert(seq![first] + Seq::<Seq<char>>::empty() =~= words);
        } else {
            assert(tail.drop_first() =~= join_words(rest));
            lemma_split_of_join(rest);
            assert(split_words(tail) == rest);
            assert(seq![first] + rest =~= words);
        }
    }
}

/// Words that are joined with single spaces give a text in which every separator is a
/// single space between two words.
pub proof fn lemma_join_is_single_spaced(words: Seq<Seq<char>>)
    requires
        all_words(words),
    ensures
        is_single_spaced(join_words(words)),
        words.len() > 0 ==> join_words(words).len() > 0 && !is_whitespace(join_words(words)[0]),
    decreases words.len(),
{
    if words.len() == 0 {
    } else if words.len() == 1 {
        assert(is_word(words[0]));
    } else {
        let first = words[0];
        assert(is_word(first));
        let rest = words.drop_first();
        assert forall|i: int| 0 <= i < rest.len() implies is_word(#[trigger] rest[i]) by {
            assert(rest[i] == words[i + 1]);
        }
        lemma_join_is_single_spaced(rest);
        let joined_rest = join_words(rest);
        let s = join_words(words);
        let n = first.len() as int;
        assert(s =~= first + seq![' '] + joined_rest);
        assert(s[0] == first[0]);
        assert forall|i: int| 0 <= i < s.len() && #[trigger] is_whitespace(s[i]) implies {
            &&& s[i] == ' '
            &&& 0 < i < s.len() - 1
            &&& !is_whitespace(s[i + 1])
        } by {
            if i < n {
                assert(s[i] == first[i]);
            } else if i == n {
                assert(s[i + 1] == joined_rest[0]);
            } else {
                let j = i - n - 1;
                assert(s[i] == joined_rest[j]);
                assert(is_whitespace(joined_rest[j]));
                assert(s[i + 1] == joined_rest[j + 1]);
            }
        }
    }
}

/// Joining the words of a text with single spaces gives the text back exactly when every
/// separator in it is a single space between two words.
pub proof fn lemma_join_of_split(s: Seq<char>)
    ensures
        join_words(split_words(s)) == s <==> is_single_spaced(s),
{
    if is_single_spaced(s) {
        lemma_join_of_split_single_spaced(s);
    }
    if join_words(split_words(s)) == s {
        lemma_split_yields_words(s);
        lemma_join_is_single_spaced(split_words(s));
    }
}

/// The direction of [`lemma_join_of_split`] that rebuilds a single-spaced text.
proof fn lemma_join_of_split_single_spaced(s: Seq<char>)
    requires
        is_single_spaced(s),
    ensures
        join_words(split_words(s)) == s,
    decreases s.len(),
{
    if s.len() == 0 {
    } else {
        assert(!is_whitespace(s[0]));
        let n = word_len(s) as int;
        lemma_word_len_bounds(s);
        let first = s.take(n);
        if n == s.len() {
            assert(first =~= s);
            assert(split_words(s.skip(n)) =~= Seq::<Seq<char>>::empty());
            assert(split_words(s) =~= seq![s]);
        } else {
            assert(is_whitespace(s[n]));
            let t = s.skip(n + 1);
            assert(t[0] == s[n + 1]);
            assert forall|j: int| 0 <= j < t.len() && #[trigger] is_whitespace(t[j]) implies {
                &&& t[j] == ' '
                &&& 0 < j < t.len() - 1
                &&& !is_whitespace(t[j + 1])
            } by {
                assert(t[j] == s[j + n + 1]);
                assert(is_whitespace(s[j + n + 1]));
                assert(t[j + 1] == s[j + n + 1 + 1]);
            }
            lemma_join_of_split_single_spaced(t);
            assert(s.skip(n).drop_first() =~= t);
            assert(s.skip(n)[0] == s[n]);
            assert(split_words(s.skip(n)) == split_words(t));
            let words = split_words(s);
            assert(split_words(t).len() > 0);
            assert(words.drop_first() =~= split_words(t));
            assert(words[0] == first);
            assert(first + seq![' '] + t =~= s);
        }
    }
}

/// The characters of `s` that are not separators, in their order.
pub open spec fn without_whitespace(s: Seq<char>) -> Seq<char>
    decreases s.len(),
{
    if s.len() == 0 {
        Seq::empty()
    } else if is_whitespace(s[0]) {
        without_whitespace(s.drop_first())
    } else {
        seq![s[0]] + without_whitespace(s.drop_first())
    }
}

/// The words written one after another with nothing between them.
pub open spec fn concat_words(words: Seq<Seq<char>>) -> Seq<char>
    decreases words.len(),
{
    if words.len() == 0 {
        Seq::empty()
    } else {
        words[0] + concat_words(words.drop_first())
    }
}

/// A run without separators passes through the removal of separators unchanged.
proof fn lemma_without_whitespace_of_concat(run: Seq<char>, tail: Seq<char>)
    requires
        forall|i: int| 0 <= i < run.len() ==> !is_whitespace(#[trigger] run[i]),
    ensures
        without_whitespace(run + tail) == run + without_whitespace(tail),
    decreases run.len(),
{
    let s = run + tail;
    if run.len() == 0 {
        assert(s =~= tail);
        assert(run + without_whitespace(tail) =~= without_whitespace(tail));
    } else {
        assert(s[0] == run[0]);
        assert(s.drop_first() =~= run.drop_first() + tail);
        assert forall|i: int| 0 <= i < run.drop_first().len() implies !is_whitespace(
            #[trigger] run.drop_first()[i],
        ) by {
            assert(run.drop_first()[i] == run[i + 1]);
        }
        lemma_without_whitespace_of_concat(run.drop_first(), tail);
        assert(seq![run[0]] + (run.drop_first() + without_whitespace(tail)) =~= run
            + without_whitespace(tail));
    }
}

/// Splitting loses nothing but separators and keeps the order of what is left: the words
/// of a text, written one after another, are the text without its separators.
pub proof fn lemma_split_keeps_characters(s: Seq<char>)
    ensures
        concat_words(split_words(s)) == without_whitespace(s),
    decreases s.len(),
{
    if s.len() == 0 {
    } else if is_whitespace(s[0]) {
        lemma_split_keeps_characters(s.drop_first());
    } else {
        let n = word_len(s) as int;
        lemma_word_len_bounds(s);
        let first = s.take(n);
        let rest = s.skip(n);
        lemma_split_keeps_characters(rest);
        assert(split_words(s).drop_first() =~= split_words(rest));
        assert(split_words(s)[0] == first);
        assert(first + rest =~= s);
        lemma_without_whitespace_of_concat(first, rest);
    }
}

/// What is still to come out of a scan that holds the unfinished word `current` and has
/// `rest` left to read.
spec fn split_pending(current: Seq<char>, rest: Seq<char>) -> Seq<Seq<char>> {
    if current.len() == 0 {
        split_words(rest)
    } else {
        let n = word_len(rest) as int;
        seq![current + rest.take(n)] + split_words(rest.skip(n))
    }
}

/// A character that is no separator joins the unfinished word.
proof fn lemma_pending_extend(current: Seq<char>, rest: Seq<char>)
    requires
        rest.len() > 0,
        !is_whitespace(rest[0]),
    ensures
        split_pending(current.push(rest[0]), rest.drop_first()) == split_pending(current, rest),
{
    let tail = rest.drop_first();
    let n = word_len(rest) as int;
    lemma_word_len_bounds(rest);
    lemma_word_len_bounds(tail);
    assert(word_len(tail) == n - 1);
    assert(tail.skip(n - 1) =~= rest.skip(n));
    assert(current.push(rest[0]) + tail.take(n - 1) =~= current + rest.take(n));
    if current.len() == 0 {
        assert(current + rest.take(n) =~= rest.take(n));
    }
}

/// A separator ends the unfinished word, if there is one.
proof fn lemma_pending_flush(current: Seq<char>, rest: Seq<char>)
    requires
        rest.len() > 0,
        is_whitespace(rest[0]),
    ensures
        current.len() == 0 ==> split_pending(current, rest.drop_first()) == split_pending(
            current,
            rest,
        ),
        current.len() > 0 ==> seq![current] + split_pending(Seq::empty(), rest.drop_first())
            == split_pending(current, rest),
{
    if current.len() > 0 {
        assert(current + rest.take(0) =~= current);
        assert(rest.skip(0) =~= rest);
    }
}

/// At the end of the text the unfinished word, if there is one, is the last word.
proof fn lemma_pending_end(current: Seq<char>)
    ensures
        current.len() == 0 ==> split_pending(current, Seq::empty()) == Seq::<Seq<char>>::empty(),
        current.len() > 0 ==> split_pending(current, Seq::empty()) == seq![current],
{
    let rest = Seq::<char>::empty();
    if current.len() > 0 {
        assert(current + rest.take(0) =~= current);
        assert(rest.skip(0) =~= rest);
        assert(seq![current] + Seq::<Seq<char>>::empty() =~= seq![current]);
    }
}

/// `char::is_whitespace`: the answer is the character's `White_Space` property, which the
/// space character has.
#[verifier::external_body]
fn char_is_whitespace(c: char) -> (b: bool)
    ensures
        b == has_white_space_property(c),
        c == ' ' ==> b,
{
    c.is_whitespace()
}

/// `String::push`: appends one character to the end of the string.
#[verifier::external_body]
fn push_char(text: &mut String, c: char)
    ensures
        final(text)@ == old(text)@.push(c),
{
    text.push(c)
}

/// A scan for words in progress: the words that are complete, and the word that is
/// being read. The scan is fed one character at a time, each with the answer to the
/// question whether it separates words.
pub struct WordScanner {
    words: Vec<String>,
    current: String,
}

/// The complete words of a scan after it was fed a character.
pub open spec fn finished_after(
    finished: Seq<Seq<char>>,
    pending: Seq<char>,
    separator: bool,
) -> Seq<Seq<char>> {
    if separator && pending.len() > 0 {
        finished.push(pending)
    } else {
        finished
    }
}

/// The unfinished word of a scan after it was fed the character `c`.
pub open spec fn pending_after(pending: Seq<char>, c: char, separator: bool) -> Seq<char> {
    if separator {
        Seq::empty()
    } else {
        pending.push(c)
    }
}

/// The words of a scan that has come to the end of its text.
pub open spec fn finished_at_end(finished: Seq<Seq<char>>, pending: Seq<char>) -> Seq<Seq<char>> {
    if pending.len() > 0 {
        finished.push(pending)
    } else {
        finished
    }
}

impl WordScanner {
    /// The words that are complete, in their order.
    pub closed spec fn finished(&self) -> Seq<Seq<char>> {
        self.words.deep_view()
    }

    /// The word that is being read; empty between words.
    pub closed spec fn pending(&self) -> Seq<char> {
        self.current@
    }

    /// A scan that has read nothing yet.
    pub fn new() -> (scanner: WordScanner)
        ensures
            scanner.finished() == Seq::<Seq<char>>::empty(),
            scanner.pending() == Seq::<char>::empty(),
    {
        let scanner = WordScanner { words: Vec::new(), current: String::new() };
        assert(scanner.words.deep_view() =~= Seq::<Seq<char>>::empty());
        scanner
    }

    /// Feeds the next character. A separator completes the word that is being read, if
    /// there is one, and is dropped; any other character joins that word.
    pub fn feed(&mut self, c: char, separator: bool)
        ensures
            final(self).finished() == finished_after(
                old(self).finished(),
                old(self).pending(),
                separator,
            ),
            final(self).pending() == pending_after(old(self).pending(), c, separator),
    {
        if separator {
            if !self.current.as_str().is_empty() {
                let ghost before = self.words.deep_view();
                let mut word = String::new();
                std::mem::swap(&mut self.current, &mut word);
                self.words.push(word);
                assert(self.words.deep_view() =~= before.push(word@));
            }
        } else {
            push_char(&mut self.current, c);
        }
    }

    /// Ends the scan: the word that is being read, if there is one, is the last word.
    pub fn finish(self) -> (words: Vec<String>)
        ensures
            words.deep_view() == finished_at_end(self.finished(), self.pending()),
    {
        let mut words = self.words;
        let current = self.current;
        if !current.as_str().is_empty() {
            let ghost before = words.deep_view();
            words.push(current);
            assert(words.deep_view() =~= before.push(current@));
        }
        words
    }
}

/// Splits `text` at whitespace into its words, in the order in which they occur.
pub fn split_whitespace(text: &str) -> (words: Vec<String>)
    ensures
        words.deep_view() == split_words(text@),
{
    let mut scanner = WordScanner::new();
    let chars = text.chars();
    proof {
        assert(text@.skip(0) =~= text@);
        assert(scanner.finished() + split_words(text@) =~= split_words(text@));
    }
    for c in it: chars
        invariant
            it.seq() == text@,
            scanner.finished() + split_pending(scanner.pending(), text@.skip(it.index() as int))
                == split_words(text@),
    {
        let ghost rest = text@.skip(it.index() as int);
        let ghost finished = scanner.finished();
        let ghost pending = scanner.pending();
        assert(rest.drop_first() =~= text@.skip(it.index() + 1));
        assert(rest[0] == c);
        let separator = char_is_whitespace(c);
        proof {
            if separator {
                lemma_pending_flush(pending, rest);
                if pending.len() > 0 {
                    assert(finished.push(pending) + split_pending(
                        Seq::empty(),
                        rest.drop_first(),
                    ) =~= finished + (seq![pending] + split_pending(
                        Seq::empty(),
                        rest.drop_first(),
                    )));
                }
            } else {
                lemma_pending_extend(pending, rest);
            }
        }
        scanner.feed(c, separator);
    }
    proof {
        lemma_pending_end(scanner.pending());
        assert(text@.skip(text@.len() as int) =~= Seq::<char>::empty());
        if scanner.pending().len() > 0 {
            assert(scanner.finished() + seq![scanner.pending()] =~= scanner.finished().push(
                scanner.pending(),
            ));
        } else {
            assert(scanner.finished() + Seq::<Seq<char>>::empty() =~= scanner.finished());
        }
    }
    scanner.finish()
}

} // verus!
