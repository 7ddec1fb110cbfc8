//! One line of input, taken apart into a command name and its arguments.
//!
//! Words are separated by whitespace. There is no quoting and no escaping:
//! a word is a maximal run of characters that are not whitespace.

use vstd::prelude::*;
use vstd::string::*;
use crate::text::{is_space, is_space_char, texts};

verus! {

/// The run of characters from `i` up to the next separator.
pub open spec fn word_at(s: Seq<char>, i: int) -> Seq<char>
    decreases s.len() - i,
{
    if i < 0 || i >= s.len() || is_space(s[i]) {
        Seq::empty()
    } else {
        seq![s[i]] + word_at(s, i + 1)
    }
}

/// Whether a word starts at `i`: the character there is no separator and
/// the one before it, if there is one, is.
pub open spec fn starts_word(s: Seq<char>, i: int) -> bool {
    0 <= i < s.len() && !is_space(s[i]) && (i == 0 || is_space(s[i - 1]))
}

/// The words that start at position `i` or later, in order.
pub open spec fn words_from(s: Seq<char>, i: int) -> Seq<Seq<char>>
    decreases s.len() - i,
{
    if i < 0 || i >= s.len() {
        Seq::empty()
    } else if starts_word(s, i) {
        seq![word_at(s, i)] + words_from(s, i + 1)
    } else {
        words_from(s, i + 1)
    }
}

/// The words of a line, in order.
pub open spec fn words(s: Seq<char>) -> Seq<Seq<char>> {
    words_from(s, 0)
}

/// Whether every character of `s` is a separator (an empty line is blank).
pub open spec fn is_blank(s: Seq<char>) -> bool {
    forall|k: int| 0 <= k < s.len() ==> is_space(#[trigger] s[k])
}

/// A command name and its arguments.
#[derive(Clone, Debug, PartialEq, Eq)]
pub struct CommandLine {
    /// The first word of the line.
    pub name: String,
    /// The words after the first, in order.
    pub arguments: Vec<String>,
}

impl CommandLine {
    /// The arguments as texts.
    pub open spec fn argument_texts(&self) -> Seq<Seq<char>> {
        texts(self.arguments@)
    }
}

proof fn lemma_word_is_run(s: Seq<char>, a: int, b: int)
    requires
        0 <= a <= b <= s.len(),
        forall|k: int| a <= k < b ==> !is_space(s[k]),
        b == s.len() || is_space(s[b]),
    ensures
        word_at(s, a) == s.subrange(a, b),
    decreases b - a,
{
    if a < b {
        lemma_word_is_run(s, a + 1, b);
        assert(s.subrange(a, b) =~= seq![s[a]] + s.subrange(a + 1, b));
    } else {
        assert(s.subrange(a, b) =~= Seq::<char>::empty());
    }
}

proof fn lemma_no_start_inside_word(s: Seq<char>, a: int, j: int, b: int)
    requires
        0 <= a < j <= b <= s.len(),
        forall|k: int| a <= k < b ==> !is_space(s[k]),
    ensures
        words_from(s, j) == words_from(s, b),
    decreases b - j,
{
    if j < b {
        assert(!is_space(s[j - 1]));
        lemma_no_start_inside_word(s, a, j + 1, b);
    }
}

/// A line has no words exactly when it is blank.
pub proof fn lemma_blank_has_no_words(s: Seq<char>)
    ensures
        is_blank(s) <==> words(s).len() == 0,
{
    if is_blank(s) {
        lemma_blank_tail(s, 0);
    } else {
        let k = choose|k: int| 0 <= k < s.len() && !is_space(#[trigger] s[k]);
        lemma_word_start_exists(s, k);
        let a = choose|a: int| 0 <= a <= k && starts_word(s, a);
        lemma_start_counts(s, 0, a);
    }
}

proof fn lemma_blank_tail(s: Seq<char>, i: int)
    requires
        0 <= i <= s.len(),
        is_blank(s),
    ensures
        words_from(s, i).len() == 0,
    decreases s.len() - i,
{
    if i < s.len() {
        assert(is_space(s[i]));
        lemma_blank_tail(s, i + 1);
    }
}

proof fn lemma_word_start_exists(s: Seq<char>, i: int)
    requires
        0 <= i < s.len(),
        !is_space(s[i]),
    ensures
        exists|a: int| 0 <= a <= i && starts_word(s, a),
    decreases i,
{
    if i == 0 || is_space(s[i - 1]) {
        assert(starts_word(s, i));
    } else {
        lemma_word_start_exists(s, i - 1);
    }
}

proof fn lemma_start_counts(s: Seq<char>, i: int, a: int)
    requires
        0 <= i <= a < s.len(),
        starts_word(s, a),
    ensures
        words_from(s, i).len() > 0,
    decreases a - i,
{
    if i < a {
        lemma_start_counts(s, i + 1, a);
    }
}

proof fn lemma_word_is_solid(s: Seq<char>, i: int)
    requires
        0 <= i,
    ensures
        forall|j: int| 0 <= j < word_at(s, i).len() ==> !is_space(#[trigger] word_at(s, i)[j]),
        i < s.len() && !is_space(s[i]) ==> word_at(s, i).len() > 0,
    decreases s.len() - i,
{
    if i < s.len() && !is_space(s[i]) {
        lemma_word_is_solid(s, i + 1);
        let rest = word_at(s, i + 1);
        let word = word_at(s, i);
        assert(word == seq![s[i]] + rest);
        assert forall|j: int| 0 <= j < word.len() implies !is_space(#[trigger] word[j]) by {
            if j > 0 {
                assert(word[j] == rest[j - 1]);
            }
        }
    }
}

proof fn lemma_words_from_are_solid(s: Seq<char>, i: int)
    requires
        0 <= i,
    ensures
        forall|k: int|
            0 <= k < words_from(s, i).len() ==> (#[trigger] words_from(s, i)[k]).len() > 0,
        forall|k: int, j: int|
            0 <= k < words_from(s, i).len() && 0 <= j < words_from(s, i)[k].len() ==> !is_space(
                #[trigger] words_from(s, i)[k][j],
            ),
    decreases s.len() - i,
{
    if i < s.len() {
        lemma_words_from_are_solid(s, i + 1);
        lemma_word_is_solid(s, i);
        if starts_word(s, i) {
            let rest = words_from(s, i + 1);
            let all = words_from(s, i);
            assert(all == seq![word_at(s, i)] + rest);
            assert forall|k: int| 0 <= k < all.len() implies (#[trigger] all[k]).len() > 0 && (
            forall|j: int| 0 <= j < all[k].len() ==> !is_space(#[trigger] all[k][j])) by {
                if k > 0 {
                    assert(all[k] == rest[k - 1]);
                }
            }
        }
    }
}

/// No word is empty and no word holds a separator.
pub proof fn lemma_words_are_solid(s: Seq<char>)
    ensures
        forall|k: int| 0 <= k < words(s).len() ==> (#[trigger] words(s)[k]).len() > 0,
        forall|k: int, j: int|
            0 <= k < words(s).len() && 0 <= j < words(s)[k].len() ==> !is_space(
                #[trigger] words(s)[k][j],
            ),
{
    lemma_words_from_are_solid(s, 0);
}

/// Takes a line apart into its words.
pub fn split_words(line: &str) -> (r: Vec<String>)
    ensures
        texts(r@) == words(line@),
{
    let n: usize = line.unicode_len();
    let mut out: Vec<String> = Vec::new();
    let mut i: usize = 0;
    assert(texts(out@) + words_from(line@, 0) =~= words(line@));
    while i < n
        invariant
            n == line@.len(),
            i <= n,
            i == 0 || i == n || is_space(line@[i - 1]) || is_space(line@[i as int]),
            texts(out@) + words_from(line@, i as int) == words(line@),
        decreases n - i,
    {
        if is_space_char(line.get_char(i)) {
            i += 1;
        } else {
            let mut b: usize = i + 1;
            while b < n && !is_space_char(line.get_char(b))
                invariant
                    n == line@.len(),
                    i < b <= n,
                    forall|k: int| i <= k < b ==> !is_space(line@[k]),
                decreases n - b,
            {
                b += 1;
            }
            let word = String::from_str(line.substring_char(i, b));
            proof {
                let s = line@;
                assert(starts_word(s, i as int));
                lemma_word_is_run(s, i as int, b as int);
                lemma_no_start_inside_word(s, i as int, i + 1, b as int);
                assert(words_from(s, i as int) == seq![word@] + words_from(s, b as int));
                assert(texts(out@.push(word)) =~= texts(out@) + seq![word@]);
                assert(texts(out@.push(word)) + words_from(s, b as int) =~= texts(out@) + (seq![
                    word@,
                ] + words_from(s, b as int)));
            }
            out.push(word);
            i = b;
        }
    }
    assert(texts(out@) + words_from(line@, n as int) =~= texts(out@));
    out
}

/// Reads one line: its first word is the command's name, the others are the
/// arguments. A blank line holds no command.
pub fn tokenize(line: &str) -> (r: Option<CommandLine>)
    ensures
        r is None <==> is_blank(line@),
        r is Some ==> seq![r.unwrap().name@] + r.unwrap().argument_texts() == words(line@),
        r is Some ==> r.unwrap().name@.len() > 0,
{
    let mut all = split_words(line);
    proof {
        lemma_blank_has_no_words(line@);
        lemma_words_are_solid(line@);
    }
    if all.len() == 0 {
        return None;
    }
    let ghost before = all@;
    let name = all.remove(0);
    assert(seq![name@] + texts(all@) =~= texts(before));
    assert(name@ == words(line@)[0]);
    Some(CommandLine { name, arguments: all })
}

} // verus!
