use vstd::prelude::*;

verus! {

/// The whitespace characters that separate mnemonic words: blank, tab,
/// newline and carriage return.
pub open spec fn is_space(c: char) -> bool {
    c == ' ' || c == '\t' || c == '\n' || c == '\r'
}

/// Number of words in `s[i..]`, given whether position `i` sits inside a
/// word that has already been counted.
pub open spec fn word_count_from(s: Seq<char>, i: int, in_word: bool) -> nat
    decreases s.len() - i when 0 <= i <= s.len()
{
    if i >= s.len() {
        0
    } else if is_space(s[i]) {
        word_count_from(s, i + 1, false)
    } else if in_word {
        word_count_from(s, i + 1, true)
    } else {
        word_count_from(s, i + 1, true) + 1
    }
}

/// Number of maximal runs of non-space characters in `s`.
pub open spec fn word_count(s: Seq<char>) -> nat {
    word_count_from(s, 0, false)
}

/// Canonical form of `s[i..]`: its words joined by single blanks, given
/// whether position `i` sits inside a word and whether a word has already
/// been emitted before `i`.
pub open spec fn normal_from(s: Seq<char>, i: int, in_word: bool, started: bool) -> Seq<char>
    decreases s.len() - i when 0 <= i <= s.len()
{
    if i >= s.len() {
        Seq::<char>::empty()
    } else if is_space(s[i]) {
        normal_from(s, i + 1, false, started)
    } else if in_word {
        seq![s[i]] + normal_from(s, i + 1, true, started)
    } else if started {
        seq![' ', s[i]] + normal_from(s, i + 1, true, true)
    } else {
        seq![s[i]] + normal_from(s, i + 1, true, true)
    }
}

/// Canonical form of `s`: no surrounding whitespace, words joined by
/// single blanks.
pub open spec fn normal_of(s: Seq<char>) -> Seq<char> {
    normal_from(s, 0, false, false)
}

/// Whether `c` separates mnemonic words.
pub fn is_space_char(c: char) -> (b: bool)
    ensures
        b == is_space(c),
{
    c == ' ' || c == '\t' || c == '\n' || c == '\r'
}

/// Normalizes mnemonic text: trims surrounding whitespace, collapses every
/// run of whitespace (newlines included) to a single blank, and counts the
/// words it found.
pub fn normalize_words(text: &str) -> (r: (Vec<char>, usize))
    ensures
        r.0@ == normal_of(text@),
        r.1 == word_count(text@),
{
    let n = text.unicode_len();
    let mut out: Vec<char> = Vec::new();
    let mut count: usize = 0;
    let mut in_word = false;
    let mut i: usize = 0;
    while i < n
        invariant
            i <= n,
            n == text@.len(),
            count <= i,
            in_word ==> count > 0,
            out@ + normal_from(text@, i as int, in_word, count > 0) == normal_of(text@),
            count + word_count_from(text@, i as int, in_word) == word_count(text@),
        decreases n - i,
    {
        let c = text.get_char(i);
        if is_space_char(c) {
            in_word = false;
        } else if in_word {
            out.push(c);
        } else {
            if count > 0 {
                out.push(' ');
            }
            out.push(c);
            in_word = true;
            count = count + 1;
        }
        i = i + 1;
    }
    (out, count)
}

} // verus!
