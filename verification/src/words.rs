//! Splitting a line of input into whitespace-separated words.

use vstd::prelude::*;

verus! {

/// Whether `c` is white space: the code points that Unicode gives the
/// property `White_Space`.
pub open spec fn is_space(c: char) -> bool {
    let u = c as u32;
    ||| 0x09 <= u <= 0x0d
    ||| u == 0x20
    ||| u == 0x85
    ||| u == 0xa0
    ||| u == 0x1680
    ||| 0x2000 <= u <= 0x200a
    ||| u == 0x2028
    ||| u == 0x2029
    ||| u == 0x202f
    ||| u == 0x205f
    ||| u == 0x3000
}

/// Length of the longest prefix of `s` that holds no white space.
pub open spec fn word_len(s: Seq<char>) -> nat
    decreases s.len(),
{
    if s.len() == 0 || is_space(s[0]) {
        0
    } else {
        1 + word_len(s.drop_first())
    }
}

/// The words of `s`: its maximal runs of characters that are not white
/// space, in the order in which they occur.
pub open spec fn words(s: Seq<char>) -> Seq<Seq<char>>
    decreases s.len(),
    via words_decreases
{
    if s.len() == 0 {
        Seq::empty()
    } else if is_space(s[0]) {
        words(s.drop_first())
    } else {
        let n = word_len(s) as int;
        seq![s.take(n)] + words(s.skip(n))
    }
}

#[via_fn]
proof fn words_decreases(s: Seq<char>) {
    lemma_word_len_bounds(s);
}

/// A word is never longer than the text it starts, and is not empty where
/// the text starts with a character that is not white space.
pub proof fn lemma_word_len_bounds(s: Seq<char>)
    ensures
        word_len(s) <= s.len(),
        s.len() > 0 && !is_space(s[0]) ==> word_len(s) >= 1,
    decreases s.len(),
{
    if s.len() > 0 && !is_space(s[0]) {
        lemma_word_len_bounds(s.drop_first());
    }
}

/// The first `word_len(s)` characters of `s` are no white space, and the
/// character after them, where there is one, is.
pub proof fn lemma_word_len_is_maximal(s: Seq<char>)
    ensures
        forall|k: int| 0 <= k < word_len(s) ==> !is_space(#[trigger] s[k]),
        word_len(s) < s.len() ==> is_space(s[word_len(s) as int]),
    decreases s.len(),
{
    lemma_word_len_bounds(s);
    if s.len() > 0 && !is_space(s[0]) {
        let t = s.drop_first();
        lemma_word_len_is_maximal(t);
        lemma_word_len_bounds(t);
        assert forall|k: int| 0 <= k < word_len(s) implies !is_space(#[trigger] s[k]) by {
            if k > 0 {
                assert(s[k] == t[k - 1]);
            }
        }
        if word_len(s) < s.len() {
            assert(s[word_len(s) as int] == t[word_len(t) as int]);
        }
    }
}

/// Every word holds at least one character and no white space.
pub proof fn lemma_words_hold_no_space(s: Seq<char>, i: int)
    requires
        0 <= i < words(s).len(),
    ensures
        words(s)[i].len() > 0,
        forall|k: int| 0 <= k < words(s)[i].len() ==> !is_space(#[trigger] words(s)[i][k]),
    decreases s.len(),
{
    if s.len() == 0 {
    } else if is_space(s[0]) {
        lemma_words_hold_no_space(s.drop_first(), i);
    } else {
        lemma_word_len_bounds(s);
        lemma_word_len_is_maximal(s);
        let n = word_len(s) as int;
        if i == 0 {
            assert(words(s)[0] == s.take(n));
        } else {
            assert(words(s)[i] == words(s.skip(n))[i - 1]);
            lemma_words_hold_no_space(s.skip(n), i - 1);
        }
    }
}

/// The characters of `line`, in order.
pub fn chars_of(line: &str) -> (r: Vec<char>)
    ensures
        r@ == line@,
{
    let mut out: Vec<char> = Vec::new();
    for c in it: line.chars()
        invariant
            out@ == it.seq().take(it.index()),
            it.seq() == line@,
    {
        out.push(c);
    }
    out
}

/// Tells whether `a` and `b` hold the same characters.
pub fn same_text(a: &str, b: &str) -> (r: bool)
    ensures
        r == (a@ == b@),
{
    let xs = chars_of(a);
    let ys = chars_of(b);
    if xs.len() != ys.len() {
        return false;
    }
    let mut i: usize = 0;
    while i < xs.len()
        invariant
            xs@ == a@,
            ys@ == b@,
            xs.len() == ys.len(),
            i <= xs.len(),
            xs@.take(i as int) == ys@.take(i as int),
        decreases xs.len() - i,
    {
        if xs[i] != ys[i] {
            return false;
        }
        assert(xs@.take(i + 1) =~= xs@.take(i as int).push(xs@[i as int]));
        assert(ys@.take(i + 1) =~= ys@.take(i as int).push(ys@[i as int]));
        i += 1;
    }
    assert(xs@.take(i as int) =~= xs@);
    assert(ys@.take(i as int) =~= ys@);
    true
}

/// Tells whether `c` is white space.
pub fn is_whitespace(c: char) -> (r: bool)
    ensures
        r == is_space(c),
{
    let u: u32 = c as u32;
    (0x09 <= u && u <= 0x0d) || u == 0x20 || u == 0x85 || u == 0xa0 || u == 0x1680 || (0x2000 <= u
        && u <= 0x200a) || u == 0x2028 || u == 0x2029 || u == 0x202f || u == 0x205f || u == 0x3000
}

/// Skipping one white-space character at the front changes no word, and a
/// text that starts a word splits into that word and the words after it.
proof fn lemma_words_from(s: Seq<char>, i: int)
    requires
        0 <= i < s.len(),
    ensures
        is_space(s[i]) ==> words(s.skip(i)) == words(s.skip(i + 1)),
        !is_space(s[i]) ==> word_len(s.skip(i)) == 1 + word_len(s.skip(i + 1)),
{
    assert(s.skip(i).drop_first() =~= s.skip(i + 1));
}

/// Splits `line` into its words.
pub fn split_words<'a>(line: &'a str) -> (r: Vec<&'a str>)
    ensures
        r.deep_view() == words(line@),
{
    let cs = chars_of(line);
    let n: usize = cs.len();
    let mut out: Vec<&'a str> = Vec::new();
    let mut i: usize = 0;
    assert(line@.skip(0) =~= line@);
    assert(out.deep_view() =~= Seq::<Seq<char>>::empty());
    while i < n
        invariant
            cs@ == line@,
            n == cs.len(),
            i <= n,
            words(line@) == out.deep_view() + words(line@.skip(i as int)),
        decreases n - i,
    {
        if is_whitespace(cs[i]) {
            proof {
                lemma_words_from(line@, i as int);
            }
            i += 1;
        } else {
            let start: usize = i;
            let mut j: usize = i;
            while j < n && !is_whitespace(cs[j])
                invariant
                    cs@ == line@,
                    n == cs.len(),
                    start <= j <= n,
                    word_len(line@.skip(start as int)) == (j - start) + word_len(
                        line@.skip(j as int),
                    ),
                decreases n - j,
            {
                proof {
                    lemma_words_from(line@, j as int);
                }
                j += 1;
            }
            let word = line.substring_char(start, j);
            proof {
                let rest = line@.skip(start as int);
                let len = (j - start) as int;
                assert(word_len(line@.skip(j as int)) == 0);
                assert(word_len(rest) == len);
                assert(rest.take(len) =~= word@);
                assert(rest.skip(len) =~= line@.skip(j as int));
                assert(words(rest) == seq![word@] + words(line@.skip(j as int)));
                assert(out.deep_view().push(word@) + words(line@.skip(j as int))
                    =~= out.deep_view() + words(rest));
            }
            let ghost before = out.deep_view();
            out.push(word);
            assert(out.deep_view() =~= before.push(word@));
            i = j;
        }
    }
    assert(line@.skip(n as int) =~= Seq::<char>::empty());
    assert(out.deep_view() + Seq::<Seq<char>>::empty() =~= out.deep_view());
    out
}

} // verus!
