//! White space in text: trimming it from the ends and splitting words at it.

use vstd::prelude::*;
use vstd::string::*;

verus! {

/// Whether a character is white space: the characters of Unicode's
/// White_Space property.
pub open spec fn is_whitespace(c: char) -> bool {
    let code = c as u32;
    ||| 0x09 <= code <= 0x0d
    ||| code == 0x20
    ||| code == 0x85
    ||| code == 0xa0
    ||| code == 0x1680
    ||| 0x2000 <= code <= 0x200a
    ||| code == 0x2028
    ||| code == 0x2029
    ||| code == 0x202f
    ||| code == 0x205f
    ||| code == 0x3000
}

/// Tells white space from other characters.
pub fn whitespace(c: char) -> (b: bool)
    ensures
        b == is_whitespace(c),
{
    let code: u32 = c as u32;
    (0x09 <= code && code <= 0x0d) || code == 0x20 || code == 0x85 || code == 0xa0 || code
        == 0x1680 || (0x2000 <= code && code <= 0x200a) || code == 0x2028 || code == 0x2029
        || code == 0x202f || code == 0x205f || code == 0x3000
}

/// The number of white-space characters at the start.
pub open spec fn leading(s: Seq<char>) -> nat
    decreases s.len(),
{
    if s.len() > 0 && is_whitespace(s[0]) {
        1 + leading(s.drop_first())
    } else {
        0
    }
}

/// The number of white-space characters at the end.
pub open spec fn trailing(s: Seq<char>) -> nat
    decreases s.len(),
{
    if s.len() > 0 && is_whitespace(s.last()) {
        1 + trailing(s.drop_last())
    } else {
        0
    }
}

/// The text without the white space at its start.
pub open spec fn trimmed_start(s: Seq<char>) -> Seq<char> {
    s.subrange(leading(s) as int, s.len() as int)
}

/// The text without the white space at its end.
pub open spec fn trimmed_end(s: Seq<char>) -> Seq<char> {
    s.subrange(0, s.len() - trailing(s))
}

/// The text without the white space at either end.
pub open spec fn trimmed(s: Seq<char>) -> Seq<char> {
    trimmed_end(trimmed_start(s))
}

/// A run of `k` white-space characters at the start, followed by the end of
/// the text or by another character, is all the leading white space.
pub proof fn lemma_leading(s: Seq<char>, k: int)
    requires
        0 <= k <= s.len(),
        forall|i: int| 0 <= i < k ==> is_whitespace(#[trigger] s[i]),
        k < s.len() ==> !is_whitespace(s[k]),
    ensures
        leading(s) == k,
    decreases k,
{
    if k > 0 {
        let rest = s.drop_first();
        assert forall|i: int| 0 <= i < k - 1 implies is_whitespace(#[trigger] rest[i]) by {
            assert(rest[i] == s[i + 1]);
        }
        lemma_leading(rest, k - 1);
    }
}

/// A run of `k` white-space characters at the end, preceded by the start of
/// the text or by another character, is all the trailing white space.
pub proof fn lemma_trailing(s: Seq<char>, k: int)
    requires
        0 <= k <= s.len(),
        forall|i: int| s.len() - k <= i < s.len() ==> is_whitespace(#[trigger] s[i]),
        k < s.len() ==> !is_whitespace(s[s.len() - k - 1]),
    ensures
        trailing(s) == k,
    decreases k,
{
    if k > 0 {
        let rest = s.drop_last();
        assert forall|i: int| rest.len() - (k - 1) <= i < rest.len() implies is_whitespace(
            #[trigger] rest[i],
        ) by {
            assert(rest[i] == s[i]);
        }
        lemma_trailing(rest, k - 1);
    }
}

/// The leading white space is a run of white-space characters that ends at
/// the end of the text or before another character.
pub proof fn lemma_leading_run(s: Seq<char>)
    ensures
        leading(s) <= s.len(),
        forall|i: int| 0 <= i < leading(s) ==> is_whitespace(#[trigger] s[i]),
        leading(s) < s.len() ==> !is_whitespace(s[leading(s) as int]),
    decreases s.len(),
{
    if s.len() > 0 && is_whitespace(s[0]) {
        let rest = s.drop_first();
        lemma_leading_run(rest);
        assert forall|i: int| 0 <= i < leading(s) implies is_whitespace(#[trigger] s[i]) by {
            if i > 0 {
                assert(s[i] == rest[i - 1]);
            }
        }
        if leading(s) < s.len() {
            assert(s[leading(s) as int] == rest[leading(rest) as int]);
        }
    }
}

/// The trailing white space is a run of white-space characters that starts
/// at the start of the text or after another character.
pub proof fn lemma_trailing_run(s: Seq<char>)
    ensures
        trailing(s) <= s.len(),
        forall|i: int| s.len() - trailing(s) <= i < s.len() ==> is_whitespace(#[trigger] s[i]),
        trailing(s) < s.len() ==> !is_whitespace(s[s.len() - trailing(s) - 1]),
    decreases s.len(),
{
    if s.len() > 0 && is_whitespace(s.last()) {
        let rest = s.drop_last();
        lemma_trailing_run(rest);
        assert forall|i: int| s.len() - trailing(s) <= i < s.len() implies is_whitespace(
            #[trigger] s[i],
        ) by {
            if i < s.len() - 1 {
                assert(s[i] == rest[i]);
            }
        }
        if trailing(s) < s.len() {
            assert(s[s.len() - trailing(s) - 1] == rest[rest.len() - trailing(rest) - 1]);
        }
    }
}

/// A trimmed text has no white space at either end, so trimming it again
/// changes nothing.
pub proof fn lemma_trim_twice(s: Seq<char>)
    ensures
        leading(trimmed(s)) == 0,
        trailing(trimmed(s)) == 0,
        trimmed(trimmed(s)) == trimmed(s),
{
    lemma_leading_run(s);
    let t = trimmed_start(s);
    lemma_trailing_run(t);
    let r = trimmed(s);
    assert(r == t.subrange(0, t.len() - trailing(t)));
    if r.len() > 0 {
        assert(r[0] == t[0]);
        assert(t[0] == s[leading(s) as int]);
        assert(r.last() == t[t.len() - trailing(t) - 1]);
    }
    lemma_leading(r, 0);
    lemma_trailing(r, 0);
    assert(trimmed_start(r) =~= r);
    assert(trimmed_end(r) =~= r);
}

/// The text without the white space at its start.
pub fn trim_start(s: &str) -> (r: &str)
    ensures
        r@ == trimmed_start(s@),
{
    let n = s.unicode_len();
    let mut i: usize = 0;
    loop
        invariant
            n == s@.len(),
            i <= n,
            forall|j: int| 0 <= j < i ==> is_whitespace(#[trigger] s@[j]),
        ensures
            i <= n,
            forall|j: int| 0 <= j < i ==> is_whitespace(#[trigger] s@[j]),
            i < n ==> !is_whitespace(s@[i as int]),
        decreases n - i,
    {
        if i >= n {
            break ;
        }
        if !whitespace(s.get_char(i)) {
            break ;
        }
        i = i + 1;
    }
    proof {
        lemma_leading(s@, i as int);
    }
    s.substring_char(i, n)
}

/// The text without the white space at its end.
pub fn trim_end(s: &str) -> (r: &str)
    ensures
        r@ == trimmed_end(s@),
{
    let n = s.unicode_len();
    let mut end: usize = n;
    loop
        invariant
            n == s@.len(),
            end <= n,
            forall|j: int| end <= j < n ==> is_whitespace(#[trigger] s@[j]),
        ensures
            end <= n,
            forall|j: int| end <= j < n ==> is_whitespace(#[trigger] s@[j]),
            end > 0 ==> !is_whitespace(s@[end - 1]),
        decreases end,
    {
        if end == 0 {
            break ;
        }
        if !whitespace(s.get_char(end - 1)) {
            break ;
        }
        end = end - 1;
    }
    proof {
        lemma_trailing(s@, n - end);
    }
    s.substring_char(0, end)
}

/// The text without the white space at either end.
pub fn trim(s: &str) -> (r: &str)
    ensures
        r@ == trimmed(s@),
{
    trim_end(trim_start(s))
}

/// Where the run of characters other than white space that starts at `i`
/// ends: the position of the next white space, or the end of the text.
pub open spec fn word_end(s: Seq<char>, i: int) -> int
    decreases s.len() - i,
{
    if 0 <= i < s.len() && !is_whitespace(s[i]) {
        word_end(s, i + 1)
    } else {
        i
    }
}

/// The words of the text from position `i` on: the longest runs of
/// characters other than white space, in order.
pub open spec fn words_from(s: Seq<char>, i: int) -> Seq<Seq<char>>
    decreases s.len() - i,
{
    if i < 0 || i >= s.len() {
        Seq::empty()
    } else if is_whitespace(s[i]) {
        words_from(s, i + 1)
    } else {
        let j = word_end(s, i);
        if i < j <= s.len() {
            seq![s.subrange(i, j)] + words_from(s, j)
        } else {
            Seq::empty()
        }
    }
}

/// The words of a text.
pub open spec fn words(s: Seq<char>) -> Seq<Seq<char>> {
    words_from(s, 0)
}

/// A run of characters other than white space from `i` up to `j`, where the
/// text ends or white space stands, ends at `j`.
pub proof fn lemma_word_end(s: Seq<char>, i: int, j: int)
    requires
        0 <= i <= j <= s.len(),
        forall|k: int| i <= k < j ==> !is_whitespace(#[trigger] s[k]),
        j < s.len() ==> is_whitespace(s[j]),
    ensures
        word_end(s, i) == j,
    decreases j - i,
{
    if i < j {
        lemma_word_end(s, i + 1, j);
    }
}

/// A run that starts in the text ends in it, and not before it starts.
pub proof fn lemma_word_end_bounds(s: Seq<char>, i: int)
    requires
        0 <= i <= s.len(),
    ensures
        i <= word_end(s, i) <= s.len(),
    decreases s.len() - i,
{
    if i < s.len() && !is_whitespace(s[i]) {
        lemma_word_end_bounds(s, i + 1);
    }
}

/// A text has no more words than characters.
pub proof fn lemma_words_len(s: Seq<char>, i: int)
    requires
        0 <= i <= s.len(),
    ensures
        words_from(s, i).len() <= s.len() - i,
    decreases s.len() - i,
{
    if i < s.len() {
        if is_whitespace(s[i]) {
            lemma_words_len(s, i + 1);
        } else {
            let j = word_end(s, i);
            lemma_word_end_bounds(s, i);
            if i < j {
                lemma_words_len(s, j);
            }
        }
    }
}

/// Splits a text into its words.
pub fn split_words(text: &str) -> (r: Vec<String>)
    ensures
        r@.len() == words(text@).len(),
        forall|k: int| 0 <= k < r@.len() ==> (#[trigger] r@[k])@ == words(text@)[k],
{
    let n = text.unicode_len();
    let mut r: Vec<String> = Vec::new();
    let mut i: usize = 0;
    let ghost mut found: Seq<Seq<char>> = Seq::empty();
    while i < n
        invariant
            n == text@.len(),
            i <= n,
            r@.len() == found.len(),
            forall|k: int| 0 <= k < r@.len() ==> (#[trigger] r@[k])@ == found[k],
            words(text@) == found + words_from(text@, i as int),
        decreases n - i,
    {
        if whitespace(text.get_char(i)) {
            i = i + 1;
        } else {
            let mut j: usize = i + 1;
            while j < n && !whitespace(text.get_char(j))
                invariant
                    n == text@.len(),
                    i < j <= n,
                    forall|k: int| i <= k < j ==> !is_whitespace(#[trigger] text@[k]),
                decreases n - j,
            {
                j = j + 1;
            }
            proof {
                lemma_word_end(text@, i as int, j as int);
                let word = text@.subrange(i as int, j as int);
                assert(words_from(text@, i as int) == seq![word] + words_from(text@, j as int));
                assert(found + (seq![word] + words_from(text@, j as int)) =~= found.push(word)
                    + words_from(text@, j as int));
                found = found.push(word);
            }
            r.push(String::from_str(text.substring_char(i, j)));
            i = j;
        }
    }
    proof {
        assert(words_from(text@, n as int) =~= Seq::<Seq<char>>::empty());
        assert(found + Seq::<Seq<char>>::empty() =~= found);
    }
    r
}

} // verus!
