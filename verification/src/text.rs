//! Plain operations on text: comparing, trimming, and reading an answer.

use vstd::prelude::*;
use vstd::string::*;
use vstd::utf8::*;

verus! {

/// Whether two texts hold the same characters.
pub fn same_text(a: &str, b: &str) -> (r: bool)
    ensures
        r == (a@ == b@),
{
    let x = a.as_bytes();
    let y = b.as_bytes();
    proof {
        encode_utf8_decode_utf8(a@);
        encode_utf8_decode_utf8(b@);
    }
    if x.len() != y.len() {
        assert(x@.len() != y@.len());
        return false;
    }
    let mut i: usize = 0;
    while i < x.len()
        invariant
            i <= x@.len(),
            x@.len() == y@.len(),
            x@ == encode_utf8(a@),
            y@ == encode_utf8(b@),
            forall|j: int| 0 <= j < i ==> x@[j] == y@[j],
        decreases x@.len() - i,
    {
        if x[i] != y[i] {
            assert(x@[i as int] != y@[i as int]);
            return false;
        }
        i = i + 1;
    }
    assert(x@ =~= y@);
    true
}

/// The characters that count as white space: those with the Unicode property
/// White_Space.
pub open spec fn is_white_space(c: char) -> bool {
    let u = c as u32;
    ||| 0x09 <= u <= 0x0d
    ||| u == 0x20
    ||| u == 0x85
    ||| u == 0xa0
    ||| u == 0x1680
    ||| 0x2000 <= u <= 0x200a
    ||| u == 0x2028
    ||| u == 0x2029
    ||| u == 0x202f
    ||| u == 0x205f
    ||| u == 0x3000
}

/// `s` without the white space it begins with.
pub open spec fn trim_start_of(s: Seq<char>) -> Seq<char>
    decreases s.len(),
{
    if s.len() > 0 && is_white_space(s[0]) {
        trim_start_of(s.drop_first())
    } else {
        s
    }
}

/// `s` without the white space it ends with.
pub open spec fn trim_end_of(s: Seq<char>) -> Seq<char>
    decreases s.len(),
{
    if s.len() > 0 && is_white_space(s.last()) {
        trim_end_of(s.drop_last())
    } else {
        s
    }
}

/// `s` without the white space around it.
pub open spec fn trimmed(s: Seq<char>) -> Seq<char> {
    trim_end_of(trim_start_of(s))
}

/// Where the white space at the start of `s` ends, the rest begins.
pub proof fn lemma_trim_start(s: Seq<char>, a: int)
    requires
        0 <= a <= s.len(),
        forall|j: int| 0 <= j < a ==> is_white_space(s[j]),
        a == s.len() || !is_white_space(s[a]),
    ensures
        trim_start_of(s) == s.subrange(a, s.len() as int),
    decreases a,
{
    if a == 0 {
        assert(s.subrange(0, s.len() as int) =~= s);
    } else {
        let rest = s.drop_first();
        lemma_trim_start(rest, a - 1);
        assert(rest.subrange(a - 1, rest.len() as int) =~= s.subrange(a, s.len() as int));
    }
}

/// Where the white space at the end of `s` begins, the rest ends.
pub proof fn lemma_trim_end(s: Seq<char>, b: int)
    requires
        0 <= b <= s.len(),
        forall|j: int| b <= j < s.len() ==> is_white_space(s[j]),
        b == 0 || !is_white_space(s[b - 1]),
    ensures
        trim_end_of(s) == s.subrange(0, b),
    decreases s.len() - b,
{
    if b == s.len() {
        assert(s.subrange(0, s.len() as int) =~= s);
    } else {
        let rest = s.drop_last();
        lemma_trim_end(rest, b);
        assert(rest.subrange(0, b) =~= s.subrange(0, b));
    }
}

/// Where the trimmed text lies in a text: from `a` up to `b`, with nothing
/// but white space before and behind, and none at its own two ends.
pub open spec fn trim_bounds(s: Seq<char>, a: int, b: int) -> bool {
    &&& 0 <= a <= b <= s.len()
    &&& forall|j: int| 0 <= j < a ==> is_white_space(s[j])
    &&& forall|j: int| b <= j < s.len() ==> is_white_space(s[j])
    &&& a < b ==> !is_white_space(s[a]) && !is_white_space(s[b - 1])
}

/// Bounds of the trimmed text give the trimmed text.
pub proof fn lemma_trimmed_at(s: Seq<char>, a: int, b: int)
    requires
        trim_bounds(s, a, b),
    ensures
        trimmed(s) == s.subrange(a, b),
{
    if a < b {
        lemma_trim_start(s, a);
        let rest = s.subrange(a, s.len() as int);
        lemma_trim_end(rest, b - a);
        assert(rest.subrange(0, b - a) =~= s.subrange(a, b));
    } else {
        lemma_trim_start(s, s.len() as int);
        let none = s.subrange(s.len() as int, s.len() as int);
        assert(none.len() == 0);
        assert(trim_end_of(none) == none);
        assert(none =~= s.subrange(a, b));
    }
}

/// Whether a character is white space.
pub fn is_whitespace(c: char) -> (r: bool)
    ensures
        r == is_white_space(c),
{
    let u: u32 = c as u32;
    (0x09 <= u && u <= 0x0d)
        || u == 0x20
        || u == 0x85
        || u == 0xa0
        || u == 0x1680
        || (0x2000 <= u && u <= 0x200a)
        || u == 0x2028
        || u == 0x2029
        || u == 0x202f
        || u == 0x205f
        || u == 0x3000
}

/// The text without the white space around it.
pub fn trim(s: &str) -> (r: &str)
    ensures
        r@ == trimmed(s@),
{
    let n = s.unicode_len();
    // Once a character that is no white space has been seen, `first` is the
    // place of the first such character and `end` the place behind the last.
    let mut found = false;
    let mut first: usize = 0;
    let mut end: usize = 0;
    let mut i: usize = 0;
    for c in it: s.chars()
        invariant
            it.seq() == s@,
            n == s@.len(),
            i == it.index(),
            i <= n,
            !found ==> first == 0 && end == 0,
            !found ==> forall|j: int| 0 <= j < i ==> is_white_space(s@[j]),
            found ==> first < end <= i,
            found ==> !is_white_space(s@[first as int]) && !is_white_space(s@[end - 1]),
            found ==> forall|j: int| 0 <= j < first ==> is_white_space(s@[j]),
            found ==> forall|j: int| end <= j < i ==> is_white_space(s@[j]),
    {
        if !is_whitespace(c) {
            if !found {
                found = true;
                first = i;
            }
            end = i + 1;
        }
        i = i + 1;
    }
    proof {
        lemma_trimmed_at(s@, first as int, end as int);
    }
    s.substring_char(first, end)
}

/// The lower-case form of a letter of the ASCII alphabet; any other
/// character as it is.
pub open spec fn ascii_lower(c: char) -> char {
    if 'A' <= c <= 'Z' {
        ((c as u32) + 32) as char
    } else {
        c
    }
}

/// An answer as it is judged: trimmed, with its ASCII letters in lower case.
pub open spec fn normalized(answer: Seq<char>) -> Seq<char> {
    trimmed(answer).map_values(|c: char| ascii_lower(c))
}

/// Whether an answer says yes: once normalized it is the word `yes`.
///
/// Only ASCII letters are folded. No character outside ASCII has `y`, `e` or
/// `s` as its lower case, so folding every letter would accept the same
/// answers.
pub open spec fn says_yes(answer: Seq<char>) -> bool {
    normalized(answer) == seq!['y', 'e', 's']
}

/// Whether the user, asked if another city should be looked up, said yes.
pub fn wants_another(answer: &str) -> (r: bool)
    ensures
        r == says_yes(answer@),
{
    let t = trim(answer);
    let n = t.unicode_len();
    if n != 3 {
        assert(normalized(answer@).len() != 3);
        return false;
    }
    let c0 = t.get_char(0);
    let c1 = t.get_char(1);
    let c2 = t.get_char(2);
    let r = (c0 == 'y' || c0 == 'Y') && (c1 == 'e' || c1 == 'E') && (c2 == 's' || c2 == 'S');
    proof {
        let w = normalized(answer@);
        assert(w.len() == 3);
        assert(w[0] == ascii_lower(c0));
        assert(w[1] == ascii_lower(c1));
        assert(w[2] == ascii_lower(c2));
        assert(r == (w[0] == 'y' && w[1] == 'e' && w[2] == 's'));
        if r {
            assert(w =~= seq!['y', 'e', 's']);
        }
    }
    r
}

/// Every character is white space.
pub open spec fn all_white_space(s: Seq<char>) -> bool {
    forall|i: int| 0 <= i < s.len() ==> is_white_space(s[i])
}

/// The word `yes` with each letter in either case.
pub open spec fn yes_in_some_case(w: Seq<char>) -> bool {
    &&& w.len() == 3
    &&& (w[0] == 'y' || w[0] == 'Y')
    &&& (w[1] == 'e' || w[1] == 'E')
    &&& (w[2] == 's' || w[2] == 'S')
}

/// Every text has bounds of its trimmed text.
pub proof fn lemma_trimmed_bounds(s: Seq<char>) -> (bounds: (int, int))
    ensures
        trim_bounds(s, bounds.0, bounds.1),
        trimmed(s) == s.subrange(bounds.0, bounds.1),
    decreases s.len(),
{
    let bounds = if s.len() == 0 {
        (0int, 0int)
    } else if is_white_space(s[0]) {
        let rest = s.drop_first();
        let inner = lemma_trimmed_bounds(rest);
        assert forall|j: int| 0 < j < s.len() implies #[trigger] s[j] == rest[j - 1] by {}
        (inner.0 + 1, inner.1 + 1)
    } else if is_white_space(s.last()) {
        let rest = s.drop_last();
        let inner = lemma_trimmed_bounds(rest);
        assert forall|j: int| 0 <= j < rest.len() implies #[trigger] s[j] == rest[j] by {}
        assert(inner.0 < inner.1) by {
            assert(!is_white_space(rest[0]));
        }
        inner
    } else {
        (0int, s.len() as int)
    };
    lemma_trimmed_at(s, bounds.0, bounds.1);
    bounds
}

/// An answer says yes exactly when, trimmed, it is the word `yes` in some
/// mixture of cases.
pub proof fn lemma_says_yes(answer: Seq<char>)
    ensures
        says_yes(answer) <==> yes_in_some_case(trimmed(answer)),
{
    let t = trimmed(answer);
    let w = normalized(answer);
    assert(w.len() == t.len());
    if t.len() == 3 {
        assert(w[0] == ascii_lower(t[0]));
        assert(w[1] == ascii_lower(t[1]));
        assert(w[2] == ascii_lower(t[2]));
        if yes_in_some_case(t) {
            assert(w =~= seq!['y', 'e', 's']);
        }
    }
}

/// The word `yes`, its letters in any case and with any white space around
/// it, says yes.
pub proof fn lemma_yes_with_space_around(before: Seq<char>, word: Seq<char>, after: Seq<char>)
    requires
        all_white_space(before),
        all_white_space(after),
        yes_in_some_case(word),
    ensures
        says_yes(before + word + after),
{
    let s = before + word + after;
    let a = before.len() as int;
    let b = a + 3;
    assert forall|j: int| 0 <= j < a implies is_white_space(s[j]) by {
        assert(s[j] == before[j]);
    }
    assert forall|j: int| b <= j < s.len() implies is_white_space(s[j]) by {
        assert(s[j] == after[j - b]);
    }
    assert(s[a] == word[0]);
    assert(s[b - 1] == word[2]);
    lemma_trimmed_at(s, a, b);
    assert(s.subrange(a, b) =~= word);
    lemma_says_yes(s);
}

/// An answer that says yes is the word `yes` in some mixture of cases with
/// nothing but white space around it. Any other answer, the empty one among
/// them, does not say yes.
pub proof fn lemma_only_yes_says_yes(answer: Seq<char>) -> (at: int)
    requires
        says_yes(answer),
    ensures
        0 <= at <= answer.len() - 3,
        all_white_space(answer.subrange(0, at)),
        yes_in_some_case(answer.subrange(at, at + 3)),
        all_white_space(answer.subrange(at + 3, answer.len() as int)),
{
    let bounds = lemma_trimmed_bounds(answer);
    lemma_says_yes(answer);
    assert(answer.subrange(bounds.0, bounds.1).len() == 3);
    bounds.0
}

} // verus!
