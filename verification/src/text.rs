//! Text handling: byte lengths, blank-trimming and character classes.

use vstd::prelude::*;
use vstd::string::*;

verus! {

/// Whether a character has the White_Space property of the Unicode
/// Character Database: tab to carriage return, space, next line, no-break
/// space, ogham space mark, en quad to hair space, line and paragraph
/// separator, narrow no-break space, medium mathematical space, and
/// ideographic space.
pub open spec fn char_is_whitespace(c: char) -> bool {
    let u = c as u32;
    ||| 0x0009 <= u <= 0x000D
    ||| u == 0x0020
    ||| u == 0x0085
    ||| u == 0x00A0
    ||| u == 0x1680
    ||| 0x2000 <= u <= 0x200A
    ||| u == 0x2028
    ||| u == 0x2029
    ||| u == 0x202F
    ||| u == 0x205F
    ||| u == 0x3000
}

/// Whether `char::is_alphanumeric` holds of a character.
pub uninterp spec fn char_is_alphanumeric(c: char) -> bool;

/// Calls `char::is_whitespace`, which says whether a character has the
/// White_Space property of the Unicode Character Database.
#[verifier::external_body]
pub(crate) fn is_whitespace(c: char) -> (r: bool)
    ensures
        r == char_is_whitespace(c),
{
    c.is_whitespace()
}

/// Calls `char::is_alphanumeric`. Its answer depends on the character alone,
/// and is named `char_is_alphanumeric`.
#[verifier::external_body]
pub(crate) fn is_alphanumeric(c: char) -> (r: bool)
    ensures
        r == char_is_alphanumeric(c),
{
    c.is_alphanumeric()
}

/// Length of a text in bytes, as stored.
pub open spec fn byte_len(s: Seq<char>) -> nat {
    vstd::utf8::encode_utf8(s).len()
}

/// Number of whitespace characters at the front of `s`.
pub open spec fn leading_blanks(s: Seq<char>) -> nat
    decreases s.len(),
{
    if s.len() > 0 && char_is_whitespace(s[0]) {
        1 + leading_blanks(s.subrange(1, s.len() as int))
    } else {
        0
    }
}

/// Number of whitespace characters at the back of `s`.
pub open spec fn trailing_blanks(s: Seq<char>) -> nat
    decreases s.len(),
{
    if s.len() > 0 && char_is_whitespace(s[s.len() - 1]) {
        1 + trailing_blanks(s.subrange(0, s.len() - 1))
    } else {
        0
    }
}

/// `s` without the whitespace at its front and back.
pub open spec fn trimmed(s: Seq<char>) -> Seq<char> {
    let front = leading_blanks(s);
    let rest = s.subrange(front as int, s.len() as int);
    rest.subrange(0, rest.len() - trailing_blanks(rest))
}

/// A text is blank when nothing but whitespace is in it.
pub open spec fn is_blank(s: Seq<char>) -> bool {
    trimmed(s).len() == 0
}

/// Every character is a letter or a digit.
pub open spec fn all_alphanumeric(s: Seq<char>) -> bool {
    forall|i: int| 0 <= i < s.len() ==> char_is_alphanumeric(#[trigger] s[i])
}

/// The blanks counted at the front are blanks, and what follows them is none.
proof fn lemma_leading_blanks(s: Seq<char>)
    ensures
        leading_blanks(s) <= s.len(),
        forall|i: int| 0 <= i < leading_blanks(s) ==> char_is_whitespace(#[trigger] s[i]),
        leading_blanks(s) < s.len() ==> !char_is_whitespace(s[leading_blanks(s) as int]),
    decreases s.len(),
{
    if s.len() > 0 && char_is_whitespace(s[0]) {
        let t = s.subrange(1, s.len() as int);
        lemma_leading_blanks(t);
        assert forall|i: int| 0 <= i < leading_blanks(s) implies char_is_whitespace(
            #[trigger] s[i],
        ) by {
            if i > 0 {
                assert(s[i] == t[i - 1]);
            }
        }
        if leading_blanks(s) < s.len() {
            assert(s[leading_blanks(s) as int] == t[leading_blanks(t) as int]);
        }
    }
}

/// The blanks counted at the back are blanks, and what precedes them is none.
proof fn lemma_trailing_blanks(s: Seq<char>)
    ensures
        trailing_blanks(s) <= s.len(),
        forall|i: int|
            s.len() - trailing_blanks(s) <= i < s.len() ==> char_is_whitespace(#[trigger] s[i]),
        trailing_blanks(s) < s.len() ==> !char_is_whitespace(
            s[s.len() - trailing_blanks(s) - 1],
        ),
    decreases s.len(),
{
    if s.len() > 0 && char_is_whitespace(s[s.len() - 1]) {
        let t = s.subrange(0, s.len() - 1);
        lemma_trailing_blanks(t);
        assert forall|i: int| s.len() - trailing_blanks(s) <= i < s.len() implies char_is_whitespace(
            #[trigger] s[i],
        ) by {
            if i < s.len() - 1 {
                assert(s[i] == t[i]);
            }
        }
        if trailing_blanks(s) < s.len() {
            assert(s[s.len() - trailing_blanks(s) - 1] == t[t.len() - trailing_blanks(t) - 1]);
        }
    }
}

/// The bytes of two texts in a row are the bytes of the one after those of
/// the other.
proof fn lemma_byte_len_concat(a: Seq<char>, b: Seq<char>)
    ensures
        byte_len(a + b) == byte_len(a) + byte_len(b),
    decreases a.len(),
{
    if a.len() == 0 {
        assert(a + b =~= b);
    } else {
        assert((a + b).drop_first() =~= a.drop_first() + b);
        assert((a + b)[0] == a[0]);
        lemma_byte_len_concat(a.drop_first(), b);
    }
}

/// A part of a text has no more bytes than the text.
pub proof fn lemma_byte_len_subrange(s: Seq<char>, from: int, to: int)
    requires
        0 <= from <= to <= s.len(),
    ensures
        byte_len(s.subrange(from, to)) <= byte_len(s),
{
    let head = s.subrange(0, from);
    let part = s.subrange(from, to);
    let tail = s.subrange(to, s.len() as int);
    assert(s =~= head + part + tail);
    lemma_byte_len_concat(head + part, tail);
    lemma_byte_len_concat(head, part);
}

/// Trimming makes a text no longer, and what is left of a text that is not
/// blank is not blank.
pub proof fn lemma_trimmed(s: Seq<char>)
    ensures
        byte_len(trimmed(s)) <= byte_len(s),
        trimmed(trimmed(s)) == trimmed(s),
        !is_blank(s) ==> !is_blank(trimmed(s)),
{
    let front = leading_blanks(s);
    lemma_leading_blanks(s);
    let rest = s.subrange(front as int, s.len() as int);
    lemma_trailing_blanks(rest);
    let t = trimmed(s);
    assert(t =~= s.subrange(front as int, s.len() - trailing_blanks(rest)));
    lemma_byte_len_subrange(s, front as int, s.len() - trailing_blanks(rest));
    if t.len() > 0 {
        assert(t[0] == s[front as int]);
        assert(!char_is_whitespace(t[0]));
        assert(leading_blanks(t) == 0);
        assert(t.subrange(0, t.len() as int) =~= t);
        assert(t[t.len() - 1] == rest[rest.len() - trailing_blanks(rest) - 1]);
        assert(trailing_blanks(t) == 0);
        assert(trimmed(t) =~= t);
    } else {
        assert(leading_blanks(t) == 0);
        assert(t.subrange(0, 0) =~= t);
        assert(trailing_blanks(t.subrange(0, 0)) == 0);
        assert(trimmed(t) =~= t);
    }
}

/// Counting from the front stops at the first character that is no whitespace.
proof fn lemma_leading_blanks_is(s: Seq<char>, n: nat)
    requires
        n <= s.len(),
        forall|i: int| 0 <= i < n ==> char_is_whitespace(#[trigger] s[i]),
        n < s.len() ==> !char_is_whitespace(s[n as int]),
    ensures
        leading_blanks(s) == n,
    decreases s.len(),
{
    if n > 0 {
        let t = s.subrange(1, s.len() as int);
        assert(char_is_whitespace(s[0]));
        assert forall|i: int| 0 <= i < n - 1 implies char_is_whitespace(#[trigger] t[i]) by {
            assert(t[i] == s[i + 1]);
        }
        if n - 1 < t.len() {
            assert(t[n - 1] == s[n as int]);
        }
        lemma_leading_blanks_is(t, (n - 1) as nat);
    }
}

/// Counting from the back stops at the last character that is no whitespace.
proof fn lemma_trailing_blanks_is(s: Seq<char>, n: nat)
    requires
        n <= s.len(),
        forall|i: int| s.len() - n <= i < s.len() ==> char_is_whitespace(#[trigger] s[i]),
        n < s.len() ==> !char_is_whitespace(s[s.len() - n - 1]),
    ensures
        trailing_blanks(s) == n,
    decreases s.len(),
{
    if n > 0 {
        let t = s.subrange(0, s.len() - 1);
        assert(char_is_whitespace(s[s.len() - 1]));
        assert forall|i: int| t.len() - (n - 1) <= i < t.len() implies char_is_whitespace(
            #[trigger] t[i],
        ) by {
            assert(t[i] == s[i]);
        }
        if n - 1 < t.len() {
            assert(t[t.len() - (n - 1) - 1] == s[s.len() - n - 1]);
        }
        lemma_trailing_blanks_is(t, (n - 1) as nat);
    }
}

/// A text is blank exactly when each of its characters is whitespace. So
/// one character that is none shows that a text is not blank.
pub proof fn lemma_blank(s: Seq<char>)
    ensures
        is_blank(s) <==> forall|i: int| 0 <= i < s.len() ==> char_is_whitespace(#[trigger] s[i]),
{
    let front = leading_blanks(s);
    lemma_leading_blanks(s);
    let rest = s.subrange(front as int, s.len() as int);
    lemma_trailing_blanks(rest);
    if is_blank(s) {
        assert forall|i: int| 0 <= i < s.len() implies char_is_whitespace(#[trigger] s[i]) by {
            if i >= front {
                assert(s[i] == rest[i - front]);
            }
        }
    }
    if forall|i: int| 0 <= i < s.len() ==> char_is_whitespace(#[trigger] s[i]) {
        lemma_leading_blanks_is(s, s.len());
    }
}

/// Length of a text in bytes.
pub fn text_len(s: &str) -> (n: usize)
    ensures
        n == byte_len(s@),
{
    s.as_bytes().len()
}

/// The text between the first and the last character that is no whitespace.
pub fn trim(s: &str) -> (r: &str)
    ensures
        r@ == trimmed(s@),
{
    let n: usize = s.unicode_len();
    let mut start: usize = 0;
    while start < n && is_whitespace(s.get_char(start))
        invariant
            start <= n,
            n == s@.len(),
            forall|i: int| 0 <= i < start ==> char_is_whitespace(#[trigger] s@[i]),
        decreases n - start,
    {
        start += 1;
    }
    let mut end: usize = n;
    while end > start && is_whitespace(s.get_char(end - 1))
        invariant
            start <= end <= n,
            n == s@.len(),
            forall|i: int| end <= i < n ==> char_is_whitespace(#[trigger] s@[i]),
        decreases end - start,
    {
        end -= 1;
    }
    proof {
        lemma_leading_blanks_is(s@, start as nat);
        let rest = s@.subrange(start as int, n as int);
        assert forall|i: int| rest.len() - (n - end) <= i < rest.len() implies char_is_whitespace(
            #[trigger] rest[i],
        ) by {
            assert(rest[i] == s@[i + start]);
        }
        if (n - end) < rest.len() {
            assert(rest[rest.len() - (n - end) - 1] == s@[end - 1]);
        }
        lemma_trailing_blanks_is(rest, (n - end) as nat);
        assert(rest.subrange(0, rest.len() - (n - end)) =~= s@.subrange(start as int, end as int));
    }
    s.substring_char(start, end)
}

/// Whether a text holds nothing but whitespace.
pub fn blank(s: &str) -> (r: bool)
    ensures
        r == is_blank(s@),
{
    trim(s).is_empty()
}

/// Whether a text is made of letters and digits only.
pub fn alphanumeric(s: &str) -> (r: bool)
    ensures
        r == all_alphanumeric(s@),
{
    let n: usize = s.unicode_len();
    let mut i: usize = 0;
    while i < n
        invariant
            i <= n,
            n == s@.len(),
            forall|j: int| 0 <= j < i ==> char_is_alphanumeric(#[trigger] s@[j]),
        decreases n - i,
    {
        if !is_alphanumeric(s.get_char(i)) {
            return false;
        }
        i += 1;
    }
    true
}

} // verus!
