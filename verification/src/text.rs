//! Character-level helpers shared by the command dispatcher: whitespace
//! classification, trimming, tokens and case folding.

use vstd::prelude::*;

verus! {

/// Whether `c` is a character that `trim` and token splitting treat as blank:
/// the code points that carry the Unicode `White_Space` property.
pub open spec fn is_whitespace(c: char) -> bool {
    let n = c as u32;
    ||| 0x09 <= n <= 0x0D
    ||| n == 0x20
    ||| n == 0x85
    ||| n == 0xA0
    ||| n == 0x1680
    ||| 0x2000 <= n <= 0x200A
    ||| n == 0x2028
    ||| n == 0x2029
    ||| n == 0x202F
    ||| n == 0x205F
    ||| n == 0x3000
}

/// Number of blank characters at the front of `s`.
pub open spec fn leading_blanks(s: Seq<char>) -> nat
    decreases s.len(),
{
    if s.len() > 0 && is_whitespace(s[0]) {
        1 + leading_blanks(s.drop_first())
    } else {
        0
    }
}

/// Number of blank characters at the back of `s`.
pub open spec fn trailing_blanks(s: Seq<char>) -> nat
    decreases s.len(),
{
    if s.len() > 0 && is_whitespace(s.last()) {
        1 + trailing_blanks(s.drop_last())
    } else {
        0
    }
}

/// Number of non-blank characters at the front of `s`: the length of its
/// first token when `s` does not start with a blank.
pub open spec fn leading_solid(s: Seq<char>) -> nat
    decreases s.len(),
{
    if s.len() > 0 && !is_whitespace(s[0]) {
        1 + leading_solid(s.drop_first())
    } else {
        0
    }
}

/// `s` without its leading and trailing blank characters.
pub open spec fn trimmed(s: Seq<char>) -> Seq<char> {
    let front = s.skip(leading_blanks(s) as int);
    front.take(front.len() - trailing_blanks(front))
}

/// The first blank-separated token of `s`; empty when `s` holds only blanks.
pub open spec fn first_token(s: Seq<char>) -> Seq<char> {
    let rest = s.skip(leading_blanks(s) as int);
    rest.take(leading_solid(rest) as int)
}

/// What follows the first blank-separated token of `s`.
pub open spec fn after_first_token(s: Seq<char>) -> Seq<char> {
    let rest = s.skip(leading_blanks(s) as int);
    rest.skip(leading_solid(rest) as int)
}

/// The second blank-separated token of `s`, if it has one.
pub open spec fn second_token(s: Seq<char>) -> Option<Seq<char>> {
    let token = first_token(after_first_token(s));
    if token.len() == 0 {
        None
    } else {
        Some(token)
    }
}

/// The blanks at the front of a text end at its first non-blank character,
/// or at its end.
pub proof fn lemma_leading_blanks_bound(s: Seq<char>)
    ensures
        leading_blanks(s) <= s.len(),
        forall|i: int| 0 <= i < leading_blanks(s) ==> is_whitespace(#[trigger] s[i]),
        leading_blanks(s) < s.len() ==> !is_whitespace(s[leading_blanks(s) as int]),
    decreases s.len(),
{
    if s.len() > 0 && is_whitespace(s[0]) {
        let t = s.drop_first();
        lemma_leading_blanks_bound(t);
        assert forall|i: int| 0 <= i < leading_blanks(s) implies is_whitespace(#[trigger] s[i]) by {
            if i > 0 {
                assert(s[i] == t[i - 1]);
            }
        }
        if leading_blanks(s) < s.len() {
            assert(s[leading_blanks(s) as int] == t[leading_blanks(t) as int]);
        }
    }
}

/// The blanks at the back of a text begin after its last non-blank
/// character, or at its beginning.
pub proof fn lemma_trailing_blanks_bound(s: Seq<char>)
    ensures
        trailing_blanks(s) <= s.len(),
        forall|i: int| s.len() - trailing_blanks(s) <= i < s.len() ==> is_whitespace(#[trigger] s[i]),
        trailing_blanks(s) < s.len() ==> !is_whitespace(s[s.len() - trailing_blanks(s) - 1]),
    decreases s.len(),
{
    if s.len() > 0 && is_whitespace(s.last()) {
        let t = s.drop_last();
        lemma_trailing_blanks_bound(t);
        assert forall|i: int| s.len() - trailing_blanks(s) <= i < s.len() implies is_whitespace(
            #[trigger] s[i],
        ) by {
            if i < s.len() - 1 {
                assert(s[i] == t[i]);
            }
        }
        if trailing_blanks(s) < s.len() {
            assert(s[s.len() - trailing_blanks(s) - 1] == t[t.len() - trailing_blanks(t) - 1]);
        }
    }
}

/// The non-blank characters at the front of a text end at its first blank
/// character, or at its end.
pub proof fn lemma_leading_solid_bound(s: Seq<char>)
    ensures
        leading_solid(s) <= s.len(),
        forall|i: int| 0 <= i < leading_solid(s) ==> !is_whitespace(#[trigger] s[i]),
        leading_solid(s) < s.len() ==> is_whitespace(s[leading_solid(s) as int]),
    decreases s.len(),
{
    if s.len() > 0 && !is_whitespace(s[0]) {
        let t = s.drop_first();
        lemma_leading_solid_bound(t);
        assert forall|i: int| 0 <= i < leading_solid(s) implies !is_whitespace(#[trigger] s[i]) by {
            if i > 0 {
                assert(s[i] == t[i - 1]);
            }
        }
        if leading_solid(s) < s.len() {
            assert(s[leading_solid(s) as int] == t[leading_solid(t) as int]);
        }
    }
}

/// The count of leading blanks is the first position that holds a non-blank.
pub proof fn lemma_leading_blanks_is(s: Seq<char>, k: int)
    requires
        0 <= k <= s.len(),
        forall|i: int| 0 <= i < k ==> is_whitespace(#[trigger] s[i]),
        k < s.len() ==> !is_whitespace(s[k]),
    ensures
        leading_blanks(s) == k,
{
    lemma_leading_blanks_bound(s);
    let n = leading_blanks(s) as int;
    if n < k {
        assert(is_whitespace(s[n]));
    } else if n > k {
        assert(is_whitespace(s[k]));
    }
}

/// The count of trailing blanks is fixed by the last position that holds a non-blank.
pub proof fn lemma_trailing_blanks_is(s: Seq<char>, k: int)
    requires
        0 <= k <= s.len(),
        forall|i: int| s.len() - k <= i < s.len() ==> is_whitespace(#[trigger] s[i]),
        k < s.len() ==> !is_whitespace(s[s.len() - k - 1]),
    ensures
        trailing_blanks(s) == k,
{
    lemma_trailing_blanks_bound(s);
    let n = trailing_blanks(s) as int;
    if n < k {
        assert(is_whitespace(s[s.len() - n - 1]));
    } else if n > k {
        assert(is_whitespace(s[s.len() - k - 1]));
    }
}

/// The count of leading non-blanks is the first position that holds a blank.
pub proof fn lemma_leading_solid_is(s: Seq<char>, k: int)
    requires
        0 <= k <= s.len(),
        forall|i: int| 0 <= i < k ==> !is_whitespace(#[trigger] s[i]),
        k < s.len() ==> is_whitespace(s[k]),
    ensures
        leading_solid(s) == k,
{
    lemma_leading_solid_bound(s);
    let n = leading_solid(s) as int;
    if n < k {
        assert(!is_whitespace(s[n]));
    } else if n > k {
        assert(!is_whitespace(s[k]));
    }
}

/// Reads the characters of `s` into a vector.
pub fn chars_of(s: &str) -> (chars: Vec<char>)
    ensures
        chars@ == s@,
{
    let mut chars: Vec<char> = Vec::new();
    for c in it: s.chars()
        invariant
            chars@ == it.seq().take(it.index() as int),
            it.seq() == s@,
    {
        chars.push(c);
    }
    chars
}

/// Tells whether `c` is blank.
pub fn is_blank(c: char) -> (blank: bool)
    ensures
        blank == is_whitespace(c),
{
    let n: u32 = c as u32;
    (0x09 <= n && n <= 0x0D) || n == 0x20 || n == 0x85 || n == 0xA0 || n == 0x1680 || (0x2000 <= n
        && n <= 0x200A) || n == 0x2028 || n == 0x2029 || n == 0x202F || n == 0x205F || n == 0x3000
}

/// Position of the first non-blank character of `chars` at or after `from`,
/// or the length of `chars` when only blanks follow.
pub fn skip_blanks(chars: &Vec<char>, from: usize) -> (pos: usize)
    requires
        from <= chars.len(),
    ensures
        pos == from + leading_blanks(chars@.skip(from as int)),
        from <= pos <= chars.len(),
{
    let mut pos: usize = from;
    while pos < chars.len() && is_blank(chars[pos])
        invariant
            from <= pos <= chars.len(),
            forall|i: int| from <= i < pos ==> is_whitespace(#[trigger] chars@[i]),
        decreases chars.len() - pos,
    {
        pos += 1;
    }
    proof {
        let rest = chars@.skip(from as int);
        assert forall|i: int| 0 <= i < pos - from implies is_whitespace(#[trigger] rest[i]) by {
            assert(rest[i] == chars@[from + i]);
        }
        lemma_leading_blanks_is(rest, pos - from);
    }
    pos
}

/// Position of the first blank character of `chars` at or after `from`, or
/// the length of `chars` when no blank follows.
pub fn skip_solid(chars: &Vec<char>, from: usize) -> (pos: usize)
    requires
        from <= chars.len(),
    ensures
        pos == from + leading_solid(chars@.skip(from as int)),
        from <= pos <= chars.len(),
{
    let mut pos: usize = from;
    while pos < chars.len() && !is_blank(chars[pos])
        invariant
            from <= pos <= chars.len(),
            forall|i: int| from <= i < pos ==> !is_whitespace(#[trigger] chars@[i]),
        decreases chars.len() - pos,
    {
        pos += 1;
    }
    proof {
        let rest = chars@.skip(from as int);
        assert forall|i: int| 0 <= i < pos - from implies !is_whitespace(#[trigger] rest[i]) by {
            assert(rest[i] == chars@[from + i]);
        }
        lemma_leading_solid_is(rest, pos - from);
    }
    pos
}

/// The bounds of `trimmed(chars)` inside `chars`: it is the subrange from
/// `bounds.0` to `bounds.1`.
pub fn trim_bounds(chars: &Vec<char>) -> (bounds: (usize, usize))
    ensures
        bounds.0 <= bounds.1 <= chars.len(),
        trimmed(chars@) == chars@.subrange(bounds.0 as int, bounds.1 as int),
{
    let start = skip_blanks(chars, 0);
    let mut end: usize = chars.len();
    while end > start && is_blank(chars[end - 1])
        invariant
            start <= end <= chars.len(),
            forall|i: int| end <= i < chars.len() ==> is_whitespace(#[trigger] chars@[i]),
        decreases end,
    {
        end -= 1;
    }
    proof {
        assert(chars@.skip(0) =~= chars@);
        let front = chars@.skip(start as int);
        let k = chars.len() - end;
        lemma_leading_blanks_bound(chars@);
        assert forall|i: int| front.len() - k <= i < front.len() implies is_whitespace(
            #[trigger] front[i],
        ) by {
            assert(front[i] == chars@[start + i]);
        }
        if k < front.len() {
            assert(front[front.len() - k - 1] == chars@[end - 1]);
        }
        lemma_trailing_blanks_is(front, k);
        assert(front.take(front.len() - k) =~= chars@.subrange(start as int, end as int));
    }
    (start, end)
}

/// Removes the blank characters at both ends of `s`.
pub fn trim(s: &str) -> (t: &str)
    ensures
        t@ == trimmed(s@),
{
    let chars = chars_of(s);
    let (start, end) = trim_bounds(&chars);
    s.substring_char(start, end)
}

/// Tells whether two texts hold the same characters.
pub fn same_text(a: &Vec<char>, b: &Vec<char>) -> (same: bool)
    ensures
        same == (a@ == b@),
{
    if a.len() != b.len() {
        return false;
    }
    let mut i: usize = 0;
    while i < a.len()
        invariant
            a.len() == b.len(),
            i <= a.len(),
            a@.take(i as int) == b@.take(i as int),
        decreases a.len() - i,
    {
        if a[i] != b[i] {
            return false;
        }
        proof {
            assert(a@.take(i + 1) =~= a@.take(i as int).push(a@[i as int]));
            assert(b@.take(i + 1) =~= b@.take(i as int).push(b@[i as int]));
        }
        i += 1;
    }
    proof {
        assert(a@.take(a.len() as int) =~= a@);
        assert(b@.take(b.len() as int) =~= b@);
    }
    true
}

/// Tells whether `text` begins with `prefix`.
pub fn starts_with(text: &Vec<char>, prefix: &Vec<char>) -> (yes: bool)
    ensures
        yes == prefix@.is_prefix_of(text@),
{
    if prefix.len() > text.len() {
        return false;
    }
    let mut i: usize = 0;
    while i < prefix.len()
        invariant
            prefix.len() <= text.len(),
            i <= prefix.len(),
            forall|j: int| 0 <= j < i ==> prefix@[j] == text@[j],
        decreases prefix.len() - i,
    {
        if prefix[i] != text[i] {
            return false;
        }
        i += 1;
    }
    true
}

/// The lowercase form of a text, as the standard library's Unicode case
/// mapping of strings gives it.
pub uninterp spec fn lowercase(s: Seq<char>) -> Seq<char>;

/// Calls `str::to_lowercase`. The contract names what it returns: the
/// lowercase form is a function of the characters of `s` alone.
#[verifier::external_body]
pub(crate) fn to_lowercase(s: &str) -> (lower: String)
    ensures
        lower@ == lowercase(s@),
{
    s.to_lowercase()
}

} // verus!
