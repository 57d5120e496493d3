//! Rules on the text that users type: account names, passwords, search
//! keywords and the `Authorization` header.
use vstd::prelude::*;

verus! {

broadcast use vstd::string::group_string_axioms;

/// The characters of `s`, in order.
fn chars_of(s: &str) -> (v: Vec<char>)
    ensures
        v@ == s@,
{
    let mut v: Vec<char> = Vec::new();
    for c in it: s.chars()
        invariant
            it.seq() == s@,
            v@ == it.seq().take(it.index()),
    {
        v.push(c);
    }
    v
}

/// An ASCII letter, `a`..`z` or `A`..`Z`.
pub open spec fn is_ascii_letter(c: char) -> bool {
    ('a' <= c && c <= 'z') || ('A' <= c && c <= 'Z')
}

/// An ASCII digit, `0`..`9`.
pub open spec fn is_ascii_digit(c: char) -> bool {
    '0' <= c && c <= '9'
}

/// A character allowed in an account name: an ASCII letter or digit, or `_`.
pub open spec fn is_name_char(c: char) -> bool {
    is_ascii_letter(c) || is_ascii_digit(c) || c == '_'
}

/// An account name is 3 to 32 characters long and made of ASCII letters,
/// digits and `_` only.
pub open spec fn valid_username(name: Seq<char>) -> bool {
    &&& 3 <= name.len() <= 32
    &&& forall|i: int| 0 <= i < name.len() ==> is_name_char(#[trigger] name[i])
}

/// A password is 8 to 64 characters long and holds at least one ASCII letter
/// and at least one ASCII digit.
pub open spec fn valid_password(password: Seq<char>) -> bool {
    &&& 8 <= password.len() <= 64
    &&& exists|i: int| 0 <= i < password.len() && is_ascii_letter(#[trigger] password[i])
    &&& exists|i: int| 0 <= i < password.len() && is_ascii_digit(#[trigger] password[i])
}

fn char_is_ascii_letter(c: char) -> (r: bool)
    ensures
        r == is_ascii_letter(c),
{
    ('a' <= c && c <= 'z') || ('A' <= c && c <= 'Z')
}

fn char_is_ascii_digit(c: char) -> (r: bool)
    ensures
        r == is_ascii_digit(c),
{
    '0' <= c && c <= '9'
}

/// Whether `username` is acceptable as an account name.
pub fn validate_username(username: &str) -> (r: bool)
    ensures
        r == valid_username(username@),
{
    let chars = chars_of(username);
    if !(3 <= chars.len() && chars.len() <= 32) {
        return false;
    }
    let mut i: usize = 0;
    while i < chars.len()
        invariant
            chars@ == username@,
            i <= chars.len(),
            forall|j: int| 0 <= j < i ==> is_name_char(#[trigger] chars@[j]),
        decreases chars.len() - i,
    {
        let c = chars[i];
        if !(char_is_ascii_letter(c) || char_is_ascii_digit(c) || c == '_') {
            return false;
        }
        i = i + 1;
    }
    true
}

/// Whether `password` is acceptable as a password.
pub fn validate_password(password: &str) -> (r: bool)
    ensures
        r == valid_password(password@),
{
    let chars = chars_of(password);
    if !(8 <= chars.len() && chars.len() <= 64) {
        return false;
    }
    let mut has_letter = false;
    let mut has_digit = false;
    let mut i: usize = 0;
    while i < chars.len()
        invariant
            chars@ == password@,
            i <= chars.len(),
            has_letter <==> exists|j: int| 0 <= j < i && is_ascii_letter(#[trigger] chars@[j]),
            has_digit <==> exists|j: int| 0 <= j < i && is_ascii_digit(#[trigger] chars@[j]),
        decreases chars.len() - i,
    {
        let c = chars[i];
        if char_is_ascii_letter(c) {
            has_letter = true;
        }
        if char_is_ascii_digit(c) {
            has_digit = true;
        }
        i = i + 1;
    }
    has_letter && has_digit
}

/// The number that the decimal digits `digits` write.
pub open spec fn digits_value(digits: Seq<char>) -> int
    decreases digits.len(),
{
    if digits.len() == 0 {
        0
    } else {
        digits_value(digits.drop_last()) * 10 + ((digits.last() as int) - ('0' as int))
    }
}

/// Every character of `s` is an ASCII digit.
pub open spec fn all_digits(s: Seq<char>) -> bool {
    forall|i: int| 0 <= i < s.len() ==> is_ascii_digit(#[trigger] s[i])
}

/// The digits of an unsigned number's text: what follows a leading `+`.
pub open spec fn unsigned_digits(s: Seq<char>) -> Seq<char> {
    if s.len() > 0 && s[0] == '+' {
        s.drop_first()
    } else {
        s
    }
}

/// The `usize` that `s` writes in decimal, as `str::parse::<usize>` reads
/// it: an optional `+`, then at least one ASCII digit, and a value that fits;
/// `None` otherwise.
pub open spec fn decimal_of(s: Seq<char>) -> Option<usize> {
    let d = unsigned_digits(s);
    if d.len() > 0 && all_digits(d) && digits_value(d) <= usize::MAX {
        Some(digits_value(d) as usize)
    } else {
        None
    }
}

/// The value of digits is at least the value of any of their prefixes.
pub proof fn lemma_digits_value_prefix(digits: Seq<char>, k: int)
    requires
        all_digits(digits),
        0 <= k <= digits.len(),
    ensures
        0 <= digits_value(digits.take(k)) <= digits_value(digits),
    decreases digits.len(),
{
    if k == digits.len() {
        assert(digits.take(k) =~= digits);
        lemma_digits_value_nonnegative(digits);
    } else {
        lemma_digits_value_prefix(digits.drop_last(), k);
        assert(digits.drop_last().take(k) =~= digits.take(k));
        lemma_digits_value_nonnegative(digits.drop_last());
        assert(is_ascii_digit(digits[digits.len() - 1]));
    }
}

/// Digits write a number that is not negative.
pub proof fn lemma_digits_value_nonnegative(digits: Seq<char>)
    requires
        all_digits(digits),
    ensures
        digits_value(digits) >= 0,
    decreases digits.len(),
{
    if digits.len() > 0 {
        lemma_digits_value_nonnegative(digits.drop_last());
        assert(is_ascii_digit(digits[digits.len() - 1]));
    }
}

/// Reads `s` as a decimal `usize`, as `str::parse::<usize>` does.
pub fn parse_decimal(s: &str) -> (r: Option<usize>)
    ensures
        r == decimal_of(s@),
{
    let chars = chars_of(s);
    let start: usize = if chars.len() > 0 && chars[0] == '+' {
        1
    } else {
        0
    };
    let ghost d = unsigned_digits(s@);
    assert(d =~= chars@.subrange(start as int, chars.len() as int));
    if start >= chars.len() {
        return None;
    }
    let mut value: usize = 0;
    let mut i: usize = start;
    while i < chars.len()
        invariant
            chars@ == s@,
            start <= i <= chars.len(),
            d == chars@.subrange(start as int, chars.len() as int),
            d == unsigned_digits(s@),
            forall|j: int| 0 <= j < i - start ==> is_ascii_digit(#[trigger] d[j]),
            value == digits_value(d.take(i - start)),
        decreases chars.len() - i,
    {
        let c = chars[i];
        assert(d[i - start] == c);
        if !('0' <= c && c <= '9') {
            assert(!is_ascii_digit(d[i - start]));
            assert(!all_digits(d));
            return None;
        }
        let digit: usize = (c as u32 - 48) as usize;
        assert(d.take(i - start + 1).drop_last() =~= d.take(i - start));
        assert(digits_value(d.take(i - start + 1)) == value * 10 + digit);
        let next = match value.checked_mul(10) {
            Some(v) => v.checked_add(digit),
            None => None,
        };
        match next {
            Some(v) => {
                value = v;
            },
            None => {
                proof {
                    assert(value * 10 + digit > usize::MAX);
                    if all_digits(d) {
                        lemma_digits_value_prefix(d, i - start + 1);
                        assert(digits_value(d) > usize::MAX);
                    }
                }
                return None;
            },
        }
        i = i + 1;
    }
    assert(d.take(d.len() as int) =~= d);
    Some(value)
}

/// Whether `s` is the word `me`.
pub fn is_me(s: &str) -> (r: bool)
    ensures
        r == (s@ == seq!['m', 'e']),
{
    let chars = chars_of(s);
    if chars.len() == 2 && chars[0] == 'm' && chars[1] == 'e' {
        assert(s@ =~= seq!['m', 'e']);
        true
    } else {
        assert(s@ != seq!['m', 'e'] || (chars@.len() == 2 && chars@[0] == 'm' && chars@[1] == 'e'));
        false
    }
}

/// Whether `needle` occurs in `hay` as a run of consecutive characters.
pub open spec fn is_infix(needle: Seq<char>, hay: Seq<char>) -> bool {
    exists|i: int|
        0 <= i && i + needle.len() <= hay.len() && #[trigger] hay.subrange(i, i + needle.len())
            == needle
}

/// Whether `needle` occurs in `hay` (every text holds the empty text).
pub fn contains_text(hay: &str, needle: &str) -> (r: bool)
    ensures
        r == is_infix(needle@, hay@),
{
    let h = chars_of(hay);
    let n = chars_of(needle);
    if n.len() == 0 {
        assert(hay@.subrange(0int, 0int + needle@.len()) =~= needle@);
        return true;
    }
    if n.len() > h.len() {
        return false;
    }
    let last = h.len() - n.len();
    let mut i: usize = 0;
    while i <= last
        invariant
            h@ == hay@,
            n@ == needle@,
            last == h.len() - n.len(),
            1 <= n.len() <= h.len(),
            i <= last + 1,
            forall|p: int| 0 <= p < i ==> #[trigger] h@.subrange(p, p + n@.len()) != n@,
        decreases last + 1 - i,
    {
        let mut k: usize = 0;
        while k < n.len() && h[i + k] == n[k]
            invariant
                h@ == hay@,
                n@ == needle@,
                i <= last,
                last == h.len() - n.len(),
                k <= n.len(),
                forall|q: int| 0 <= q < k ==> h@[i + q] == n@[q],
            decreases n.len() - k,
        {
            k = k + 1;
        }
        if k == n.len() {
            assert(h@.subrange(i as int, i + n@.len()) =~= n@);
            return true;
        }
        assert(h@.subrange(i as int, i + n@.len())[k as int] != n@[k as int]);
        i = i + 1;
    }
    assert forall|p: int| 0 <= p && p + needle@.len() <= hay@.len() implies #[trigger] hay@.subrange(
        p,
        p + needle@.len(),
    ) != needle@ by {
        assert(p < i);
    }
    false
}

/// `Bearer ` followed by one space: the scheme that starts an
/// `Authorization` header value.
pub open spec fn bearer_scheme() -> Seq<char> {
    seq!['B', 'e', 'a', 'r', 'e', 'r', ' ']
}

/// What follows the `Bearer ` scheme in an `Authorization` header value, if
/// the value starts with it.
pub open spec fn bearer_credentials(header: Seq<char>) -> Option<Seq<char>> {
    if header.len() >= 7 && header.subrange(0, 7) == bearer_scheme() {
        Some(header.subrange(7, header.len() as int))
    } else {
        None
    }
}

/// The text after `Bearer ` in an `Authorization` header value.
pub fn strip_bearer(header: &str) -> (r: Option<&str>)
    ensures
        bearer_credentials(header@) is Some <==> r is Some,
        r matches Some(rest) ==> bearer_credentials(header@) == Some(rest@),
{
    let h = chars_of(header);
    if h.len() < 7 {
        return None;
    }
    let scheme = ['B', 'e', 'a', 'r', 'e', 'r', ' '];
    let mut k: usize = 0;
    while k < 7
        invariant
            h@ == header@,
            h.len() >= 7,
            scheme@ == bearer_scheme(),
            k <= 7,
            forall|q: int| 0 <= q < k ==> h@[q] == bearer_scheme()[q],
        decreases 7 - k,
    {
        if h[k] != scheme[k] {
            assert(header@.subrange(0, 7)[k as int] != bearer_scheme()[k as int]);
            return None;
        }
        k = k + 1;
    }
    assert(header@.subrange(0, 7) =~= bearer_scheme());
    Some(header.substring_char(7, h.len()))
}

/// Lower-case form of `text` that `str::to_lowercase` gives.
pub uninterp spec fn lowercase_of(text: Seq<char>) -> Seq<char>;

/// `str::to_lowercase`: the Unicode lower-case mapping of `text`. The
/// contract claims only that the result is what `lowercase_of` names.
#[verifier::external_body]
pub fn lowercase(text: &str) -> (r: String)
    ensures
        r@ == lowercase_of(text@),
{
    text.to_lowercase()
}

/// Whether the lower-cased `text` holds `keyword`, where `keyword` is already
/// lower case: the keyword match of the searches.
pub open spec fn matches_keyword(keyword: Seq<char>, text: Seq<char>) -> bool {
    is_infix(keyword, lowercase_of(text))
}

} // verus!
