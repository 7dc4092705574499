//! Text as the operating system hands it over: bytes and 16-bit code units,
//! and the few operations on characters that the resolvers need.

use vstd::prelude::*;
use vstd::string::*;
use vstd::utf8::*;

verus! {

/// Whether `unit` is the first half of a surrogate pair.
pub open spec fn is_high_surrogate(unit: u16) -> bool {
    0xD800 <= unit <= 0xDBFF
}

/// Whether `unit` is the second half of a surrogate pair.
pub open spec fn is_low_surrogate(unit: u16) -> bool {
    0xDC00 <= unit <= 0xDFFF
}

/// The scalar value that the surrogate pair `high`, `low` encodes.
pub open spec fn pair_scalar(high: u16, low: u16) -> u32 {
    (0x10000 + (high - 0xD800) * 0x400 + (low - 0xDC00)) as u32
}

/// The text that a sequence of UTF-16 code units encodes: a unit that is
/// no surrogate is its own character, a high surrogate with the low
/// surrogate after it is one character, and any other surrogate leaves the
/// units without text.
pub open spec fn utf16_text(units: Seq<u16>) -> Option<Seq<char>>
    decreases units.len(),
{
    if units.len() == 0 {
        Some(Seq::empty())
    } else if is_high_surrogate(units[0]) {
        if units.len() >= 2 && is_low_surrogate(units[1]) {
            match utf16_text(units.skip(2)) {
                Some(rest) => Some(seq![pair_scalar(units[0], units[1]) as char] + rest),
                None => None,
            }
        } else {
            None
        }
    } else if is_low_surrogate(units[0]) {
        None
    } else {
        match utf16_text(units.skip(1)) {
            Some(rest) => Some(seq![units[0] as u32 as char] + rest),
            None => None,
        }
    }
}

/// Units without any surrogate are text, unit by unit.
pub proof fn lemma_plain_units_are_text(units: Seq<u16>)
    requires
        forall|i: int|
            0 <= i < units.len() ==> !is_high_surrogate(#[trigger] units[i]) && !is_low_surrogate(
                units[i],
            ),
    ensures
        utf16_text(units) == Some(Seq::new(units.len(), |i: int| units[i] as u32 as char)),
    decreases units.len(),
{
    if units.len() > 0 {
        let rest = units.skip(1);
        lemma_plain_units_are_text(rest);
        assert(seq![units[0] as u32 as char] + Seq::new(
            rest.len(),
            |i: int| rest[i] as u32 as char,
        ) =~= Seq::new(units.len(), |i: int| units[i] as u32 as char));
    } else {
        assert(Seq::<char>::empty() =~= Seq::new(units.len(), |i: int| units[i] as u32 as char));
    }
}

/// Units with a surrogate that has no partner are no text: a low surrogate
/// that no high surrogate precedes, or a high surrogate that no low
/// surrogate follows, the units before it being no surrogates.
pub proof fn lemma_lone_surrogate_is_no_text(units: Seq<u16>, at: int)
    requires
        0 <= at < units.len(),
        forall|i: int|
            0 <= i < at ==> !is_high_surrogate(#[trigger] units[i]) && !is_low_surrogate(units[i]),
        is_low_surrogate(units[at]) || (is_high_surrogate(units[at]) && (at + 1 == units.len()
            || !is_low_surrogate(units[at + 1]))),
    ensures
        utf16_text(units) is None,
    decreases at,
{
    if at > 0 {
        lemma_lone_surrogate_is_no_text(units.skip(1), at - 1);
    }
}

/// Decoded text, as plain values.
pub open spec fn text_view(text: Option<String>) -> Option<Seq<char>> {
    match text {
        Some(t) => Some(t@),
        None => None,
    }
}

/// `String::from_utf16`: decodes native-endian UTF-16, and reports invalid
/// data where a surrogate has no partner.
#[verifier::external_body]
pub(crate) fn text_from_utf16(units: &[u16]) -> (text: Option<String>)
    ensures
        text_view(text) == utf16_text(units@),
{
    String::from_utf16(units).ok()
}

/// `String::from_utf8`: takes the bytes over as text where they are valid
/// UTF-8, and fails where they are not.
#[verifier::external_body]
pub(crate) fn text_from_utf8(bytes: Vec<u8>) -> (text: Option<String>)
    ensures
        text_view(text) == if valid_utf8(bytes@) {
            Some(decode_utf8(bytes@))
        } else {
            None
        },
{
    String::from_utf8(bytes).ok()
}

/// The characters of `text`, one by one.
pub fn chars_of(text: &str) -> (chars: Vec<char>)
    ensures
        chars@ == text@,
{
    let mut chars: Vec<char> = Vec::new();
    for c in it: text.chars()
        invariant
            chars@ == it.seq().take(it.index()),
    {
        chars.push(c);
    }
    chars
}

/// A copy of `units`.
pub fn copy_units(units: &Vec<u16>) -> (copy: Vec<u16>)
    ensures
        copy@ == units@,
{
    let mut copy: Vec<u16> = Vec::new();
    let mut i: usize = 0;
    while i < units.len()
        invariant
            i <= units.len(),
            copy@ == units@.take(i as int),
        decreases units.len() - i,
    {
        copy.push(units[i]);
        i += 1;
    }
    copy
}

/// Whether `c` has the Unicode property `White_Space`.
pub open spec fn is_space(c: char) -> bool {
    let p = c as u32;
    ||| 0x09 <= p <= 0x0D
    ||| p == 0x20
    ||| p == 0x85
    ||| p == 0xA0
    ||| p == 0x1680
    ||| 0x2000 <= p <= 0x200A
    ||| p == 0x2028
    ||| p == 0x2029
    ||| p == 0x202F
    ||| p == 0x205F
    ||| p == 0x3000
}

/// Whether `c` is white space.
pub fn is_whitespace(c: char) -> (space: bool)
    ensures
        space == is_space(c),
{
    let p: u32 = c as u32;
    (0x09 <= p && p <= 0x0D) || p == 0x20 || p == 0x85 || p == 0xA0 || p == 0x1680 || (0x2000 <= p
        && p <= 0x200A) || p == 0x2028 || p == 0x2029 || p == 0x202F || p == 0x205F || p == 0x3000
}

/// The decimal digit of `d`, for `d` below ten.
pub open spec fn digit(d: nat) -> char {
    if d == 0 {
        '0'
    } else if d == 1 {
        '1'
    } else if d == 2 {
        '2'
    } else if d == 3 {
        '3'
    } else if d == 4 {
        '4'
    } else if d == 5 {
        '5'
    } else if d == 6 {
        '6'
    } else if d == 7 {
        '7'
    } else if d == 8 {
        '8'
    } else {
        '9'
    }
}

/// The decimal numeral of `n`: no sign, no leading zero.
pub open spec fn decimal(n: nat) -> Seq<char>
    decreases n,
{
    if n < 10 {
        seq![digit(n)]
    } else {
        decimal(n / 10).push(digit(n % 10))
    }
}

/// The one-character text of the digit `d`.
fn digit_text(d: u64) -> (text: &'static str)
    requires
        d < 10,
    ensures
        text@ == seq![digit(d as nat)],
{
    proof {
        reveal_strlit("0");
        reveal_strlit("1");
        reveal_strlit("2");
        reveal_strlit("3");
        reveal_strlit("4");
        reveal_strlit("5");
        reveal_strlit("6");
        reveal_strlit("7");
        reveal_strlit("8");
        reveal_strlit("9");
    }
    let text = if d == 0 {
        "0"
    } else if d == 1 {
        "1"
    } else if d == 2 {
        "2"
    } else if d == 3 {
        "3"
    } else if d == 4 {
        "4"
    } else if d == 5 {
        "5"
    } else if d == 6 {
        "6"
    } else if d == 7 {
        "7"
    } else if d == 8 {
        "8"
    } else {
        "9"
    };
    text
}

/// Appends the decimal numeral of `n` to `text`.
pub fn push_decimal(text: &mut String, n: u64)
    ensures
        final(text)@ == old(text)@ + decimal(n as nat),
    decreases n,
{
    if n >= 10 {
        push_decimal(text, n / 10);
    }
    text.append(digit_text(n % 10));
}

/// The index of the first `c` in `s`, or the length of `s` where it has none.
pub open spec fn index_of<T>(s: Seq<T>, c: T) -> nat
    decreases s.len(),
{
    if s.len() == 0 || s[0] == c {
        0
    } else {
        1 + index_of(s.drop_first(), c)
    }
}

/// `index_of` is a position of `s`, or its length.
pub proof fn lemma_index_of_bound<T>(s: Seq<T>, c: T)
    ensures
        index_of(s, c) <= s.len(),
    decreases s.len(),
{
    if s.len() > 0 && s[0] != c {
        lemma_index_of_bound(s.drop_first(), c);
    }
}

/// `index_of` is the first position that holds `c`.
pub proof fn lemma_index_of<T>(s: Seq<T>, c: T, k: int)
    requires
        0 <= k <= s.len(),
        forall|j: int| 0 <= j < k ==> s[j] != c,
        k < s.len() ==> s[k] == c,
    ensures
        index_of(s, c) == k,
    decreases s.len(),
{
    if k > 0 {
        lemma_index_of(s.drop_first(), c, k - 1);
    }
}

/// The first position of `c` in `chars[lo..hi]`, or `hi` where it has none.
pub(crate) fn find(chars: &Vec<char>, lo: usize, hi: usize, c: char) -> (k: usize)
    requires
        lo <= hi <= chars.len(),
    ensures
        lo <= k <= hi,
        k - lo == index_of(chars@.subrange(lo as int, hi as int), c),
{
    let mut k: usize = lo;
    while k < hi && chars[k] != c
        invariant
            lo <= k <= hi <= chars.len(),
            forall|j: int| lo <= j < k ==> chars@[j] != c,
        decreases hi - k,
    {
        k += 1;
    }
    proof {
        lemma_index_of(chars@.subrange(lo as int, hi as int), c, k - lo);
    }
    k
}

/// What is stripped from the ends of a text.
#[derive(Clone, Copy, Debug, PartialEq, Eq, Structural)]
pub enum Margin {
    /// White space.
    Space,
    /// Double quotes.
    Quote,
}

/// Whether `c` belongs to the margin `m`.
pub open spec fn in_margin(m: Margin, c: char) -> bool {
    match m {
        Margin::Space => is_space(c),
        Margin::Quote => c == '"',
    }
}

/// `s` without its leading characters of the margin `m`.
pub open spec fn strip_front(s: Seq<char>, m: Margin) -> Seq<char>
    decreases s.len(),
{
    if s.len() > 0 && in_margin(m, s[0]) {
        strip_front(s.drop_first(), m)
    } else {
        s
    }
}

/// `s` without its trailing characters of the margin `m`.
pub open spec fn strip_back(s: Seq<char>, m: Margin) -> Seq<char>
    decreases s.len(),
{
    if s.len() > 0 && in_margin(m, s.last()) {
        strip_back(s.drop_last(), m)
    } else {
        s
    }
}

/// `s` without the characters of the margin `m` at either end.
pub open spec fn strip(s: Seq<char>, m: Margin) -> Seq<char> {
    strip_back(strip_front(s, m), m)
}

/// What `strip_front` leaves does not begin in the margin, and is the end
/// of what it was given.
pub proof fn lemma_stripped_front(s: Seq<char>, m: Margin)
    ensures
        strip_front(s, m).len() > 0 ==> !in_margin(m, strip_front(s, m)[0]),
        strip_front(s, m).len() <= s.len(),
        strip_front(s, m) == s.skip(s.len() - strip_front(s, m).len()),
        forall|i: int| 0 <= i < s.len() - strip_front(s, m).len() ==> in_margin(m, #[trigger] s[i]),
    decreases s.len(),
{
    if s.len() > 0 && in_margin(m, s[0]) {
        let rest = s.drop_first();
        lemma_stripped_front(rest, m);
        assert forall|i: int| 0 <= i < s.len() - strip_front(s, m).len() implies in_margin(
            m,
            #[trigger] s[i],
        ) by {
            if i > 0 {
                assert(s[i] == rest[i - 1]);
            }
        }
    }
}

/// What `strip_back` leaves does not end in the margin, and is the
/// beginning of what it was given.
pub proof fn lemma_stripped_back(s: Seq<char>, m: Margin)
    ensures
        strip_back(s, m).len() > 0 ==> !in_margin(m, strip_back(s, m).last()),
        strip_back(s, m).len() <= s.len(),
        strip_back(s, m) == s.take(strip_back(s, m).len() as int),
        forall|i: int| strip_back(s, m).len() <= i < s.len() ==> in_margin(m, #[trigger] s[i]),
    decreases s.len(),
{
    if s.len() > 0 && in_margin(m, s.last()) {
        let rest = s.drop_last();
        lemma_stripped_back(rest, m);
        assert forall|i: int| strip_back(s, m).len() <= i < s.len() implies in_margin(
            m,
            #[trigger] s[i],
        ) by {
            if i < s.len() - 1 {
                assert(s[i] == rest[i]);
            }
        }
    }
}

/// Whether `c` belongs to the margin `m`.
pub fn margin_holds(m: Margin, c: char) -> (holds: bool)
    ensures
        holds == in_margin(m, c),
{
    match m {
        Margin::Space => is_whitespace(c),
        Margin::Quote => c == '"',
    }
}

/// The bounds of `chars[lo..hi]` once the margin `m` is stripped from it.
pub(crate) fn strip_span(chars: &Vec<char>, lo: usize, hi: usize, m: Margin) -> (span: (
    usize,
    usize,
))
    requires
        lo <= hi <= chars.len(),
    ensures
        lo <= span.0 <= span.1 <= hi,
        chars@.subrange(span.0 as int, span.1 as int) == strip(
            chars@.subrange(lo as int, hi as int),
            m,
        ),
{
    let mut a: usize = lo;
    while a < hi && margin_holds(m, chars[a])
        invariant
            lo <= a <= hi <= chars.len(),
            strip_front(chars@.subrange(lo as int, hi as int), m) == strip_front(
                chars@.subrange(a as int, hi as int),
                m,
            ),
        decreases hi - a,
    {
        assert(chars@.subrange(a as int, hi as int).drop_first() == chars@.subrange(
            a + 1,
            hi as int,
        ));
        a += 1;
    }
    let mut b: usize = hi;
    while a < b && margin_holds(m, chars[b - 1])
        invariant
            lo <= a <= b <= hi <= chars.len(),
            strip(chars@.subrange(lo as int, hi as int), m) == strip_back(
                chars@.subrange(a as int, b as int),
                m,
            ),
        decreases b - a,
    {
        assert(chars@.subrange(a as int, b as int).drop_last() == chars@.subrange(
            a as int,
            b - 1,
        ));
        b -= 1;
    }
    (a, b)
}

/// Whether `chars[lo..hi]` spells `word`.
pub(crate) fn spells(chars: &Vec<char>, lo: usize, hi: usize, word: &Vec<char>) -> (same: bool)
    requires
        lo <= hi <= chars.len(),
    ensures
        same == (chars@.subrange(lo as int, hi as int) == word@),
{
    if hi - lo != word.len() {
        return false;
    }
    let mut i: usize = 0;
    while i < word.len()
        invariant
            lo <= hi <= chars.len(),
            hi - lo == word.len(),
            i <= word.len(),
            forall|j: int| 0 <= j < i ==> chars@[lo + j] == word@[j],
        decreases word.len() - i,
    {
        if chars[lo + i] != word[i] {
            return false;
        }
        i += 1;
    }
    assert(chars@.subrange(lo as int, hi as int) =~= word@);
    true
}

} // verus!
