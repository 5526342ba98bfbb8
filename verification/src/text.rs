//! Text as sequences of characters: blankness, trimming, ASCII case, decimal
//! numbers, quoting, prefixes and the order of keys.
use vstd::prelude::*;
use vstd::string::*;

verus! {

/// The characters that Unicode gives the `White_Space` property.
pub open spec fn is_white_space(c: char) -> bool {
    ||| '\u{9}' <= c <= '\u{d}'
    ||| c == ' '
    ||| c == '\u{85}'
    ||| c == '\u{a0}'
    ||| c == '\u{1680}'
    ||| '\u{2000}' <= c <= '\u{200a}'
    ||| c == '\u{2028}'
    ||| c == '\u{2029}'
    ||| c == '\u{202f}'
    ||| c == '\u{205f}'
    ||| c == '\u{3000}'
}

/// The characters of Unicode's `Cc` category.
pub open spec fn is_control_char(c: char) -> bool {
    c <= '\u{1f}' || '\u{7f}' <= c <= '\u{9f}'
}

/// `char::is_whitespace` is true of exactly the characters with the Unicode
/// property `White_Space`.
pub assume_specification[ char::is_whitespace ](c: char) -> (r: bool)
    ensures
        r == is_white_space(c),
;

/// `char::is_control` is true of exactly the characters of the category `Cc`.
pub assume_specification[ char::is_control ](c: char) -> (r: bool)
    ensures
        r == is_control_char(c),
;

/// `str`'s equality is equality of the characters.
pub assume_specification[ <str as PartialEq>::eq ](s: &str, other: &str) -> (res: bool)
    ensures
        res == (s@ == other@),
;

/// `str::trim` drops the white space at both ends and keeps the rest.
pub assume_specification[ str::trim ](s: &str) -> (res: &str)
    ensures
        res@ == trimmed(s@),
;

/// `str::to_ascii_lowercase` maps `A` to `Z` to `a` to `z` and keeps every
/// other character.
pub assume_specification[ str::to_ascii_lowercase ](s: &str) -> (res: String)
    ensures
        res@ == ascii_lower(s@),
;

/// Text without its leading white space.
pub open spec fn trimmed_start(s: Seq<char>) -> Seq<char>
    decreases s.len(),
{
    if s.len() > 0 && is_white_space(s[0]) {
        trimmed_start(s.drop_first())
    } else {
        s
    }
}

/// Text without its trailing white space.
pub open spec fn trimmed_end(s: Seq<char>) -> Seq<char>
    decreases s.len(),
{
    if s.len() > 0 && is_white_space(s.last()) {
        trimmed_end(s.drop_last())
    } else {
        s
    }
}

/// Text without the white space at its ends.
pub open spec fn trimmed(s: Seq<char>) -> Seq<char> {
    trimmed_end(trimmed_start(s))
}

/// Text that holds nothing but white space.
pub open spec fn is_blank(s: Seq<char>) -> bool {
    forall|i: int| 0 <= i < s.len() ==> is_white_space(#[trigger] s[i])
}

proof fn lemma_trimmed_start(s: Seq<char>)
    ensures
        trimmed_start(s).len() == 0 <==> is_blank(s),
        trimmed_start(s).len() > 0 ==> !is_white_space(trimmed_start(s)[0]),
    decreases s.len(),
{
    if s.len() > 0 && is_white_space(s[0]) {
        lemma_trimmed_start(s.drop_first());
        if is_blank(s.drop_first()) {
            assert forall|i: int| 0 <= i < s.len() implies is_white_space(#[trigger] s[i]) by {
                if i > 0 {
                    assert(s[i] == s.drop_first()[i - 1]);
                }
            }
        } else {
            let k = choose|k: int| 0 <= k < s.drop_first().len() && !is_white_space(
                #[trigger] s.drop_first()[k],
            );
            assert(s[k + 1] == s.drop_first()[k]);
        }
    }
}

proof fn lemma_trimmed_end(s: Seq<char>)
    requires
        s.len() > 0,
        !is_white_space(s[0]),
    ensures
        trimmed_end(s).len() > 0,
    decreases s.len(),
{
    if is_white_space(s.last()) {
        assert(s.drop_last()[0] == s[0]);
        lemma_trimmed_end(s.drop_last());
    }
}

/// Trimming leaves nothing exactly when the text is blank.
pub proof fn lemma_trimmed_blank(s: Seq<char>)
    ensures
        trimmed(s).len() == 0 <==> is_blank(s),
{
    lemma_trimmed_start(s);
    if !is_blank(s) {
        lemma_trimmed_end(trimmed_start(s));
    }
}

/// Whether the text is empty once trimmed.
pub fn blank(s: &str) -> (r: bool)
    ensures
        r == is_blank(s@),
{
    proof {
        lemma_trimmed_blank(s@);
    }
    s.trim().is_empty()
}

/// Whether two texts hold the same characters.
pub fn same(a: &str, b: &str) -> (r: bool)
    ensures
        r == (a@ == b@),
{
    a.eq(b)
}

/// `A` to `Z` in lower case; other characters as they are.
pub open spec fn ascii_lower_char(c: char) -> char {
    if 'A' <= c <= 'Z' {
        ((c as u32) + 32) as char
    } else {
        c
    }
}

/// The text with its ASCII letters in lower case.
pub open spec fn ascii_lower(s: Seq<char>) -> Seq<char> {
    s.map_values(|c: char| ascii_lower_char(c))
}

/// Lower-casing twice is lower-casing once.
pub proof fn lemma_ascii_lower_idempotent(s: Seq<char>)
    ensures
        ascii_lower(ascii_lower(s)) == ascii_lower(s),
{
    assert(ascii_lower(ascii_lower(s)) =~= ascii_lower(s));
}

/// The decimal digit for a number below ten.
pub open spec fn digit_char(n: nat) -> char {
    (('0' as u32) + n) as char
}

/// A number in decimal digits, without leading zeros.
pub open spec fn decimal(n: nat) -> Seq<char>
    decreases n,
{
    if n < 10 {
        seq![digit_char(n)]
    } else {
        decimal(n / 10).push(digit_char(n % 10))
    }
}

/// An integer in decimal digits, with a minus sign where it is negative.
pub open spec fn signed_decimal(n: int) -> Seq<char> {
    if n < 0 {
        seq!['-'] + decimal((-n) as nat)
    } else {
        decimal(n as nat)
    }
}

/// `u128::to_string` writes the number in decimal digits without leading
/// zeros.
#[verifier::external_body]
fn u128_to_string(n: u128) -> (r: String)
    ensures
        r@ == decimal(n as nat),
{
    n.to_string()
}

/// An unsigned number in decimal.
pub fn number(n: u64) -> (r: String)
    ensures
        r@ == decimal(n as nat),
{
    u128_to_string(n as u128)
}

/// A wide unsigned number in decimal.
pub fn wide_number(n: u128) -> (r: String)
    ensures
        r@ == decimal(n as nat),
{
    u128_to_string(n)
}

/// A signed number in decimal.
pub fn signed_number(n: i64) -> (r: String)
    ensures
        r@ == signed_decimal(n as int),
{
    if n < 0 {
        let magnitude: u128 = (-(n as i128)) as u128;
        let mut text = "-".to_owned();
        let digits = u128_to_string(magnitude);
        proof {
            reveal_strlit("-");
            assert("-"@ =~= seq!['-']);
        }
        text.append(digits.as_str());
        text
    } else {
        u128_to_string(n as u128)
    }
}

/// Whether the character is a decimal digit.
pub open spec fn is_digit(c: char) -> bool {
    '0' <= c <= '9'
}

/// The number that decimal digits stand for.
pub open spec fn decimal_value(s: Seq<char>) -> nat
    decreases s.len(),
{
    if s.len() == 0 {
        0
    } else {
        decimal_value(s.drop_last()) * 10 + ((s.last() as u32) - ('0' as u32)) as nat
    }
}

/// Text made of at least one digit and of nothing else.
pub open spec fn is_decimal(s: Seq<char>) -> bool {
    s.len() > 0 && forall|i: int| 0 <= i < s.len() ==> is_digit(#[trigger] s[i])
}

/// Decimal digits give back the number that they were written for.
pub proof fn lemma_decimal_round_trip(n: nat)
    ensures
        is_decimal(decimal(n)),
        decimal_value(decimal(n)) == n,
    decreases n,
{
    if n < 10 {
        let s = decimal(n);
        assert(s.drop_last() =~= Seq::<char>::empty());
        assert(decimal_value(s.drop_last()) == 0);
    } else {
        lemma_decimal_round_trip(n / 10);
        let s = decimal(n);
        assert(s.drop_last() =~= decimal(n / 10));
    }
}

/// Different numbers are written differently.
pub proof fn lemma_decimal_injective(a: nat, b: nat)
    requires
        decimal(a) == decimal(b),
    ensures
        a == b,
{
    lemma_decimal_round_trip(a);
    lemma_decimal_round_trip(b);
}

proof fn lemma_decimal_value_monotonic(s: Seq<char>, i: int)
    requires
        0 <= i <= s.len(),
        forall|j: int| 0 <= j < s.len() ==> is_digit(#[trigger] s[j]),
    ensures
        decimal_value(s.take(i)) <= decimal_value(s),
    decreases s.len() - i,
{
    if i < s.len() {
        lemma_decimal_value_monotonic(s, i + 1);
        assert(s.take(i + 1).drop_last() =~= s.take(i));
    } else {
        assert(s.take(i) =~= s);
    }
}

/// Reads decimal digits, where they stand for a number that fits.
pub fn parse_decimal(s: &str) -> (r: Option<u64>)
    ensures
        r is Some <==> is_decimal(s@) && decimal_value(s@) <= u64::MAX,
        r is Some ==> r->0 == decimal_value(s@),
{
    let digits = chars_of(s);
    if digits.len() == 0 {
        return None;
    }
    let mut value: u64 = 0;
    let mut i: usize = 0;
    while i < digits.len()
        invariant
            0 <= i <= digits.len(),
            digits@ == s@,
            value == decimal_value(s@.take(i as int)),
            forall|j: int| 0 <= j < i ==> is_digit(#[trigger] s@[j]),
        decreases digits.len() - i,
    {
        let c = digits[i];
        if c < '0' || c > '9' {
            assert(!is_digit(s@[i as int]));
            return None;
        }
        let digit: u64 = (c as u32 - '0' as u32) as u64;
        let next: u128 = (value as u128) * 10 + (digit as u128);
        assert(s@.take(i + 1).drop_last() =~= s@.take(i as int));
        assert(next == decimal_value(s@.take(i + 1)));
        if next > u64::MAX as u128 {
            proof {
                if is_decimal(s@) {
                    lemma_decimal_value_monotonic(s@, i + 1);
                }
            }
            return None;
        }
        value = next as u64;
        i = i + 1;
    }
    assert(s@.take(i as int) =~= s@);
    Some(value)
}

/// What `{:?}` writes for a string: the text in double quotes, with its
/// special characters escaped.
pub uninterp spec fn debug_text(s: Seq<char>) -> Seq<char>;

/// `format!` with `{:?}` on a `str`: quotes the text and escapes its special
/// characters.
#[verifier::external_body]
pub(crate) fn quoted(s: &str) -> (r: String)
    ensures
        r@ == debug_text(s@),
{
    format!("{:?}", s)
}

/// The characters of a text.
pub fn chars_of(s: &str) -> (r: Vec<char>)
    ensures
        r@ == s@,
{
    let mut r: Vec<char> = Vec::new();
    for c in it: s.chars()
        invariant
            r@ == it.seq().take(it.index() as int),
            it.seq() == s@,
    {
        r.push(c);
    }
    r
}

/// Two texts, one after the other.
pub fn join2(a: &str, b: &str) -> (r: String)
    ensures
        r@ == a@ + b@,
{
    let mut r = a.to_owned();
    r.append(b);
    r
}

/// Three texts, one after the other.
pub fn join3(a: &str, b: &str, c: &str) -> (r: String)
    ensures
        r@ == a@ + b@ + c@,
{
    let mut r = a.to_owned();
    r.append(b);
    r.append(c);
    r
}

/// Four texts, one after the other.
pub fn join4(a: &str, b: &str, c: &str, d: &str) -> (r: String)
    ensures
        r@ == a@ + b@ + c@ + d@,
{
    let mut r = a.to_owned();
    r.append(b);
    r.append(c);
    r.append(d);
    r
}

/// Five texts, one after the other.
pub fn join5(a: &str, b: &str, c: &str, d: &str, e: &str) -> (r: String)
    ensures
        r@ == a@ + b@ + c@ + d@ + e@,
{
    let mut r = a.to_owned();
    r.append(b);
    r.append(c);
    r.append(d);
    r.append(e);
    r
}

/// A text with another one behind it.
pub fn appended(text: String, more: &str) -> (r: String)
    ensures
        r@ == text@ + more@,
{
    let mut r = text;
    r.append(more);
    r
}

/// Whether `prefix` is how `s` begins.
pub open spec fn has_prefix(s: Seq<char>, prefix: Seq<char>) -> bool {
    prefix.len() <= s.len() && s.take(prefix.len() as int) == prefix
}

/// Whether `suffix` is how `s` ends.
pub open spec fn has_suffix(s: Seq<char>, suffix: Seq<char>) -> bool {
    suffix.len() <= s.len() && s.skip(s.len() - suffix.len()) == suffix
}

/// The bytes of two texts one after the other are those of the first, then those
/// of the second.
pub proof fn lemma_encode_concat(a: Seq<char>, b: Seq<char>)
    ensures
        vstd::utf8::encode_utf8(a + b) == vstd::utf8::encode_utf8(a) + vstd::utf8::encode_utf8(b),
    decreases a.len(),
{
    if a.len() == 0 {
        assert(a + b =~= b);
        assert(vstd::utf8::encode_utf8(a) + vstd::utf8::encode_utf8(b) =~= vstd::utf8::encode_utf8(b));
    } else {
        lemma_encode_concat(a.drop_first(), b);
        assert((a + b).drop_first() =~= a.drop_first() + b);
        assert(vstd::utf8::encode_utf8(a + b) =~= vstd::utf8::encode_utf8(a) + vstd::utf8::encode_utf8(b));
    }
}

/// A text has more bytes than any shorter text that it ends in.
pub proof fn lemma_suffix_has_fewer_bytes(s: Seq<char>, suffix: Seq<char>)
    requires
        has_suffix(s, suffix),
        suffix.len() < s.len(),
    ensures
        vstd::utf8::encode_utf8(suffix).len() < vstd::utf8::encode_utf8(s).len(),
{
    let start = s.take(s.len() - suffix.len());
    assert(s =~= start + suffix);
    lemma_encode_concat(start, suffix);
    assert(vstd::utf8::encode_utf8(start).len() > 0);
}

/// Whether the text begins with `prefix`.
pub fn starts_with(s: &str, prefix: &str) -> (r: bool)
    ensures
        r == has_prefix(s@, prefix@),
{
    let whole = chars_of(s);
    let part = chars_of(prefix);
    if part.len() > whole.len() {
        return false;
    }
    let mut i: usize = 0;
    while i < part.len()
        invariant
            0 <= i <= part.len() <= whole.len(),
            whole@ == s@,
            part@ == prefix@,
            forall|j: int| 0 <= j < i ==> whole@[j] == part@[j],
        decreases part.len() - i,
    {
        if whole[i] != part[i] {
            assert(s@.take(prefix@.len() as int)[i as int] != prefix@[i as int]);
            return false;
        }
        i = i + 1;
    }
    assert(s@.take(prefix@.len() as int) =~= prefix@);
    true
}

/// Whether the text ends with `suffix`.
pub fn ends_with(s: &str, suffix: &str) -> (r: bool)
    ensures
        r == has_suffix(s@, suffix@),
{
    let whole = chars_of(s);
    let part = chars_of(suffix);
    if part.len() > whole.len() {
        return false;
    }
    let start: usize = whole.len() - part.len();
    let mut i: usize = 0;
    while i < part.len()
        invariant
            0 <= i <= part.len() <= whole.len(),
            start == whole.len() - part.len(),
            whole@ == s@,
            part@ == suffix@,
            forall|j: int| 0 <= j < i ==> whole@[start + j] == part@[j],
        decreases part.len() - i,
    {
        if whole[start + i] != part[i] {
            assert(s@.skip(start as int)[i as int] != suffix@[i as int]);
            return false;
        }
        i = i + 1;
    }
    assert(s@.skip(start as int) =~= suffix@);
    true
}

/// The order of texts: by their first differing character, a proper prefix
/// before the longer text.
pub open spec fn precedes(a: Seq<char>, b: Seq<char>) -> bool
    decreases a.len(),
{
    if b.len() == 0 {
        false
    } else if a.len() == 0 {
        true
    } else if a[0] != b[0] {
        a[0] < b[0]
    } else {
        precedes(a.drop_first(), b.drop_first())
    }
}

/// No text precedes itself.
pub proof fn lemma_precedes_irreflexive(a: Seq<char>)
    ensures
        !precedes(a, a),
    decreases a.len(),
{
    if a.len() > 0 {
        lemma_precedes_irreflexive(a.drop_first());
    }
}

/// The order of texts is transitive.
pub proof fn lemma_precedes_transitive(a: Seq<char>, b: Seq<char>, c: Seq<char>)
    requires
        precedes(a, b),
        precedes(b, c),
    ensures
        precedes(a, c),
    decreases a.len(),
{
    if a.len() > 0 && a[0] == b[0] && b[0] == c[0] {
        lemma_precedes_transitive(a.drop_first(), b.drop_first(), c.drop_first());
    }
}

/// Of two different texts, one precedes the other.
pub proof fn lemma_precedes_total(a: Seq<char>, b: Seq<char>)
    ensures
        a == b || precedes(a, b) || precedes(b, a),
    decreases a.len(),
{
    if a.len() > 0 && b.len() > 0 {
        if a[0] == b[0] {
            lemma_precedes_total(a.drop_first(), b.drop_first());
            if a.drop_first() == b.drop_first() {
                assert(a.drop_first().len() == b.drop_first().len());
                assert forall|i: int| 0 <= i < a.len() implies a[i] == b[i] by {
                    if i > 0 {
                        assert(a[i] == a.drop_first()[i - 1]);
                        assert(b[i] == b.drop_first()[i - 1]);
                    }
                }
                assert(a =~= b);
            }
        }
    } else if a.len() == 0 && b.len() == 0 {
        assert(a =~= b);
    }
}

/// Whether one text comes before another.
pub fn before(a: &str, b: &str) -> (r: bool)
    ensures
        r == precedes(a@, b@),
{
    let left = chars_of(a);
    let right = chars_of(b);
    let mut i: usize = 0;
    assert(a@.skip(0) =~= a@ && b@.skip(0) =~= b@);
    loop
        invariant
            left@ == a@,
            right@ == b@,
            0 <= i <= left.len(),
            i <= right.len(),
            precedes(a@, b@) == precedes(a@.skip(i as int), b@.skip(i as int)),
        decreases left.len() - i,
    {
        if i >= right.len() {
            return false;
        }
        if i >= left.len() {
            return true;
        }
        let x = left[i];
        let y = right[i];
        if x != y {
            return x < y;
        }
        assert(a@.skip(i as int).drop_first() =~= a@.skip(i + 1));
        assert(b@.skip(i as int).drop_first() =~= b@.skip(i + 1));
        i = i + 1;
    }
}

/// The index of the first occurrence of a character.
pub open spec fn first_index(s: Seq<char>, c: char) -> Option<int>
    decreases s.len(),
{
    if s.len() == 0 {
        None
    } else if s[0] == c {
        Some(0)
    } else {
        match first_index(s.drop_first(), c) {
            Some(i) => Some(i + 1),
            None => None,
        }
    }
}

/// The first position of a character is where it stands and does not stand
/// before.
pub proof fn lemma_first_index_at(s: Seq<char>, c: char, i: int)
    requires
        0 <= i < s.len(),
        s[i] == c,
        forall|j: int| 0 <= j < i ==> s[j] != c,
    ensures
        first_index(s, c) == Some(i),
{
    lemma_first_index(s, c, i);
}

proof fn lemma_first_index(s: Seq<char>, c: char, i: int)
    requires
        0 <= i <= s.len(),
        forall|j: int| 0 <= j < i ==> s[j] != c,
    ensures
        i < s.len() && s[i] == c ==> first_index(s, c) == Some(i),
        i == s.len() ==> first_index(s, c) is None,
    decreases s.len(),
{
    if s.len() > 0 && i > 0 {
        assert forall|j: int| 0 <= j < i - 1 implies s.drop_first()[j] != c by {
            assert(s.drop_first()[j] == s[j + 1]);
        }
        lemma_first_index(s.drop_first(), c, i - 1);
    }
}

/// The text before and after the first occurrence of a character.
pub fn split_once(s: &str, c: char) -> (r: Option<(&str, &str)>)
    ensures
        r is Some == first_index(s@, c) is Some,
        r matches Some((head, tail)) ==> {
            let at = first_index(s@, c)->0;
            &&& 0 <= at < s@.len()
            &&& head@ == s@.take(at)
            &&& tail@ == s@.skip(at + 1)
        },
{
    let chars = chars_of(s);
    let mut i: usize = 0;
    while i < chars.len()
        invariant
            0 <= i <= chars.len(),
            chars@ == s@,
            forall|j: int| 0 <= j < i ==> s@[j] != c,
        decreases chars.len() - i,
    {
        if chars[i] == c {
            proof {
                lemma_first_index(s@, c, i as int);
            }
            let head = s.substring_char(0, i);
            let tail = s.substring_char(i + 1, chars.len());
            assert(s@.subrange(0, i as int) =~= s@.take(i as int));
            assert(s@.subrange(i + 1, s@.len() as int) =~= s@.skip(i + 1));
            return Some((head, tail));
        }
        i = i + 1;
    }
    proof {
        lemma_first_index(s@, c, i as int);
    }
    None
}

} // verus!
