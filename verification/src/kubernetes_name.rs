//! Names and label values that Kubernetes accepts.
use vstd::prelude::*;
use vstd::string::*;
use vstd::utf8::*;

use crate::ids::InstanceId;
use crate::text;

verus! {

pub const DNS_LABEL_MAX_LEN: usize = 63;

/// Lower-case letters and digits.
pub open spec fn is_lower_alphanumeric(c: char) -> bool {
    'a' <= c <= 'z' || '0' <= c <= '9'
}

/// ASCII letters and digits.
pub open spec fn is_ascii_alphanumeric(c: char) -> bool {
    'a' <= c <= 'z' || 'A' <= c <= 'Z' || '0' <= c <= '9'
}

/// One to 63 lower-case letters, digits and hyphens, without a hyphen at either
/// end.
pub open spec fn dns_label(s: Seq<char>) -> bool {
    &&& 0 < s.len() <= 63
    &&& forall|i: int| 0 <= i < s.len() ==> is_lower_alphanumeric(#[trigger] s[i]) || s[i] == '-'
    &&& s[0] != '-'
    &&& s.last() != '-'
}

/// At most 63 letters, digits, hyphens, underscores and dots, with a letter or
/// digit at both ends.
pub open spec fn label_value(s: Seq<char>) -> bool {
    &&& s.len() <= 63
    &&& s.len() > 0 ==> {
        &&& forall|i: int|
            0 <= i < s.len() ==> is_ascii_alphanumeric(#[trigger] s[i]) || s[i] == '-' || s[i] == '_'
                || s[i] == '.'
        &&& is_ascii_alphanumeric(s[0])
        &&& is_ascii_alphanumeric(s.last())
    }
}

fn lower_alphanumeric(c: char) -> (r: bool)
    ensures
        r == is_lower_alphanumeric(c),
{
    ('a' <= c && c <= 'z') || ('0' <= c && c <= '9')
}

fn ascii_alphanumeric(c: char) -> (r: bool)
    ensures
        r == is_ascii_alphanumeric(c),
{
    ('a' <= c && c <= 'z') || ('A' <= c && c <= 'Z') || ('0' <= c && c <= '9')
}

/// Whether the value is a DNS label.
pub fn is_dns_label(value: &str) -> (r: bool)
    ensures
        r == dns_label(value@),
{
    let chars = text::chars_of(value);
    if chars.len() == 0 || chars.len() > DNS_LABEL_MAX_LEN {
        return false;
    }
    let mut i: usize = 0;
    while i < chars.len()
        invariant
            0 <= i <= chars.len(),
            chars@ == value@,
            forall|j: int|
                0 <= j < i ==> is_lower_alphanumeric(#[trigger] value@[j]) || value@[j] == '-',
        decreases chars.len() - i,
    {
        let c = chars[i];
        if !lower_alphanumeric(c) && c != '-' {
            return false;
        }
        i = i + 1;
    }
    chars[0] != '-' && chars[chars.len() - 1] != '-'
}

/// Whether the value may stand in a label.
pub fn is_label_value(value: &str) -> (r: bool)
    ensures
        r == label_value(value@),
{
    let chars = text::chars_of(value);
    if chars.len() > DNS_LABEL_MAX_LEN {
        return false;
    }
    if chars.len() == 0 {
        return true;
    }
    let mut i: usize = 0;
    while i < chars.len()
        invariant
            0 <= i <= chars.len(),
            chars@ == value@,
            forall|j: int|
                0 <= j < i ==> is_ascii_alphanumeric(#[trigger] value@[j]) || value@[j] == '-'
                    || value@[j] == '_' || value@[j] == '.',
        decreases chars.len() - i,
    {
        let c = chars[i];
        if !ascii_alphanumeric(c) && c != '-' && c != '_' && c != '.' {
            return false;
        }
        i = i + 1;
    }
    ascii_alphanumeric(chars[0]) && ascii_alphanumeric(chars[chars.len() - 1])
}

/// A DNS label may stand in a label.
pub proof fn lemma_dns_label_is_label_value(s: Seq<char>)
    requires
        dns_label(s),
    ensures
        label_value(s),
{
}

const INSTANCE_ID_SUFFIX_RESERVED_LEN: usize = 8;

const INSTANCE_ID_SUFFIX_MAX_LEN: usize = 16;

/// How many bytes a character takes.
pub open spec fn width(c: char) -> int {
    encode_scalar(c as u32).len() as int
}

/// The longest beginning of a text that fits into so many bytes.
pub open spec fn fitting(s: Seq<char>, budget: int) -> Seq<char>
    decreases s.len(),
{
    if s.len() == 0 || width(s[0]) > budget {
        Seq::empty()
    } else {
        seq![s[0]] + fitting(s.drop_first(), budget - width(s[0]))
    }
}

/// A text without the hyphens at its end.
pub open spec fn without_trailing_hyphens(s: Seq<char>) -> Seq<char>
    decreases s.len(),
{
    if s.len() > 0 && s.last() == '-' {
        without_trailing_hyphens(s.drop_last())
    } else {
        s
    }
}

/// A length that grows, up to a bound, past hyphens.
pub open spec fn past_hyphens(bytes: Seq<u8>, len: int, max: int) -> int
    decreases max - len,
{
    if 0 < len < max && bytes[len - 1] == 0x2d {
        past_hyphens(bytes, len + 1, max)
    } else {
        len
    }
}

/// The smaller of two lengths.
pub open spec fn at_most(len: int, max: int) -> int {
    if len < max {
        len
    } else {
        max
    }
}

/// How many bytes of an instance ID a name takes: eight, or up to sixteen so as
/// not to end in a hyphen.
pub open spec fn id_prefix_len(bytes: Seq<u8>) -> int {
    past_hyphens(bytes, at_most(bytes.len() as int, 8), at_most(bytes.len() as int, 16))
}

/// The end of a name that tells the instance.
pub open spec fn id_suffix(id: Seq<char>) -> Seq<char> {
    without_trailing_hyphens(
        decode_utf8(encode_utf8(id).subrange(0, id_prefix_len(encode_utf8(id)))),
    )
}

/// A name for an object of an instance: as much of the base as fits, a hyphen
/// and the end that tells the instance.
pub open spec fn instance_scoped_name(base: Seq<char>, id: Seq<char>) -> Seq<char> {
    fitting(base, 62 - encode_utf8(id_suffix(id)).len()) + "-"@ + id_suffix(id)
}

proof fn lemma_past_hyphens(bytes: Seq<u8>, len: int, max: int)
    requires
        len <= max,
    ensures
        len <= past_hyphens(bytes, len, max) <= max,
    decreases max - len,
{
    if 0 < len < max && bytes[len - 1] == 0x2d {
        lemma_past_hyphens(bytes, len + 1, max);
    }
}

proof fn lemma_without_trailing_hyphens(s: Seq<char>)
    ensures
        without_trailing_hyphens(s).len() <= s.len(),
        without_trailing_hyphens(s) == s.take(without_trailing_hyphens(s).len() as int),
        encode_utf8(without_trailing_hyphens(s)).len() <= encode_utf8(s).len(),
        without_trailing_hyphens(s).len() > 0 ==> without_trailing_hyphens(s).last() != '-',
    decreases s.len(),
{
    if s.len() > 0 && s.last() == '-' {
        let rest = s.drop_last();
        lemma_without_trailing_hyphens(rest);
        assert(rest + seq![s.last()] =~= s);
        text::lemma_encode_concat(rest, seq![s.last()]);
        assert(s.take(without_trailing_hyphens(rest).len() as int) =~= rest.take(
            without_trailing_hyphens(rest).len() as int,
        ));
    } else {
        assert(s.take(s.len() as int) =~= s);
    }
}

proof fn lemma_fitting(s: Seq<char>, budget: int)
    requires
        budget >= 0,
    ensures
        encode_utf8(fitting(s, budget)).len() <= budget,
        fitting(s, budget).len() <= s.len(),
        fitting(s, budget) == s.take(fitting(s, budget).len() as int),
    decreases s.len(),
{
    if s.len() == 0 || width(s[0]) > budget {
        assert(s.take(0) =~= Seq::empty());
    } else {
        let rest = fitting(s.drop_first(), budget - width(s[0]));
        lemma_fitting(s.drop_first(), budget - width(s[0]));
        assert(fitting(s, budget).drop_first() =~= rest);
        assert(fitting(s, budget) =~= s.take(fitting(s, budget).len() as int));
    }
}

/// The suffix of an instance ID is short.
proof fn lemma_id_suffix(id: Seq<char>)
    requires
        is_char_boundary(encode_utf8(id), id_prefix_len(encode_utf8(id))),
    ensures
        encode_utf8(id_suffix(id)).len() <= 16,
{
    let bytes = encode_utf8(id);
    let n = id_prefix_len(bytes);
    encode_utf8_valid_utf8(id);
    lemma_past_hyphens(bytes, at_most(bytes.len() as int, 8), at_most(bytes.len() as int, 16));
    let head = bytes.subrange(0, n);
    valid_utf8_split(bytes, n);
    decode_utf8_encode_utf8(head);
    lemma_without_trailing_hyphens(decode_utf8(head));
}

/// A name takes at most 63 bytes.
pub proof fn lemma_instance_scoped_name_fits(base: Seq<char>, id: Seq<char>)
    requires
        is_char_boundary(encode_utf8(id), id_prefix_len(encode_utf8(id))),
    ensures
        encode_utf8(instance_scoped_name(base, id)).len() <= 63,
{
    let suffix = id_suffix(id);
    let budget = 62 - encode_utf8(suffix).len();
    lemma_id_suffix(id);
    lemma_fitting(base, budget);
    reveal_strlit("-");
    text::lemma_encode_concat(fitting(base, budget), "-"@);
    text::lemma_encode_concat(fitting(base, budget) + "-"@, suffix);
    assert(encode_utf8("-"@).len() == 1) by {
        reveal_with_fuel(encode_utf8, 2);
    }
}

fn char_width(c: char) -> (r: usize)
    ensures
        r == width(c),
        1 <= r <= 4,
{
    proof {
        char_is_scalar(c);
    }
    let code: u32 = c as u32;
    if code <= 0x7f {
        1
    } else if code <= 0x7ff {
        2
    } else if code <= 0xffff {
        3
    } else {
        4
    }
}

fn truncate_to_byte_len(value: &str, max_len: usize) -> (r: &str)
    ensures
        r@ == fitting(value@, max_len as int),
{
    let chars = text::chars_of(value);
    let mut end: usize = 0;
    let mut left: usize = max_len;
    assert(value@.take(0) + fitting(value@.skip(0), max_len as int) =~= fitting(
        value@,
        max_len as int,
    )) by {
        assert(value@.skip(0) =~= value@);
    }
    while end < chars.len()
        invariant
            0 <= end <= chars.len(),
            chars@ == value@,
            fitting(value@, max_len as int) == value@.take(end as int) + fitting(
                value@.skip(end as int),
                left as int,
            ),
        decreases chars.len() - end,
    {
        let needed: usize = char_width(chars[end]);
        let ghost rest = value@.skip(end as int);
        assert(rest[0] == value@[end as int]);
        if needed > left {
            assert(value@.take(end as int) + Seq::<char>::empty() =~= value@.take(end as int));
            return value.substring_char(0, end);
        }
        proof {
            assert(rest.drop_first() =~= value@.skip(end + 1));
            assert(value@.take(end as int) + (seq![rest[0]] + fitting(
                rest.drop_first(),
                left - needed,
            )) =~= value@.take(end + 1) + fitting(value@.skip(end + 1), left - needed));
        }
        left = left - needed;
        end = end + 1;
    }
    assert(value@.skip(end as int).len() == 0);
    assert(value@.take(end as int) + Seq::<char>::empty() =~= value@);
    value
}

fn trim_trailing_hyphens(value: &str) -> (r: &str)
    ensures
        r@ == without_trailing_hyphens(value@),
{
    let chars = text::chars_of(value);
    let mut end: usize = chars.len();
    assert(value@.take(end as int) =~= value@);
    while end > 0 && chars[end - 1] == '-'
        invariant
            0 <= end <= chars.len(),
            chars@ == value@,
            without_trailing_hyphens(value@) == without_trailing_hyphens(value@.take(end as int)),
        decreases end,
    {
        assert(value@.take(end as int).drop_last() =~= value@.take(end - 1));
        end = end - 1;
    }
    value.substring_char(0, end)
}

fn instance_id_suffix(instance_id: &InstanceId) -> (r: &str)
    requires
        is_char_boundary(encode_utf8(instance_id@), id_prefix_len(encode_utf8(instance_id@))),
    ensures
        r@ == id_suffix(instance_id@),
{
    let value = instance_id.as_str();
    let bytes = value.as_bytes();
    let len: usize = bytes.len();
    let max_len: usize = if len < INSTANCE_ID_SUFFIX_MAX_LEN {
        len
    } else {
        INSTANCE_ID_SUFFIX_MAX_LEN
    };
    let mut suffix_len: usize = if len < INSTANCE_ID_SUFFIX_RESERVED_LEN {
        len
    } else {
        INSTANCE_ID_SUFFIX_RESERVED_LEN
    };
    while suffix_len < max_len && suffix_len > 0 && bytes[suffix_len - 1] == 0x2d
        invariant
            0 <= suffix_len <= max_len <= bytes@.len(),
            max_len == at_most(bytes@.len() as int, 16),
            id_prefix_len(bytes@) == past_hyphens(bytes@, suffix_len as int, max_len as int),
        decreases max_len - suffix_len,
    {
        suffix_len = suffix_len + 1;
    }
    let (head, _) = value.split_at(suffix_len);
    proof {
        encode_utf8_decode_utf8(head@);
    }
    trim_trailing_hyphens(head)
}

/// A name for an object of an instance, of at most 63 bytes.
pub fn render_instance_scoped_name(base: &str, instance_id: &InstanceId) -> (r: String)
    requires
        is_char_boundary(encode_utf8(instance_id@), id_prefix_len(encode_utf8(instance_id@))),
    ensures
        r@ == instance_scoped_name(base@, instance_id@),
        encode_utf8(r@).len() <= 63,
{
    let suffix = instance_id_suffix(instance_id);
    proof {
        lemma_id_suffix(instance_id@);
        lemma_instance_scoped_name_fits(base@, instance_id@);
    }
    let base_budget: usize = DNS_LABEL_MAX_LEN - 1 - suffix.as_bytes().len();
    let base = truncate_to_byte_len(base, base_budget);
    text::join3(base, "-", suffix)
}

/// A text that may stand in a DNS label of any length.
pub open spec fn label_chars(s: Seq<char>) -> bool {
    forall|i: int| 0 <= i < s.len() ==> is_lower_alphanumeric(#[trigger] s[i]) || s[i] == '-'
}

/// From a base and an instance ID of label characters that begin with a letter or
/// digit comes a DNS label.
pub proof fn lemma_instance_scoped_name_is_dns_label(base: Seq<char>, id: Seq<char>)
    requires
        base.len() > 0,
        id.len() > 0,
        label_chars(base),
        label_chars(id),
        base[0] != '-',
        id[0] != '-',
    ensures
        dns_label(instance_scoped_name(base, id)),
{
    let bytes = encode_utf8(id);
    let n = id_prefix_len(bytes);
    encode_utf8_valid_utf8(id);
    is_ascii_chars_encode_utf8(id);
    lemma_past_hyphens(bytes, at_most(bytes.len() as int, 8), at_most(bytes.len() as int, 16));
    let head = id.take(n);
    assert(id =~= head + id.skip(n));
    text::lemma_encode_concat(head, id.skip(n));
    assert(is_ascii_chars(head));
    is_ascii_chars_encode_utf8(head);
    assert(bytes.subrange(0, n) =~= encode_utf8(head));
    encode_utf8_decode_utf8(head);
    let suffix = id_suffix(id);
    assert(suffix == without_trailing_hyphens(head));
    lemma_without_trailing_hyphens(head);
    if suffix.len() == 0 {
        lemma_hyphens_only(head);
        assert(head[0] == '-');
    }
    assert(suffix[0] == id[0]);
    assert(is_ascii_chars(suffix));
    is_ascii_chars_encode_utf8(suffix);
    let budget = 62 - encode_utf8(suffix).len();
    lemma_fitting(base, budget);
    let front = fitting(base, budget);
    assert(is_ascii_chars(base));
    assert(width(base[0]) == 1);
    assert(front.len() > 0 && front[0] == base[0]);
    assert(is_ascii_chars(front));
    is_ascii_chars_encode_utf8(front);
    reveal_strlit("-");
    let name = instance_scoped_name(base, id);
    assert(name.last() == suffix.last());
    assert forall|i: int| 0 <= i < name.len() implies is_lower_alphanumeric(#[trigger] name[i])
        || name[i] == '-' by {
        if i < front.len() {
            assert(name[i] == base[i]);
        } else if i > front.len() {
            assert(name[i] == id[i - front.len() - 1]);
        }
    }
}

proof fn lemma_hyphens_only(s: Seq<char>)
    requires
        without_trailing_hyphens(s).len() == 0,
    ensures
        forall|i: int| 0 <= i < s.len() ==> #[trigger] s[i] == '-',
    decreases s.len(),
{
    if s.len() > 0 {
        lemma_hyphens_only(s.drop_last());
        assert forall|i: int| 0 <= i < s.len() implies #[trigger] s[i] == '-' by {
            if i < s.len() - 1 {
                assert(s.drop_last()[i] == s[i]);
            }
        }
    }
}

proof fn lemma_ascii_fitting(s: Seq<char>, budget: int)
    requires
        label_chars(s),
        budget >= 0,
    ensures
        fitting(s, budget) == s.take(at_most(s.len() as int, budget)),
    decreases s.len(),
{
    if s.len() > 0 {
        assert(width(s[0]) == 1);
        let rest = s.drop_first();
        assert forall|i: int| 0 <= i < rest.len() implies is_lower_alphanumeric(#[trigger] rest[i])
            || rest[i] == '-' by {
            assert(rest[i] == s[i + 1]);
        }
        if budget > 0 {
            lemma_ascii_fitting(rest, budget - 1);
        }
    }
    assert(fitting(s, budget) =~= s.take(at_most(s.len() as int, budget)));
}

/// The end of a name that tells the instance is how the instance ID begins: its first
/// eight characters, unless a hyphen ends them, and the whole ID if it is not longer.
pub proof fn lemma_name_tells_the_instance(id: Seq<char>)
    requires
        id.len() > 0,
        label_chars(id),
        id[0] != '-',
    ensures
        id_suffix(id) == id.take(id_suffix(id).len() as int),
        0 < id_suffix(id).len() <= 16,
        id_suffix(id).len() <= id.len(),
        id_suffix(id).last() != '-',
        id.len() >= 8 && id[7] != '-' ==> id_suffix(id) == id.take(8),
        id.len() <= 8 && id.last() != '-' ==> id_suffix(id) == id,
{
    let bytes = encode_utf8(id);
    let n = id_prefix_len(bytes);
    encode_utf8_valid_utf8(id);
    is_ascii_chars_encode_utf8(id);
    lemma_past_hyphens(bytes, at_most(bytes.len() as int, 8), at_most(bytes.len() as int, 16));
    let head = id.take(n);
    assert(id =~= head + id.skip(n));
    text::lemma_encode_concat(head, id.skip(n));
    assert(is_ascii_chars(head));
    is_ascii_chars_encode_utf8(head);
    assert(bytes.subrange(0, n) =~= encode_utf8(head));
    encode_utf8_decode_utf8(head);
    let suffix = id_suffix(id);
    assert(suffix == without_trailing_hyphens(head));
    lemma_without_trailing_hyphens(head);
    assert(suffix =~= id.take(suffix.len() as int));
    if suffix.len() == 0 {
        lemma_hyphens_only(head);
        assert(head[0] == '-');
    }
    if id.len() >= 8 && id[7] != '-' {
        let c = id[7];
        assert(bytes[7] == c as u8);
        assert(n == 8);
        assert(head.last() == c);
    }
    if id.len() <= 8 && id.last() != '-' {
        let c = id[id.len() - 1];
        assert(bytes[id.len() - 1] == c as u8);
        assert(n == id.len());
        assert(head =~= id);
    }
}

/// A name begins with its base, all of it if it fits and else as much as does, and ends
/// in what tells the instance.
pub proof fn lemma_name_begins_with_its_base(base: Seq<char>, id: Seq<char>)
    requires
        id.len() > 0,
        label_chars(base),
        label_chars(id),
        id[0] != '-',
    ensures
        base.len() + 1 + id_suffix(id).len() <= 63 ==> instance_scoped_name(base, id) == base
            + seq!['-'] + id_suffix(id),
        base.len() + 1 + id_suffix(id).len() > 63 ==> instance_scoped_name(base, id)
            == base.take(62 - id_suffix(id).len()) + seq!['-'] + id_suffix(id),
{
    lemma_name_tells_the_instance(id);
    let suffix = id_suffix(id);
    assert(is_ascii_chars(suffix)) by {
        assert forall|i: int| 0 <= i < suffix.len() implies 0 <= (
        #[trigger] suffix[i] as u32) < 128 by {
            assert(suffix[i] == id.take(suffix.len() as int)[i]);
        }
    }
    is_ascii_chars_encode_utf8(suffix);
    lemma_ascii_fitting(base, 62 - suffix.len());
    reveal_strlit("-");
    assert("-"@ =~= seq!['-']);
    assert(base.take(base.len() as int) =~= base);
}

/// DNS labels are joined by a hyphen to a DNS label, if it is not too long, and by
/// nothing else than letters, digits and hyphens.
pub proof fn lemma_labels_are_joined_by_hyphens(a: Seq<char>, c: char, b: Seq<char>)
    requires
        dns_label(a),
        dns_label(b),
    ensures
        dns_label(a.push(c) + b) <==> a.len() + 1 + b.len() <= 63 && ('a' <= c <= 'z' || '0' <= c
            <= '9' || c == '-'),
        !dns_label(Seq::empty()),
        !dns_label(a.push('-')),
        !dns_label(seq!['-'] + a),
{
    let joined = a.push(c) + b;
    assert(joined[a.len() as int] == c);
    assert(joined[0] == a[0]);
    assert(joined.last() == b.last());
    if a.len() + 1 + b.len() <= 63 && (is_lower_alphanumeric(c) || c == '-') {
        assert forall|i: int| 0 <= i < joined.len() implies is_lower_alphanumeric(
            #[trigger] joined[i],
        ) || joined[i] == '-' by {
            if i < a.len() {
                assert(joined[i] == a[i]);
            } else if i > a.len() {
                assert(joined[i] == b[i - a.len() - 1]);
            }
        }
    }
    assert((seq!['-'] + a)[0] == '-');
    assert(a.push('-').last() == '-');
}

} // verus!
