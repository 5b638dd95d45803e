//! Comparison and canonical tokens of Runtime values as the Query Engine uses
//! them for range predicates, sorting, grouping and distinct counts.
use vstd::prelude::*;
use crate::contracts::{PropertyValue, PropertyValueView};
use crate::numbers::{is_nan, number_rank, number_is_nan};
use crate::text::{
    append_decimal, append_length_prefixed, chars_lt, compare_chars, decimal, lemma_chars_lt_irreflexive,
    lemma_chars_lt_total, lemma_chars_lt_transitive, length_prefixed, push_char, string_of, KeyOrder,
};

verus! {

/// The opposite outcome of a three-way comparison.
pub open spec fn reversed(o: KeyOrder) -> KeyOrder {
    match o {
        KeyOrder::Less => KeyOrder::Greater,
        KeyOrder::Equal => KeyOrder::Equal,
        KeyOrder::Greater => KeyOrder::Less,
    }
}

/// Returns the opposite outcome of a three-way comparison.
pub fn reverse_order(o: KeyOrder) -> (r: KeyOrder)
    ensures
        r == reversed(o),
{
    match o {
        KeyOrder::Less => KeyOrder::Greater,
        KeyOrder::Equal => KeyOrder::Equal,
        KeyOrder::Greater => KeyOrder::Less,
    }
}

/// Three-way lexicographic comparison of character sequences.
pub open spec fn chars_order(a: Seq<char>, b: Seq<char>) -> KeyOrder {
    if chars_lt(a, b) {
        KeyOrder::Less
    } else if a == b {
        KeyOrder::Equal
    } else {
        KeyOrder::Greater
    }
}

/// Swapping the arguments of a character comparison reverses its outcome.
pub proof fn lemma_chars_order_antisymmetric(a: Seq<char>, b: Seq<char>)
    ensures
        chars_order(b, a) == reversed(chars_order(a, b)),
{
    lemma_chars_lt_irreflexive(a);
    lemma_chars_lt_total(a, b);
    if chars_lt(a, b) && chars_lt(b, a) {
        lemma_chars_lt_transitive(a, b, a);
    }
}

/// Returns the three-way comparison of two strings.
pub fn compare_text(a: &str, b: &str) -> (r: KeyOrder)
    ensures
        r == chars_order(a@, b@),
{
    proof {
        lemma_chars_lt_irreflexive(a@);
    }
    compare_chars(a, b)
}

/// Strict lexicographic order on byte sequences.
pub open spec fn bytes_lt(a: Seq<u8>, b: Seq<u8>) -> bool
    decreases a.len(),
{
    if a.len() == 0 {
        b.len() > 0
    } else if b.len() == 0 {
        false
    } else if a[0] != b[0] {
        a[0] < b[0]
    } else {
        bytes_lt(a.drop_first(), b.drop_first())
    }
}

/// Two byte sequences are equal or ordered exactly one way.
pub proof fn lemma_bytes_lt_trichotomy(a: Seq<u8>, b: Seq<u8>)
    ensures
        !(bytes_lt(a, b) && bytes_lt(b, a)),
        !bytes_lt(a, b) && !bytes_lt(b, a) ==> a == b,
        !bytes_lt(a, a),
    decreases a.len(),
{
    if a.len() > 0 && b.len() > 0 && a[0] == b[0] {
        lemma_bytes_lt_trichotomy(a.drop_first(), b.drop_first());
        if a.drop_first() == b.drop_first() {
            assert(a =~= seq![a[0]] + a.drop_first());
            assert(b =~= seq![b[0]] + b.drop_first());
        }
    } else if a.len() == 0 && b.len() == 0 {
        assert(a =~= b);
    }
    if a.len() > 0 {
        lemma_bytes_lt_trichotomy(a.drop_first(), a.drop_first());
    }
}

/// Three-way lexicographic comparison of byte sequences.
pub open spec fn bytes_order(a: Seq<u8>, b: Seq<u8>) -> KeyOrder {
    if bytes_lt(a, b) {
        KeyOrder::Less
    } else if a == b {
        KeyOrder::Equal
    } else {
        KeyOrder::Greater
    }
}

/// Returns the three-way comparison of two byte sequences.
pub fn compare_bytes(a: &Vec<u8>, b: &Vec<u8>) -> (r: KeyOrder)
    ensures
        r == bytes_order(a@, b@),
{
    proof {
        lemma_bytes_lt_trichotomy(a@, b@);
    }
    let la = a.len();
    let lb = b.len();
    let mut i: usize = 0;
    proof {
        assert(a@.skip(0) =~= a@);
        assert(b@.skip(0) =~= b@);
    }
    while i < la && i < lb
        invariant
            la == a@.len(),
            lb == b@.len(),
            i <= la,
            i <= lb,
            a@.take(i as int) =~= b@.take(i as int),
            bytes_lt(a@, b@) == bytes_lt(a@.skip(i as int), b@.skip(i as int)),
            bytes_lt(b@, a@) == bytes_lt(b@.skip(i as int), a@.skip(i as int)),
        decreases la - i,
    {
        let x = a[i];
        let y = b[i];
        if x != y {
            proof {
                assert(a@.skip(i as int)[0] == x);
                assert(b@.skip(i as int)[0] == y);
                if a@ == b@ {
                    assert(a@[i as int] == b@[i as int]);
                }
            }
            if x < y {
                return KeyOrder::Less;
            } else {
                return KeyOrder::Greater;
            }
        }
        proof {
            assert(a@.skip(i as int).drop_first() =~= a@.skip(i + 1));
            assert(b@.skip(i as int).drop_first() =~= b@.skip(i + 1));
            assert(a@.take(i + 1) =~= a@.take(i as int).push(x));
            assert(b@.take(i + 1) =~= b@.take(i as int).push(y));
        }
        i = i + 1;
    }
    if la == lb {
        proof {
            assert(a@ =~= a@.take(i as int));
            assert(b@ =~= b@.take(i as int));
        }
        KeyOrder::Equal
    } else if la < lb {
        proof {
            assert(a@.skip(i as int).len() == 0);
        }
        KeyOrder::Less
    } else {
        proof {
            assert(b@.skip(i as int).len() == 0);
        }
        KeyOrder::Greater
    }
}

/// Three-way comparison of optional strings: absent sorts first.
pub open spec fn opt_chars_order(a: Option<Seq<char>>, b: Option<Seq<char>>) -> KeyOrder {
    match (a, b) {
        (Some(x), Some(y)) => chars_order(x, y),
        (None, Some(_)) => KeyOrder::Less,
        (Some(_), None) => KeyOrder::Greater,
        (None, None) => KeyOrder::Equal,
    }
}

/// Partial comparison of numbers: none when either is NaN.
pub open spec fn number_order(a: u64, b: u64) -> Option<KeyOrder> {
    if is_nan(a) || is_nan(b) {
        None
    } else if number_rank(a) < number_rank(b) {
        Some(KeyOrder::Less)
    } else if number_rank(a) == number_rank(b) {
        Some(KeyOrder::Equal)
    } else {
        Some(KeyOrder::Greater)
    }
}

/// Partial comparison of two values: values of the same kind compare by
/// content (text by value, then language; numbers as IEEE numbers; false
/// before true; blobs bytewise); values of different kinds do not compare.
///
/// Strings compare by code point, which is also the order of their UTF-8 bytes.
pub open spec fn value_order(a: PropertyValueView, b: PropertyValueView) -> Option<KeyOrder> {
    match (a, b) {
        (PropertyValueView::Text { value: v1, language: l1 }, PropertyValueView::Text { value: v2, language: l2 }) =>
            Some(
            if chars_order(v1, v2) != KeyOrder::Equal {
                chars_order(v1, v2)
            } else {
                opt_chars_order(l1, l2)
            },
        ),
        (PropertyValueView::LocalizedTextKey(x), PropertyValueView::LocalizedTextKey(y)) => Some(chars_order(x, y)),
        (PropertyValueView::DateTime(x), PropertyValueView::DateTime(y)) => Some(chars_order(x, y)),
        (PropertyValueView::EnumValue(x), PropertyValueView::EnumValue(y)) => Some(chars_order(x, y)),
        (PropertyValueView::AttachmentReference(x), PropertyValueView::AttachmentReference(y)) => Some(chars_order(x, y)),
        (PropertyValueView::Number(x), PropertyValueView::Number(y)) => number_order(x, y),
        (PropertyValueView::Boolean(x), PropertyValueView::Boolean(y)) => Some(
            if x == y {
                KeyOrder::Equal
            } else if !x {
                KeyOrder::Less
            } else {
                KeyOrder::Greater
            },
        ),
        (PropertyValueView::Reference(x), PropertyValueView::Reference(y)) => Some(chars_order(x, y)),
        (PropertyValueView::BinaryBlob(x), PropertyValueView::BinaryBlob(y)) => Some(bytes_order(x, y)),
        _ => None,
    }
}

/// Swapping the arguments of a value comparison reverses its outcome.
pub proof fn lemma_value_order_antisymmetric(a: PropertyValueView, b: PropertyValueView)
    ensures
        value_order(b, a) is Some == value_order(a, b) is Some,
        value_order(a, b) is Some ==> value_order(b, a).unwrap() == reversed(value_order(a, b).unwrap()),
{
    match (a, b) {
        (PropertyValueView::Text { value: v1, language: l1 }, PropertyValueView::Text { value: v2, language: l2 }) => {
            lemma_chars_order_antisymmetric(v1, v2);
            match (l1, l2) {
                (Some(x), Some(y)) => lemma_chars_order_antisymmetric(x, y),
                _ => {},
            }
        },
        (PropertyValueView::LocalizedTextKey(x), PropertyValueView::LocalizedTextKey(y)) => lemma_chars_order_antisymmetric(x, y),
        (PropertyValueView::DateTime(x), PropertyValueView::DateTime(y)) => lemma_chars_order_antisymmetric(x, y),
        (PropertyValueView::EnumValue(x), PropertyValueView::EnumValue(y)) => lemma_chars_order_antisymmetric(x, y),
        (PropertyValueView::AttachmentReference(x), PropertyValueView::AttachmentReference(y)) =>
            lemma_chars_order_antisymmetric(x, y),
        (PropertyValueView::Reference(x), PropertyValueView::Reference(y)) => lemma_chars_order_antisymmetric(x, y),
        (PropertyValueView::BinaryBlob(x), PropertyValueView::BinaryBlob(y)) => lemma_bytes_lt_trichotomy(x, y),
        _ => {},
    }
}

fn compare_opt_text(a: &Option<String>, b: &Option<String>) -> (r: KeyOrder)
    ensures
        r == opt_chars_order(crate::contracts::opt_view(*a), crate::contracts::opt_view(*b)),
{
    match (a, b) {
        (Some(x), Some(y)) => compare_text(x.as_str(), y.as_str()),
        (None, Some(_)) => KeyOrder::Less,
        (Some(_), None) => KeyOrder::Greater,
        (None, None) => KeyOrder::Equal,
    }
}

fn compare_numbers(a: u64, b: u64) -> (r: Option<KeyOrder>)
    ensures
        r == number_order(a, b),
{
    if number_is_nan(a) || number_is_nan(b) {
        None
    } else if crate::numbers::number_less(a, b) {
        Some(KeyOrder::Less)
    } else if crate::numbers::number_equal(a, b) {
        Some(KeyOrder::Equal)
    } else {
        Some(KeyOrder::Greater)
    }
}

/// Returns the partial comparison of two values.
pub fn compare_property_values(left: &PropertyValue, right: &PropertyValue) -> (r: Option<KeyOrder>)
    ensures
        r == value_order(left@, right@),
{
    match (left, right) {
        (PropertyValue::Text { value: v1, language: l1 }, PropertyValue::Text { value: v2, language: l2 }) => {
            let first = compare_text(v1.as_str(), v2.as_str());
            match first {
                KeyOrder::Equal => Some(compare_opt_text(l1, l2)),
                _ => Some(first),
            }
        },
        (PropertyValue::LocalizedTextKey(x), PropertyValue::LocalizedTextKey(y)) => Some(compare_text(x.as_str(), y.as_str())),
        (PropertyValue::DateTime(x), PropertyValue::DateTime(y)) => Some(compare_text(x.as_str(), y.as_str())),
        (PropertyValue::EnumValue(x), PropertyValue::EnumValue(y)) => Some(compare_text(x.as_str(), y.as_str())),
        (PropertyValue::AttachmentReference(x), PropertyValue::AttachmentReference(y)) => Some(
            compare_text(x.as_str(), y.as_str()),
        ),
        (PropertyValue::Number(x), PropertyValue::Number(y)) => compare_numbers(*x, *y),
        (PropertyValue::Boolean(x), PropertyValue::Boolean(y)) => Some(
            if *x == *y {
                KeyOrder::Equal
            } else if !*x {
                KeyOrder::Less
            } else {
                KeyOrder::Greater
            },
        ),
        (PropertyValue::Reference(x), PropertyValue::Reference(y)) => Some(compare_text(x.as_str(), y.as_str())),
        (PropertyValue::BinaryBlob(x), PropertyValue::BinaryBlob(y)) => Some(compare_bytes(x, y)),
        _ => None,
    }
}

/// The comma-separated decimal rendering of bytes.
pub open spec fn bytes_csv(b: Seq<u8>) -> Seq<char>
    decreases b.len(),
{
    if b.len() == 0 {
        Seq::empty()
    } else if b.len() == 1 {
        decimal(b[0] as nat)
    } else {
        bytes_csv(b.drop_last()).push(',') + decimal(b.last() as nat)
    }
}

/// The canonical token of a value: its kind and its length-prefixed content.
pub open spec fn value_token(v: PropertyValueView) -> Seq<char> {
    match v {
        PropertyValueView::Text { value, language } => "text:"@ + length_prefixed(value) + ":"@ + match language {
            Some(l) => length_prefixed(l),
            None => "none"@,
        },
        PropertyValueView::LocalizedTextKey(x) => "localized-text-key:"@ + length_prefixed(x),
        PropertyValueView::Number(bits) => "number:"@ + decimal(bits as nat),
        PropertyValueView::Boolean(b) => "boolean:"@ + if b {
            "true"@
        } else {
            "false"@
        },
        PropertyValueView::DateTime(x) => "datetime:"@ + length_prefixed(x),
        PropertyValueView::EnumValue(x) => "enum:"@ + length_prefixed(x),
        PropertyValueView::Reference(x) => "reference:"@ + length_prefixed(x),
        PropertyValueView::AttachmentReference(x) => "attachment-reference:"@ + length_prefixed(x),
        PropertyValueView::BinaryBlob(b) => "binary:"@ + decimal(b.len()) + ":"@ + bytes_csv(b),
    }
}

fn append_bytes_csv(out: &mut String, bytes: &Vec<u8>)
    ensures
        final(out)@ == old(out)@ + bytes_csv(bytes@),
{
    let ghost start = out@;
    let n = bytes.len();
    let mut i: usize = 0;
    while i < n
        invariant
            n == bytes@.len(),
            i <= n,
            out@ == start + bytes_csv(bytes@.take(i as int)),
        decreases n - i,
    {
        let ghost prefix = bytes@.take(i as int);
        if i > 0 {
            push_char(out, ',');
        }
        append_decimal(out, bytes[i] as u64);
        proof {
            let next = bytes@.take(i + 1);
            assert(next.drop_last() =~= prefix);
            assert(next.last() == bytes@[i as int]);
            if i == 0 {
                assert(prefix =~= Seq::<u8>::empty());
                assert(bytes_csv(prefix) =~= Seq::<char>::empty());
            }
        }
        i = i + 1;
        assert(out@ =~= start + bytes_csv(bytes@.take(i as int)));
    }
    assert(bytes@.take(n as int) =~= bytes@);
}

/// Returns the canonical token of a value.
pub fn property_value_token(value: &PropertyValue) -> (r: String)
    ensures
        r@ == value_token(value@),
{
    let ghost v = value@;
    let mut s = String::new();
    match value {
        PropertyValue::Text { value, language } => {
            s.append("text:");
            append_length_prefixed(&mut s, value.as_str());
            s.append(":");
            match language {
                Some(l) => append_length_prefixed(&mut s, l.as_str()),
                None => s.append("none"),
            }
        },
        PropertyValue::LocalizedTextKey(x) => {
            s.append("localized-text-key:");
            append_length_prefixed(&mut s, x.as_str());
        },
        PropertyValue::Number(bits) => {
            s.append("number:");
            append_decimal(&mut s, *bits);
        },
        PropertyValue::Boolean(b) => {
            s.append("boolean:");
            if *b {
                s.append("true");
            } else {
                s.append("false");
            }
        },
        PropertyValue::DateTime(x) => {
            s.append("datetime:");
            append_length_prefixed(&mut s, x.as_str());
        },
        PropertyValue::EnumValue(x) => {
            s.append("enum:");
            append_length_prefixed(&mut s, x.as_str());
        },
        PropertyValue::Reference(x) => {
            s.append("reference:");
            append_length_prefixed(&mut s, x.as_str());
        },
        PropertyValue::AttachmentReference(x) => {
            s.append("attachment-reference:");
            append_length_prefixed(&mut s, x.as_str());
        },
        PropertyValue::BinaryBlob(b) => {
            s.append("binary:");
            append_decimal(&mut s, b.len() as u64);
            s.append(":");
            append_bytes_csv(&mut s, b);
        },
    }
    assert(s@ =~= value_token(v));
    s
}

/// Total comparison of optional values: absent sorts first, comparable values
/// by content, other pairs by their canonical tokens.
pub open spec fn opt_value_order(a: Option<PropertyValueView>, b: Option<PropertyValueView>) -> KeyOrder {
    match (a, b) {
        (Some(x), Some(y)) => match value_order(x, y) {
            Some(o) => o,
            None => chars_order(value_token(x), value_token(y)),
        },
        (None, Some(_)) => KeyOrder::Less,
        (Some(_), None) => KeyOrder::Greater,
        (None, None) => KeyOrder::Equal,
    }
}

/// Swapping the arguments of an optional-value comparison reverses its outcome.
pub proof fn lemma_opt_value_order_antisymmetric(a: Option<PropertyValueView>, b: Option<PropertyValueView>)
    ensures
        opt_value_order(b, a) == reversed(opt_value_order(a, b)),
{
    match (a, b) {
        (Some(x), Some(y)) => {
            lemma_value_order_antisymmetric(x, y);
            lemma_chars_order_antisymmetric(value_token(x), value_token(y));
        },
        _ => {},
    }
}

/// Returns the total comparison of two optional values.
pub fn compare_optional_property_values(left: Option<&PropertyValue>, right: Option<&PropertyValue>) -> (r: KeyOrder)
    ensures
        r == opt_value_order(
            match left {
                Some(v) => Some(v@),
                None => None,
            },
            match right {
                Some(v) => Some(v@),
                None => None,
            },
        ),
{
    match (left, right) {
        (Some(l), Some(r)) => match compare_property_values(l, r) {
            Some(o) => o,
            None => {
                let tl = property_value_token(l);
                let tr = property_value_token(r);
                compare_text(tl.as_str(), tr.as_str())
            },
        },
        (None, Some(_)) => KeyOrder::Less,
        (Some(_), None) => KeyOrder::Greater,
        (None, None) => KeyOrder::Equal,
    }
}

/// Three-way lexicographic comparison of segment lists.
pub open spec fn segments_order(a: Seq<Seq<char>>, b: Seq<Seq<char>>) -> KeyOrder
    decreases a.len(),
{
    if a.len() == 0 {
        if b.len() == 0 {
            KeyOrder::Equal
        } else {
            KeyOrder::Less
        }
    } else if b.len() == 0 {
        KeyOrder::Greater
    } else if chars_order(a[0], b[0]) != KeyOrder::Equal {
        chars_order(a[0], b[0])
    } else {
        segments_order(a.drop_first(), b.drop_first())
    }
}

/// Swapping the arguments of a segment comparison reverses its outcome.
pub proof fn lemma_segments_order_antisymmetric(a: Seq<Seq<char>>, b: Seq<Seq<char>>)
    ensures
        segments_order(b, a) == reversed(segments_order(a, b)),
    decreases a.len(),
{
    if a.len() > 0 && b.len() > 0 {
        lemma_chars_order_antisymmetric(a[0], b[0]);
        lemma_segments_order_antisymmetric(a.drop_first(), b.drop_first());
    }
}

/// Returns the comparison of two segment lists.
pub fn compare_segments(a: &Vec<String>, b: &Vec<String>) -> (r: KeyOrder)
    ensures
        r == segments_order(crate::query_types::strings_view(a@), crate::query_types::strings_view(b@)),
{
    let ghost sa = crate::query_types::strings_view(a@);
    let ghost sb = crate::query_types::strings_view(b@);
    let la = a.len();
    let lb = b.len();
    let mut i: usize = 0;
    proof {
        assert(sa.skip(0) =~= sa);
        assert(sb.skip(0) =~= sb);
    }
    while i < la && i < lb
        invariant
            sa == crate::query_types::strings_view(a@),
            sb == crate::query_types::strings_view(b@),
            la == a@.len(),
            lb == b@.len(),
            i <= la,
            i <= lb,
            segments_order(sa, sb) == segments_order(sa.skip(i as int), sb.skip(i as int)),
        decreases la - i,
    {
        let o = compare_text(a[i].as_str(), b[i].as_str());
        proof {
            assert(sa.skip(i as int)[0] == a@[i as int]@);
            assert(sb.skip(i as int)[0] == b@[i as int]@);
        }
        match o {
            KeyOrder::Equal => {},
            _ => {
                return o;
            },
        }
        proof {
            assert(sa.skip(i as int).drop_first() =~= sa.skip(i + 1));
            assert(sb.skip(i as int).drop_first() =~= sb.skip(i + 1));
        }
        i = i + 1;
    }
    if la == lb {
        KeyOrder::Equal
    } else if la < lb {
        KeyOrder::Less
    } else {
        KeyOrder::Greater
    }
}

} // verus!
