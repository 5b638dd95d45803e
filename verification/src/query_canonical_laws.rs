//! The canonical query encoding is unambiguous: equal encodings come only
//! from equal query semantics.
use vstd::prelude::*;
use vstd::utf8::{encode_utf8, decode_utf8, encode_utf8_decode_utf8, is_ascii_chars, is_ascii_chars_encode_utf8};
use crate::collections::{strictly_sorted, OrderedKey};
use crate::contracts::PropertyValueView;
use crate::query_canonical::{
    aggregation_items_bytes, aggregations_bytes, direction_label, function_label, group_bytes,
    optional_predicate_bytes, optional_text, optional_value, policy_label, predicate_bytes, predicates_bytes,
    presentation_label, projection_bytes, query_bytes, sort_bytes, sort_keys_bytes, temporal_bytes, token_of,
    text_token, text_tokens, traversal_bytes, traversal_label, value_bytes,
};
use crate::query_types::{
    AggregationFunction, AggregationSpecView, PartialResultPolicy, PredicateView, PresentationType, QueryDefinition,
    QueryDefinitionView, SortDirection, TemporalScopeView, TraversalDirection, TraversalSpecView,
};
use crate::text::{chars_lt, decimal, digit_char};

verus! {

proof fn lemma_digit_char_injective(a: nat, b: nat)
    requires
        a < 10,
        b < 10,
        digit_char(a) == digit_char(b),
    ensures
        a == b,
{
}

/// A decimal rendering is a non-empty run of the digits `0` to `9`.
pub proof fn lemma_decimal_digits(n: nat)
    ensures
        decimal(n).len() >= 1,
        forall|i: int| 0 <= i < decimal(n).len() ==> '0' <= #[trigger] decimal(n)[i] <= '9',
    decreases n,
{
    if n >= 10 {
        lemma_decimal_digits(n / 10);
    }
}

/// Different numbers have different decimal renderings.
pub proof fn lemma_decimal_injective(n: nat, m: nat)
    requires
        decimal(n) == decimal(m),
    ensures
        n == m,
    decreases n,
{
    if n < 10 && m < 10 {
        assert(decimal(n)[0] == digit_char(n));
        assert(decimal(m)[0] == digit_char(m));
        lemma_digit_char_injective(n, m);
    } else if n < 10 {
        lemma_decimal_digits(m / 10);
        assert(decimal(m).len() >= 2);
    } else if m < 10 {
        lemma_decimal_digits(n / 10);
        assert(decimal(n).len() >= 2);
    } else {
        assert(decimal(n).last() == digit_char(n % 10));
        assert(decimal(m).last() == digit_char(m % 10));
        lemma_digit_char_injective(n % 10, m % 10);
        assert(decimal(n).drop_last() =~= decimal(n / 10));
        assert(decimal(m).drop_last() =~= decimal(m / 10));
        lemma_decimal_injective(n / 10, m / 10);
    }
}

proof fn lemma_digits_bytes(n: nat)
    ensures
        encode_utf8(decimal(n)).len() == decimal(n).len(),
        encode_utf8(decimal(n)).len() >= 1,
        forall|i: int| 0 <= i < encode_utf8(decimal(n)).len() ==> 48 <= #[trigger] encode_utf8(decimal(n))[i] <= 57,
{
    lemma_decimal_digits(n);
    let d = decimal(n);
    assert(is_ascii_chars(d));
    is_ascii_chars_encode_utf8(d);
    assert forall|i: int| 0 <= i < encode_utf8(d).len() implies 48 <= #[trigger] encode_utf8(d)[i] <= 57 by {
        assert('0' <= d[i] <= '9');
        assert(d[i] as u8 == encode_utf8(d)[i]);
        assert(48 <= (d[i] as u8) <= 57) by {
            vstd::utf8::char_u32_cast(d[i], d[i] as u32);
        }
    }
}

/// A token is never empty.
pub proof fn lemma_token_nonempty(b: Seq<u8>)
    ensures
        token_of(b).len() > 0,
{
}

/// Tokens are prefix-free: a sequence that starts with one token starts with
/// no other, and what follows is determined.
#[verifier::spinoff_prover]
pub proof fn lemma_token_prefix(a: Seq<u8>, b: Seq<u8>, x: Seq<u8>, y: Seq<u8>)
    requires
        token_of(a) + x == token_of(b) + y,
    ensures
        a == b,
        x == y,
{
    let da = encode_utf8(decimal(a.len()));
    let db = encode_utf8(decimal(b.len()));
    lemma_digits_bytes(a.len());
    lemma_digits_bytes(b.len());
    let s = token_of(a) + x;
    assert(s[da.len() as int] == 58u8);
    assert(s == token_of(b) + y);
    assert(s[db.len() as int] == 58u8);
    if da.len() < db.len() {
        assert(s[da.len() as int] == db[da.len() as int]);
    } else if db.len() < da.len() {
        assert(s[db.len() as int] == da[db.len() as int]);
    }
    assert(da.len() == db.len());
    assert(s =~= da + (seq![58u8] + a + seq![59u8] + x));
    assert(s =~= db + (seq![58u8] + b + seq![59u8] + y));
    assert(da =~= s.take(da.len() as int));
    assert(db =~= s.take(db.len() as int));
    encode_utf8_decode_utf8(decimal(a.len()));
    encode_utf8_decode_utf8(decimal(b.len()));
    lemma_decimal_injective(a.len(), b.len());
    let start: int = da.len() as int + 1;
    assert(a =~= s.subrange(start, start + a.len()));
    assert(b =~= s.subrange(start, start + b.len()));
    assert(x =~= s.skip(token_of(a).len() as int));
    assert(y =~= s.skip(token_of(b).len() as int));
}

/// Text tokens are prefix-free, and name their text.
pub proof fn lemma_text_prefix(a: Seq<char>, b: Seq<char>, x: Seq<u8>, y: Seq<u8>)
    requires
        text_token(a) + x == text_token(b) + y,
    ensures
        a == b,
        x == y,
{
    reveal(text_token);
    lemma_token_prefix(encode_utf8(a), encode_utf8(b), x, y);
    encode_utf8_decode_utf8(a);
    encode_utf8_decode_utf8(b);
}

/// A text token is never empty.
pub proof fn lemma_text_nonempty(a: Seq<char>)
    ensures
        text_token(a).len() > 0,
{
    reveal(text_token);
}

/// The tokens of texts, read from the front.
pub proof fn lemma_text_tokens_front(s: Seq<Seq<char>>)
    requires
        s.len() > 0,
    ensures
        text_tokens(s) == text_token(s[0]) + text_tokens(s.drop_first()),
    decreases s.len(),
{
    if s.len() == 1 {
        assert(s.drop_last() =~= Seq::<Seq<char>>::empty());
        assert(s.drop_first() =~= Seq::<Seq<char>>::empty());
        assert(text_tokens(s) =~= text_token(s[0]) + text_tokens(s.drop_first()));
    } else {
        lemma_text_tokens_front(s.drop_last());
        assert(s.drop_last().drop_first() =~= s.drop_first().drop_last());
        assert(s.drop_first().last() == s.last());
        assert(text_tokens(s) =~= text_token(s[0]) + text_tokens(s.drop_first()));
    }
}

/// Two labels read equal only if they are the same label.
proof fn lemma_some_none()
    ensures
        "some"@ != "none"@,
{
    reveal_strlit("some");
    reveal_strlit("none");
    assert("some"@[0] != "none"@[0]);
}

/// An optional text is read back from its encoding.
pub proof fn lemma_optional_text_prefix(a: Option<Seq<char>>, b: Option<Seq<char>>, x: Seq<u8>, y: Seq<u8>)
    requires
        optional_text(a) + x == optional_text(b) + y,
    ensures
        a == b,
        x == y,
{
    lemma_some_none();
    let la = if a is Some { "some"@ } else { "none"@ };
    let lb = if b is Some { "some"@ } else { "none"@ };
    let pa = match a { Some(t) => text_token(t), None => Seq::empty() };
    let pb = match b { Some(t) => text_token(t), None => Seq::empty() };
    assert(optional_text(a) + x =~= text_token(la) + (pa + x));
    assert(optional_text(b) + y =~= text_token(lb) + (pb + y));
    lemma_text_prefix(la, lb, pa + x, pb + y);
    match (a, b) {
        (Some(ta), Some(tb)) => {
            lemma_text_prefix(ta, tb, x, y);
        },
        (None, None) => {
            assert(x =~= pa + x);
            assert(y =~= pb + y);
        },
        _ => {},
    }
}

/// The label that opens the encoding of a property value.
pub open spec fn value_label(v: PropertyValueView) -> Seq<char> {
    match v {
        PropertyValueView::Text { .. } => "text"@,
        PropertyValueView::LocalizedTextKey(_) => "localized-text-key"@,
        PropertyValueView::Number(_) => "number"@,
        PropertyValueView::Boolean(_) => "boolean"@,
        PropertyValueView::DateTime(_) => "datetime"@,
        PropertyValueView::EnumValue(_) => "enum"@,
        PropertyValueView::Reference(_) => "reference"@,
        PropertyValueView::AttachmentReference(_) => "attachment-reference"@,
        PropertyValueView::BinaryBlob(_) => "binary"@,
    }
}

/// What follows the label in the encoding of a property value.
pub open spec fn value_payload(v: PropertyValueView) -> Seq<u8> {
    match v {
        PropertyValueView::Text { value, language } => text_token(value) + optional_text(language),
        PropertyValueView::LocalizedTextKey(s) => text_token(s),
        PropertyValueView::Number(bits) => text_token(decimal(bits as nat)),
        PropertyValueView::Boolean(b) => text_token(
            if b {
                "true"@
            } else {
                "false"@
            },
        ),
        PropertyValueView::DateTime(s) => text_token(s),
        PropertyValueView::EnumValue(s) => text_token(s),
        PropertyValueView::Reference(s) => text_token(s),
        PropertyValueView::AttachmentReference(s) => text_token(s),
        PropertyValueView::BinaryBlob(b) => token_of(b),
    }
}

proof fn lemma_value_labels_distinct(v: PropertyValueView, w: PropertyValueView)
    requires
        value_label(v) == value_label(w),
    ensures
        (v is Text) == (w is Text),
        (v is LocalizedTextKey) == (w is LocalizedTextKey),
        (v is Number) == (w is Number),
        (v is Boolean) == (w is Boolean),
        (v is DateTime) == (w is DateTime),
        (v is EnumValue) == (w is EnumValue),
        (v is Reference) == (w is Reference),
        (v is AttachmentReference) == (w is AttachmentReference),
        (v is BinaryBlob) == (w is BinaryBlob),
{
    reveal_strlit("text");
    reveal_strlit("localized-text-key");
    reveal_strlit("number");
    reveal_strlit("boolean");
    reveal_strlit("datetime");
    reveal_strlit("enum");
    reveal_strlit("reference");
    reveal_strlit("attachment-reference");
    reveal_strlit("binary");
    let a = value_label(v);
    let b = value_label(w);
    assert(a.len() == b.len());
    assert(a[0] == b[0]);
    if a.len() > 1 {
        assert(a[1] == b[1]);
    }
}

/// A property value is read back from its encoding.
pub proof fn lemma_value_prefix(v: PropertyValueView, w: PropertyValueView, x: Seq<u8>, y: Seq<u8>)
    requires
        value_bytes(v) + x == value_bytes(w) + y,
    ensures
        v == w,
        x == y,
{
    assert(value_bytes(v) + x =~= text_token(value_label(v)) + (value_payload(v) + x));
    assert(value_bytes(w) + y =~= text_token(value_label(w)) + (value_payload(w) + y));
    lemma_text_prefix(value_label(v), value_label(w), value_payload(v) + x, value_payload(w) + y);
    lemma_value_labels_distinct(v, w);
    match (v, w) {
        (PropertyValueView::Text { value: a, language: la }, PropertyValueView::Text { value: b, language: lb }) => {
            assert(value_payload(v) + x =~= text_token(a) + (optional_text(la) + x));
            assert(value_payload(w) + y =~= text_token(b) + (optional_text(lb) + y));
            lemma_text_prefix(a, b, optional_text(la) + x, optional_text(lb) + y);
            lemma_optional_text_prefix(la, lb, x, y);
        },
        (PropertyValueView::LocalizedTextKey(a), PropertyValueView::LocalizedTextKey(b)) => {
            lemma_text_prefix(a, b, x, y);
        },
        (PropertyValueView::Number(a), PropertyValueView::Number(b)) => {
            lemma_text_prefix(decimal(a as nat), decimal(b as nat), x, y);
            lemma_decimal_injective(a as nat, b as nat);
        },
        (PropertyValueView::Boolean(a), PropertyValueView::Boolean(b)) => {
            let ta = if a { "true"@ } else { "false"@ };
            let tb = if b { "true"@ } else { "false"@ };
            lemma_text_prefix(ta, tb, x, y);
            reveal_strlit("true");
            reveal_strlit("false");
            assert(ta.len() == tb.len());
        },
        (PropertyValueView::DateTime(a), PropertyValueView::DateTime(b)) => {
            lemma_text_prefix(a, b, x, y);
        },
        (PropertyValueView::EnumValue(a), PropertyValueView::EnumValue(b)) => {
            lemma_text_prefix(a, b, x, y);
        },
        (PropertyValueView::Reference(a), PropertyValueView::Reference(b)) => {
            lemma_text_prefix(a, b, x, y);
        },
        (PropertyValueView::AttachmentReference(a), PropertyValueView::AttachmentReference(b)) => {
            lemma_text_prefix(a, b, x, y);
        },
        (PropertyValueView::BinaryBlob(a), PropertyValueView::BinaryBlob(b)) => {
            lemma_token_prefix(a, b, x, y);
        },
        _ => {},
    }
}

/// An optional property value is read back from its encoding.
pub proof fn lemma_optional_value_prefix(
    a: Option<PropertyValueView>,
    b: Option<PropertyValueView>,
    x: Seq<u8>,
    y: Seq<u8>,
)
    requires
        optional_value(a) + x == optional_value(b) + y,
    ensures
        a == b,
        x == y,
{
    lemma_some_none();
    let la = if a is Some { "some"@ } else { "none"@ };
    let lb = if b is Some { "some"@ } else { "none"@ };
    let pa = match a { Some(t) => value_bytes(t), None => Seq::empty() };
    let pb = match b { Some(t) => value_bytes(t), None => Seq::empty() };
    assert(optional_value(a) + x =~= text_token(la) + (pa + x));
    assert(optional_value(b) + y =~= text_token(lb) + (pb + y));
    lemma_text_prefix(la, lb, pa + x, pb + y);
    match (a, b) {
        (Some(ta), Some(tb)) => {
            lemma_value_prefix(ta, tb, x, y);
        },
        (None, None) => {
            assert(x =~= pa + x);
            assert(y =~= pb + y);
        },
        _ => {},
    }
}

/// The label that opens the encoding of a predicate.
pub open spec fn predicate_label(p: PredicateView) -> Seq<char> {
    match p {
        PredicateView::AlwaysTrue => "always-true"@,
        PredicateView::Equals { .. } => "equals"@,
        PredicateView::Exists { .. } => "exists"@,
        PredicateView::Range { .. } => "range"@,
        PredicateView::And(_) => "and"@,
        PredicateView::Or(_) => "or"@,
        PredicateView::Not(_) => "not"@,
    }
}

proof fn lemma_predicate_labels_distinct(p: PredicateView, q: PredicateView)
    requires
        predicate_label(p) == predicate_label(q),
    ensures
        (p is AlwaysTrue) == (q is AlwaysTrue),
        (p is Equals) == (q is Equals),
        (p is Exists) == (q is Exists),
        (p is Range) == (q is Range),
        (p is And) == (q is And),
        (p is Or) == (q is Or),
        (p is Not) == (q is Not),
{
    reveal_strlit("always-true");
    reveal_strlit("equals");
    reveal_strlit("exists");
    reveal_strlit("range");
    reveal_strlit("and");
    reveal_strlit("or");
    reveal_strlit("not");
    let a = predicate_label(p);
    let b = predicate_label(q);
    assert(a.len() == b.len());
    assert(a[0] == b[0]);
    assert(a[1] == b[1]);
}

/// The encodings of several predicates, read from the front.
pub proof fn lemma_predicates_front(cs: Seq<PredicateView>)
    requires
        cs.len() > 0,
    ensures
        predicates_bytes(cs) == predicate_bytes(cs[0]) + predicates_bytes(cs.drop_first()),
    decreases cs.len(),
{
    if cs.len() == 1 {
        assert(cs.drop_last() =~= Seq::<PredicateView>::empty());
        assert(cs.drop_first() =~= Seq::<PredicateView>::empty());
        assert(predicates_bytes(cs) =~= predicate_bytes(cs[0]) + predicates_bytes(cs.drop_first()));
    } else {
        lemma_predicates_front(cs.drop_last());
        assert(cs.drop_last().drop_first() =~= cs.drop_first().drop_last());
        assert(cs.drop_first().last() == cs.last());
        assert(predicates_bytes(cs) =~= predicate_bytes(cs[0]) + predicates_bytes(cs.drop_first()));
    }
}

/// What follows the label in the encoding of a predicate.
pub open spec fn predicate_payload(p: PredicateView) -> Seq<u8> {
    match p {
        PredicateView::AlwaysTrue => Seq::empty(),
        PredicateView::Equals { field, value } => text_token(field) + value_bytes(value),
        PredicateView::Exists { field } => text_token(field),
        PredicateView::Range { field, lower, upper } => text_token(field) + optional_value(lower) + optional_value(
            upper,
        ),
        PredicateView::And(children) => text_token(decimal(children.len())) + predicates_bytes(children),
        PredicateView::Or(children) => text_token(decimal(children.len())) + predicates_bytes(children),
        PredicateView::Not(child) => predicate_bytes(*child),
    }
}

proof fn lemma_predicate_split(p: PredicateView)
    ensures
        predicate_bytes(p) == text_token(predicate_label(p)) + predicate_payload(p),
{
    assert(predicate_bytes(p) =~= text_token(predicate_label(p)) + predicate_payload(p));
}

/// A predicate tree is read back from its encoding.
pub proof fn lemma_predicate_prefix(p: PredicateView, q: PredicateView, x: Seq<u8>, y: Seq<u8>)
    requires
        predicate_bytes(p) + x == predicate_bytes(q) + y,
    ensures
        p == q,
        x == y,
    decreases p, 3int,
{
    lemma_predicate_split(p);
    lemma_predicate_split(q);
    assert(predicate_bytes(p) + x =~= text_token(predicate_label(p)) + (predicate_payload(p) + x));
    assert(predicate_bytes(q) + y =~= text_token(predicate_label(q)) + (predicate_payload(q) + y));
    lemma_text_prefix(predicate_label(p), predicate_label(q), predicate_payload(p) + x, predicate_payload(q) + y);
    lemma_predicate_labels_distinct(p, q);
    lemma_predicate_payload_prefix(p, q, x, y);
}

proof fn lemma_predicate_payload_prefix(p: PredicateView, q: PredicateView, x: Seq<u8>, y: Seq<u8>)
    requires
        predicate_payload(p) + x == predicate_payload(q) + y,
        predicate_label(p) == predicate_label(q),
    ensures
        p == q,
        x == y,
    decreases p, 1int,
{
    lemma_predicate_labels_distinct(p, q);
    match (p, q) {
        (PredicateView::AlwaysTrue, PredicateView::AlwaysTrue) => {
            assert(x =~= predicate_payload(p) + x);
            assert(y =~= predicate_payload(q) + y);
        },
        (PredicateView::Equals { field: f, value: v }, PredicateView::Equals { field: g, value: w }) => {
            assert(predicate_payload(p) + x =~= text_token(f) + (value_bytes(v) + x));
            assert(predicate_payload(q) + y =~= text_token(g) + (value_bytes(w) + y));
            lemma_text_prefix(f, g, value_bytes(v) + x, value_bytes(w) + y);
            lemma_value_prefix(v, w, x, y);
        },
        (PredicateView::Exists { field: f }, PredicateView::Exists { field: g }) => {
            lemma_text_prefix(f, g, x, y);
        },
        (PredicateView::Range { field: f, lower: l1, upper: u1 }, PredicateView::Range {
            field: g,
            lower: l2,
            upper: u2,
        }) => {
            assert(predicate_payload(p) + x =~= text_token(f) + (optional_value(l1) + (optional_value(u1) + x)));
            assert(predicate_payload(q) + y =~= text_token(g) + (optional_value(l2) + (optional_value(u2) + y)));
            lemma_text_prefix(f, g, optional_value(l1) + (optional_value(u1) + x), optional_value(l2) + (
            optional_value(u2) + y));
            lemma_optional_value_prefix(l1, l2, optional_value(u1) + x, optional_value(u2) + y);
            lemma_optional_value_prefix(u1, u2, x, y);
        },
        (PredicateView::And(cs), PredicateView::And(ds)) => {
            assert(predicate_payload(p) + x =~= text_token(decimal(cs.len())) + (predicates_bytes(cs) + x));
            assert(predicate_payload(q) + y =~= text_token(decimal(ds.len())) + (predicates_bytes(ds) + y));
            lemma_text_prefix(decimal(cs.len()), decimal(ds.len()), predicates_bytes(cs) + x, predicates_bytes(ds) + y);
            lemma_decimal_injective(cs.len(), ds.len());
            lemma_predicates_prefix(cs, ds, x, y);
        },
        (PredicateView::Or(cs), PredicateView::Or(ds)) => {
            assert(predicate_payload(p) + x =~= text_token(decimal(cs.len())) + (predicates_bytes(cs) + x));
            assert(predicate_payload(q) + y =~= text_token(decimal(ds.len())) + (predicates_bytes(ds) + y));
            lemma_text_prefix(decimal(cs.len()), decimal(ds.len()), predicates_bytes(cs) + x, predicates_bytes(ds) + y);
            lemma_decimal_injective(cs.len(), ds.len());
            lemma_predicates_prefix(cs, ds, x, y);
        },
        (PredicateView::Not(c), PredicateView::Not(d)) => {
            lemma_predicate_prefix(*c, *d, x, y);
        },
        _ => {},
    }
}

/// A counted list of predicates is read back from its encoding.
pub proof fn lemma_predicates_prefix(cs: Seq<PredicateView>, ds: Seq<PredicateView>, x: Seq<u8>, y: Seq<u8>)
    requires
        cs.len() == ds.len(),
        predicates_bytes(cs) + x == predicates_bytes(ds) + y,
    ensures
        cs == ds,
        x == y,
    decreases cs, 2int,
{
    if cs.len() == 0 {
        assert(cs =~= ds);
    } else {
        lemma_predicates_front(cs);
        lemma_predicates_front(ds);
        let rc = cs.drop_first();
        let rd = ds.drop_first();
        assert(predicates_bytes(cs) + x =~= predicate_bytes(cs[0]) + (predicates_bytes(rc) + x));
        assert(predicates_bytes(ds) + y =~= predicate_bytes(ds[0]) + (predicates_bytes(rd) + y));
        assert(decreases_to!(cs => cs[0]));
        lemma_predicate_prefix(cs[0], ds[0], predicates_bytes(rc) + x, predicates_bytes(rd) + y);
        assert(decreases_to!(cs => rc));
        lemma_predicates_prefix(rc, rd, x, y);
        assert(cs =~= seq![cs[0]] + rc);
        assert(ds =~= seq![ds[0]] + rd);
    }
}

proof fn lemma_sorted_tail(f: Seq<Seq<char>>)
    requires
        f.len() > 0,
        strictly_sorted::<String>(f),
    ensures
        strictly_sorted::<String>(f.drop_first()),
{
    let r = f.drop_first();
    assert forall|i: int, j: int| 0 <= i < j < r.len() implies #[trigger] <String as OrderedKey>::view_lt(
        r[i],
        r[j],
    ) by {
        assert(<String as OrderedKey>::view_lt(f[i + 1], f[j + 1]));
    }
}

/// A decimal rendering sorts before any text that starts after `9`.
pub proof fn lemma_decimal_sorts_first(n: nat, label: Seq<char>)
    requires
        label.len() > 0,
        (label[0] as u32) > 57,
    ensures
        chars_lt(decimal(n), label),
{
    lemma_decimal_digits(n);
    let d = decimal(n);
    assert('0' <= d[0] <= '9');
    assert((d[0] as u32) <= 57) by {
        vstd::utf8::char_u32_cast(d[0], d[0] as u32);
    }
    assert(d[0] != label[0]);
}

/// A sorted list of texts followed by a label and a decimal count is read
/// back from its encoding, when every count sorts before the label: the
/// label cannot be taken for one more text of the list.
pub proof fn lemma_fields_then_count(
    f1: Seq<Seq<char>>,
    f2: Seq<Seq<char>>,
    label: Seq<char>,
    d1: Seq<char>,
    d2: Seq<char>,
    x1: Seq<u8>,
    x2: Seq<u8>,
)
    requires
        strictly_sorted::<String>(f1),
        strictly_sorted::<String>(f2),
        chars_lt(d1, label),
        chars_lt(d2, label),
        text_tokens(f1) + (text_token(label) + (text_token(d1) + x1)) == text_tokens(f2) + (text_token(label) + (
        text_token(d2) + x2)),
    ensures
        f1 == f2,
        d1 == d2,
        x1 == x2,
    decreases f1.len() + f2.len(),
{
    crate::text::lemma_chars_lt_irreflexive(label);
    if f1.len() == 0 && f2.len() == 0 {
        assert(text_tokens(f1) =~= Seq::<u8>::empty());
        assert(text_tokens(f2) =~= Seq::<u8>::empty());
        assert(text_tokens(f1) + (text_token(label) + (text_token(d1) + x1)) =~= text_token(label) + (text_token(d1) + x1));
        assert(text_tokens(f2) + (text_token(label) + (text_token(d2) + x2)) =~= text_token(label) + (text_token(d2) + x2));
        lemma_text_prefix(label, label, text_token(d1) + x1, text_token(d2) + x2);
        lemma_text_prefix(d1, d2, x1, x2);
        assert(f1 =~= f2);
    } else if f1.len() == 0 {
        lemma_fields_empty_side(f2, label, d1, d2, x1, x2);
    } else if f2.len() == 0 {
        lemma_fields_empty_side(f1, label, d2, d1, x2, x1);
    } else {
        lemma_text_tokens_front(f1);
        lemma_text_tokens_front(f2);
        let r1 = f1.drop_first();
        let r2 = f2.drop_first();
        let t1 = text_tokens(r1) + (text_token(label) + (text_token(d1) + x1));
        let t2 = text_tokens(r2) + (text_token(label) + (text_token(d2) + x2));
        assert(text_tokens(f1) + (text_token(label) + (text_token(d1) + x1)) =~= text_token(f1[0]) + t1);
        assert(text_tokens(f2) + (text_token(label) + (text_token(d2) + x2)) =~= text_token(f2[0]) + t2);
        lemma_text_prefix(f1[0], f2[0], t1, t2);
        lemma_sorted_tail(f1);
        lemma_sorted_tail(f2);
        lemma_fields_then_count(r1, r2, label, d1, d2, x1, x2);
        assert(f1 =~= seq![f1[0]] + r1);
        assert(f2 =~= seq![f2[0]] + r2);
    }
}

/// An empty list on one side matches only an empty sorted list on the other.
proof fn lemma_fields_empty_side(
    f: Seq<Seq<char>>,
    label: Seq<char>,
    d1: Seq<char>,
    d2: Seq<char>,
    x1: Seq<u8>,
    x2: Seq<u8>,
)
    requires
        strictly_sorted::<String>(f),
        chars_lt(d1, label),
        chars_lt(d2, label),
        text_token(label) + (text_token(d1) + x1) == text_tokens(f) + (text_token(label) + (text_token(d2) + x2)),
    ensures
        f.len() == 0,
{
    if f.len() == 0 {
        return;
    }
    crate::text::lemma_chars_lt_irreflexive(label);
    lemma_text_tokens_front(f);
    let r = f.drop_first();
    let t = text_tokens(r) + (text_token(label) + (text_token(d2) + x2));
    assert(text_tokens(f) + (text_token(label) + (text_token(d2) + x2)) =~= text_token(f[0]) + t);
    lemma_text_prefix(label, f[0], text_token(d1) + x1, t);
    if r.len() == 0 {
        assert(text_tokens(r) =~= Seq::<u8>::empty());
        assert(t =~= text_token(label) + (text_token(d2) + x2));
        lemma_text_prefix(d1, label, x1, text_token(d2) + x2);
    } else {
        lemma_text_tokens_front(r);
        let u = text_tokens(r.drop_first()) + (text_token(label) + (text_token(d2) + x2));
        assert(t =~= text_token(r[0]) + u);
        lemma_text_prefix(d1, r[0], x1, u);
        assert(<String as OrderedKey>::view_lt(f[0], f[1]));
        crate::text::lemma_chars_lt_transitive(label, d1, label);
    }
}

/// A list of texts followed by exactly two texts, at the very end, is read
/// back from its encoding.
pub proof fn lemma_fields_then_two(
    f1: Seq<Seq<char>>,
    f2: Seq<Seq<char>>,
    a1: Seq<char>,
    b1: Seq<char>,
    a2: Seq<char>,
    b2: Seq<char>,
)
    requires
        text_tokens(f1) + (text_token(a1) + text_token(b1)) == text_tokens(f2) + (text_token(a2) + text_token(b2)),
    ensures
        f1 == f2,
        a1 == a2,
        b1 == b2,
    decreases f1.len() + f2.len(),
{
    lemma_text_nonempty(a1);
    lemma_text_nonempty(a2);
    lemma_text_nonempty(b1);
    lemma_text_nonempty(b2);
    if f1.len() == 0 && f2.len() == 0 {
        assert(text_tokens(f1) =~= Seq::<u8>::empty());
        assert(text_tokens(f2) =~= Seq::<u8>::empty());
        assert(text_tokens(f1) + (text_token(a1) + text_token(b1)) =~= text_token(a1) + text_token(b1));
        assert(text_tokens(f2) + (text_token(a2) + text_token(b2)) =~= text_token(a2) + text_token(b2));
        lemma_text_prefix(a1, a2, text_token(b1), text_token(b2));
        assert(text_token(b1) =~= text_token(b1) + Seq::<u8>::empty());
        assert(text_token(b2) =~= text_token(b2) + Seq::<u8>::empty());
        lemma_text_prefix(b1, b2, Seq::<u8>::empty(), Seq::<u8>::empty());
        assert(f1 =~= f2);
    } else if f1.len() == 0 {
        lemma_two_empty_side(f2, a1, b1, a2, b2);
    } else if f2.len() == 0 {
        lemma_two_empty_side(f1, a2, b2, a1, b1);
    } else {
        lemma_text_tokens_front(f1);
        lemma_text_tokens_front(f2);
        let r1 = f1.drop_first();
        let r2 = f2.drop_first();
        let t1 = text_tokens(r1) + (text_token(a1) + text_token(b1));
        let t2 = text_tokens(r2) + (text_token(a2) + text_token(b2));
        assert(text_tokens(f1) + (text_token(a1) + text_token(b1)) =~= text_token(f1[0]) + t1);
        assert(text_tokens(f2) + (text_token(a2) + text_token(b2)) =~= text_token(f2[0]) + t2);
        lemma_text_prefix(f1[0], f2[0], t1, t2);
        lemma_fields_then_two(r1, r2, a1, b1, a2, b2);
        assert(f1 =~= seq![f1[0]] + r1);
        assert(f2 =~= seq![f2[0]] + r2);
    }
}

proof fn lemma_two_empty_side(f: Seq<Seq<char>>, a1: Seq<char>, b1: Seq<char>, a2: Seq<char>, b2: Seq<char>)
    requires
        text_token(a1) + text_token(b1) == text_tokens(f) + (text_token(a2) + text_token(b2)),
    ensures
        f.len() == 0,
{
    if f.len() == 0 {
        return;
    }
    lemma_text_nonempty(a2);
    lemma_text_nonempty(b2);
    lemma_text_tokens_front(f);
    let r = f.drop_first();
    let t = text_tokens(r) + (text_token(a2) + text_token(b2));
    assert(text_tokens(f) + (text_token(a2) + text_token(b2)) =~= text_token(f[0]) + t);
    lemma_text_prefix(a1, f[0], text_token(b1), t);
    if r.len() == 0 {
        assert(text_tokens(r) =~= Seq::<u8>::empty());
        assert(text_token(b1) =~= text_token(b1) + Seq::<u8>::empty());
        assert(t =~= text_token(a2) + text_token(b2));
        lemma_text_prefix(b1, a2, Seq::<u8>::empty(), text_token(b2));
    } else {
        lemma_text_tokens_front(r);
        let u = text_tokens(r.drop_first()) + (text_token(a2) + text_token(b2));
        assert(text_token(b1) =~= text_token(b1) + Seq::<u8>::empty());
        assert(t =~= text_token(r[0]) + u);
        lemma_text_prefix(b1, r[0], Seq::<u8>::empty(), u);
    }
}

/// The label that names a temporal scope's kind.
pub open spec fn temporal_kind_label(t: TemporalScopeView) -> Seq<char> {
    match t {
        TemporalScopeView::Current => "current"@,
        TemporalScopeView::PointInTime { .. } => "point"@,
        TemporalScopeView::TimeRange { .. } => "range"@,
        TemporalScopeView::AllHistory => "all-history"@,
    }
}

/// What follows the kind label in the encoding of a temporal scope.
pub open spec fn temporal_payload(t: TemporalScopeView) -> Seq<u8> {
    match t {
        TemporalScopeView::PointInTime { at } => text_token(at),
        TemporalScopeView::TimeRange { from, to } => optional_text(from) + optional_text(to),
        _ => Seq::empty(),
    }
}

/// A temporal scope is read back from its encoding.
pub proof fn lemma_temporal_prefix(t1: TemporalScopeView, t2: TemporalScopeView, x: Seq<u8>, y: Seq<u8>)
    requires
        temporal_bytes(t1) + x == temporal_bytes(t2) + y,
    ensures
        t1 == t2,
        x == y,
{
    let k1 = temporal_kind_label(t1);
    let k2 = temporal_kind_label(t2);
    assert(temporal_bytes(t1) + x =~= text_token("temporal"@) + (text_token(k1) + (temporal_payload(t1) + x)));
    assert(temporal_bytes(t2) + y =~= text_token("temporal"@) + (text_token(k2) + (temporal_payload(t2) + y)));
    lemma_text_prefix("temporal"@, "temporal"@, text_token(k1) + (temporal_payload(t1) + x), text_token(k2) + (
    temporal_payload(t2) + y));
    lemma_text_prefix(k1, k2, temporal_payload(t1) + x, temporal_payload(t2) + y);
    reveal_strlit("current");
    reveal_strlit("point");
    reveal_strlit("range");
    reveal_strlit("all-history");
    assert(k1.len() == k2.len() && k1[0] == k2[0]);
    match (t1, t2) {
        (TemporalScopeView::PointInTime { at: a }, TemporalScopeView::PointInTime { at: b }) => {
            lemma_text_prefix(a, b, x, y);
        },
        (TemporalScopeView::TimeRange { from: f1, to: u1 }, TemporalScopeView::TimeRange { from: f2, to: u2 }) => {
            assert(temporal_payload(t1) + x =~= optional_text(f1) + (optional_text(u1) + x));
            assert(temporal_payload(t2) + y =~= optional_text(f2) + (optional_text(u2) + y));
            lemma_optional_text_prefix(f1, f2, optional_text(u1) + x, optional_text(u2) + y);
            lemma_optional_text_prefix(u1, u2, x, y);
        },
        (TemporalScopeView::Current, TemporalScopeView::Current) => {
            assert(x =~= temporal_payload(t1) + x);
            assert(y =~= temporal_payload(t2) + y);
        },
        (TemporalScopeView::AllHistory, TemporalScopeView::AllHistory) => {
            assert(x =~= temporal_payload(t1) + x);
            assert(y =~= temporal_payload(t2) + y);
        },
        _ => {},
    }
}

/// An optional predicate is read back from its encoding.
pub proof fn lemma_optional_predicate_prefix(
    p1: Option<PredicateView>,
    p2: Option<PredicateView>,
    x: Seq<u8>,
    y: Seq<u8>,
)
    requires
        optional_predicate_bytes(p1) + x == optional_predicate_bytes(p2) + y,
    ensures
        p1 == p2,
        x == y,
{
    lemma_some_none();
    let l1 = if p1 is Some { "some"@ } else { "none"@ };
    let l2 = if p2 is Some { "some"@ } else { "none"@ };
    let b1 = match p1 { Some(p) => predicate_bytes(p), None => Seq::empty() };
    let b2 = match p2 { Some(p) => predicate_bytes(p), None => Seq::empty() };
    assert(optional_predicate_bytes(p1) + x =~= text_token("predicate"@) + (text_token(l1) + (b1 + x)));
    assert(optional_predicate_bytes(p2) + y =~= text_token("predicate"@) + (text_token(l2) + (b2 + y)));
    lemma_text_prefix("predicate"@, "predicate"@, text_token(l1) + (b1 + x), text_token(l2) + (b2 + y));
    lemma_text_prefix(l1, l2, b1 + x, b2 + y);
    match (p1, p2) {
        (Some(a), Some(b)) => {
            lemma_predicate_prefix(a, b, x, y);
        },
        (None, None) => {
            assert(x =~= b1 + x);
            assert(y =~= b2 + y);
        },
        _ => {},
    }
}

/// The sort keys, read from the front.
proof fn lemma_sort_keys_front(s: Seq<(Seq<char>, SortDirection)>)
    requires
        s.len() > 0,
    ensures
        sort_keys_bytes(s) == text_token(s[0].0) + text_token(direction_label(s[0].1)) + sort_keys_bytes(
            s.drop_first(),
        ),
    decreases s.len(),
{
    if s.len() == 1 {
        assert(s.drop_last() =~= Seq::<(Seq<char>, SortDirection)>::empty());
        assert(s.drop_first() =~= Seq::<(Seq<char>, SortDirection)>::empty());
    } else {
        lemma_sort_keys_front(s.drop_last());
        assert(s.drop_last().drop_first() =~= s.drop_first().drop_last());
        assert(s.drop_first().last() == s.last());
    }
    assert(sort_keys_bytes(s) =~= text_token(s[0].0) + text_token(direction_label(s[0].1)) + sort_keys_bytes(
        s.drop_first(),
    ));
}

/// Counted sort keys are read back from their encoding.
proof fn lemma_sort_keys_prefix(
    s1: Seq<(Seq<char>, SortDirection)>,
    s2: Seq<(Seq<char>, SortDirection)>,
    x: Seq<u8>,
    y: Seq<u8>,
)
    requires
        s1.len() == s2.len(),
        sort_keys_bytes(s1) + x == sort_keys_bytes(s2) + y,
    ensures
        s1 == s2,
        x == y,
    decreases s1.len(),
{
    if s1.len() == 0 {
        assert(s1 =~= s2);
        assert(x =~= sort_keys_bytes(s1) + x);
        assert(y =~= sort_keys_bytes(s2) + y);
    } else {
        lemma_sort_keys_front(s1);
        lemma_sort_keys_front(s2);
        let r1 = s1.drop_first();
        let r2 = s2.drop_first();
        let d1 = direction_label(s1[0].1);
        let d2 = direction_label(s2[0].1);
        assert(sort_keys_bytes(s1) + x =~= text_token(s1[0].0) + (text_token(d1) + (sort_keys_bytes(r1) + x)));
        assert(sort_keys_bytes(s2) + y =~= text_token(s2[0].0) + (text_token(d2) + (sort_keys_bytes(r2) + y)));
        lemma_text_prefix(s1[0].0, s2[0].0, text_token(d1) + (sort_keys_bytes(r1) + x), text_token(d2) + (
        sort_keys_bytes(r2) + y));
        lemma_text_prefix(d1, d2, sort_keys_bytes(r1) + x, sort_keys_bytes(r2) + y);
        reveal_strlit("ascending");
        reveal_strlit("descending");
        assert(d1.len() == d2.len());
        lemma_sort_keys_prefix(r1, r2, x, y);
        assert(s1 =~= seq![s1[0]] + r1);
        assert(s2 =~= seq![s2[0]] + r2);
    }
}

/// A sort is read back from its encoding.
pub proof fn lemma_sort_prefix(
    s1: Seq<(Seq<char>, SortDirection)>,
    s2: Seq<(Seq<char>, SortDirection)>,
    x: Seq<u8>,
    y: Seq<u8>,
)
    requires
        text_token(decimal(s1.len())) + (sort_keys_bytes(s1) + x) == text_token(decimal(s2.len())) + (
        sort_keys_bytes(s2) + y),
    ensures
        s1 == s2,
        x == y,
{
    lemma_text_prefix(decimal(s1.len()), decimal(s2.len()), sort_keys_bytes(s1) + x, sort_keys_bytes(s2) + y);
    lemma_decimal_injective(s1.len(), s2.len());
    lemma_sort_keys_prefix(s1, s2, x, y);
}

/// A projection followed by a sort is read back from its encoding, when the
/// selected fields are sorted.
#[verifier::spinoff_prover]
#[verifier::rlimit(40)]
pub proof fn lemma_projection_sort_prefix(
    p1: Option<Seq<Seq<char>>>,
    p2: Option<Seq<Seq<char>>>,
    s1: Seq<(Seq<char>, SortDirection)>,
    s2: Seq<(Seq<char>, SortDirection)>,
    x: Seq<u8>,
    y: Seq<u8>,
)
    requires
        p1 matches Some(f) ==> strictly_sorted::<String>(f),
        p2 matches Some(f) ==> strictly_sorted::<String>(f),
        projection_bytes(p1) + (sort_bytes(s1) + x) == projection_bytes(p2) + (sort_bytes(s2) + y),
    ensures
        p1 == p2,
        s1 == s2,
        x == y,
{
    reveal_strlit("all-fields");
    reveal_strlit("selected-fields");
    reveal_strlit("sort");
    let l1 = if p1 is Some { "selected-fields"@ } else { "all-fields"@ };
    let l2 = if p2 is Some { "selected-fields"@ } else { "all-fields"@ };
    let f1 = match p1 { Some(f) => f, None => Seq::empty() };
    let f2 = match p2 { Some(f) => f, None => Seq::empty() };
    let tail1 = text_token(decimal(s1.len())) + (sort_keys_bytes(s1) + x);
    let tail2 = text_token(decimal(s2.len())) + (sort_keys_bytes(s2) + y);
    assert(text_tokens(Seq::<Seq<char>>::empty()) =~= Seq::<u8>::empty());
    assert(projection_bytes(p1) + (sort_bytes(s1) + x) =~= text_token("projection"@) + (text_token(l1) + (
    text_tokens(f1) + (text_token("sort"@) + tail1))));
    assert(projection_bytes(p2) + (sort_bytes(s2) + y) =~= text_token("projection"@) + (text_token(l2) + (
    text_tokens(f2) + (text_token("sort"@) + tail2))));
    lemma_text_prefix("projection"@, "projection"@, text_token(l1) + (text_tokens(f1) + (text_token("sort"@) + tail1)),
    text_token(l2) + (text_tokens(f2) + (text_token("sort"@) + tail2)));
    lemma_text_prefix(l1, l2, text_tokens(f1) + (text_token("sort"@) + tail1), text_tokens(f2) + (text_token("sort"@)
        + tail2));
    assert(l1.len() == l2.len());
    assert(strictly_sorted::<String>(f1));
    assert(strictly_sorted::<String>(f2));
    lemma_decimal_sorts_first(s1.len(), "sort"@);
    lemma_decimal_sorts_first(s2.len(), "sort"@);
    lemma_fields_then_count(
        f1,
        f2,
        "sort"@,
        decimal(s1.len()),
        decimal(s2.len()),
        sort_keys_bytes(s1) + x,
        sort_keys_bytes(s2) + y,
    );
    lemma_decimal_injective(s1.len(), s2.len());
    lemma_sort_keys_prefix(s1, s2, x, y);
}

/// The aggregations, read from the front.
proof fn lemma_aggregation_items_front(s: Seq<AggregationSpecView>)
    requires
        s.len() > 0,
    ensures
        aggregation_items_bytes(s) == text_token(function_label(s[0].function)) + optional_text(s[0].field)
            + text_token(s[0].alias) + aggregation_items_bytes(s.drop_first()),
    decreases s.len(),
{
    if s.len() == 1 {
        assert(s.drop_last() =~= Seq::<AggregationSpecView>::empty());
        assert(s.drop_first() =~= Seq::<AggregationSpecView>::empty());
    } else {
        lemma_aggregation_items_front(s.drop_last());
        assert(s.drop_last().drop_first() =~= s.drop_first().drop_last());
        assert(s.drop_first().last() == s.last());
    }
    assert(aggregation_items_bytes(s) =~= text_token(function_label(s[0].function)) + optional_text(s[0].field)
        + text_token(s[0].alias) + aggregation_items_bytes(s.drop_first()));
}

proof fn lemma_function_labels_distinct(f: AggregationFunction, g: AggregationFunction)
    requires
        function_label(f) == function_label(g),
    ensures
        f == g,
{
    reveal_strlit("count");
    reveal_strlit("sum");
    reveal_strlit("average");
    reveal_strlit("min");
    reveal_strlit("max");
    reveal_strlit("distinct-count");
    let a = function_label(f);
    let b = function_label(g);
    assert(a.len() == b.len() && a[0] == b[0] && a[1] == b[1]);
}

/// The encoding of one aggregation.
pub open spec fn aggregation_item_bytes(a: AggregationSpecView) -> Seq<u8> {
    text_token(function_label(a.function)) + optional_text(a.field) + text_token(a.alias)
}

/// One aggregation is read back from its encoding.
proof fn lemma_aggregation_item_prefix(a: AggregationSpecView, b: AggregationSpecView, x: Seq<u8>, y: Seq<u8>)
    requires
        aggregation_item_bytes(a) + x == aggregation_item_bytes(b) + y,
    ensures
        a == b,
        x == y,
{
    assert(aggregation_item_bytes(a) + x =~= text_token(function_label(a.function)) + (optional_text(a.field) + (
    text_token(a.alias) + x)));
    assert(aggregation_item_bytes(b) + y =~= text_token(function_label(b.function)) + (optional_text(b.field) + (
    text_token(b.alias) + y)));
    lemma_text_prefix(function_label(a.function), function_label(b.function), optional_text(a.field) + (text_token(
        a.alias,
    ) + x), optional_text(b.field) + (text_token(b.alias) + y));
    lemma_function_labels_distinct(a.function, b.function);
    lemma_optional_text_prefix(a.field, b.field, text_token(a.alias) + x, text_token(b.alias) + y);
    lemma_text_prefix(a.alias, b.alias, x, y);
}

/// Counted aggregations are read back from their encoding.
proof fn lemma_aggregation_items_prefix(s1: Seq<AggregationSpecView>, s2: Seq<AggregationSpecView>, x: Seq<u8>, y: Seq<u8>)
    requires
        s1.len() == s2.len(),
        aggregation_items_bytes(s1) + x == aggregation_items_bytes(s2) + y,
    ensures
        s1 == s2,
        x == y,
    decreases s1.len(),
{
    if s1.len() == 0 {
        assert(s1 =~= s2);
        assert(x =~= aggregation_items_bytes(s1) + x);
        assert(y =~= aggregation_items_bytes(s2) + y);
    } else {
        lemma_aggregation_items_front(s1);
        lemma_aggregation_items_front(s2);
        let r1 = s1.drop_first();
        let r2 = s2.drop_first();
        assert(aggregation_items_bytes(s1) + x =~= aggregation_item_bytes(s1[0]) + (aggregation_items_bytes(r1) + x));
        assert(aggregation_items_bytes(s2) + y =~= aggregation_item_bytes(s2[0]) + (aggregation_items_bytes(r2) + y));
        lemma_aggregation_item_prefix(s1[0], s2[0], aggregation_items_bytes(r1) + x, aggregation_items_bytes(r2) + y);
        lemma_aggregation_items_prefix(r1, r2, x, y);
        assert(s1 =~= seq![s1[0]] + r1);
        assert(s2 =~= seq![s2[0]] + r2);
    }
}

/// A grouping followed by aggregations is read back from its encoding, when
/// the grouped fields are sorted.
#[verifier::spinoff_prover]
#[verifier::rlimit(40)]
pub proof fn lemma_group_aggregations_prefix(
    g1: Option<Seq<Seq<char>>>,
    g2: Option<Seq<Seq<char>>>,
    a1: Seq<AggregationSpecView>,
    a2: Seq<AggregationSpecView>,
    x: Seq<u8>,
    y: Seq<u8>,
)
    requires
        g1 matches Some(f) ==> strictly_sorted::<String>(f),
        g2 matches Some(f) ==> strictly_sorted::<String>(f),
        group_bytes(g1) + (aggregations_bytes(a1) + x) == group_bytes(g2) + (aggregations_bytes(a2) + y),
    ensures
        g1 == g2,
        a1 == a2,
        x == y,
{
    lemma_some_none();
    reveal_strlit("aggregations");
    let l1 = if g1 is Some { "some"@ } else { "none"@ };
    let l2 = if g2 is Some { "some"@ } else { "none"@ };
    let f1 = match g1 { Some(f) => f, None => Seq::empty() };
    let f2 = match g2 { Some(f) => f, None => Seq::empty() };
    let tail1 = text_token(decimal(a1.len())) + (aggregation_items_bytes(a1) + x);
    let tail2 = text_token(decimal(a2.len())) + (aggregation_items_bytes(a2) + y);
    assert(text_tokens(Seq::<Seq<char>>::empty()) =~= Seq::<u8>::empty());
    assert(group_bytes(g1) + (aggregations_bytes(a1) + x) =~= text_token("group"@) + (text_token(l1) + (text_tokens(f1)
        + (text_token("aggregations"@) + tail1))));
    assert(group_bytes(g2) + (aggregations_bytes(a2) + y) =~= text_token("group"@) + (text_token(l2) + (text_tokens(f2)
        + (text_token("aggregations"@) + tail2))));
    lemma_text_prefix("group"@, "group"@, text_token(l1) + (text_tokens(f1) + (text_token("aggregations"@) + tail1)),
    text_token(l2) + (text_tokens(f2) + (text_token("aggregations"@) + tail2)));
    lemma_text_prefix(l1, l2, text_tokens(f1) + (text_token("aggregations"@) + tail1), text_tokens(f2) + (text_token(
        "aggregations"@,
    ) + tail2));
    assert(strictly_sorted::<String>(f1));
    assert(strictly_sorted::<String>(f2));
    lemma_decimal_sorts_first(a1.len(), "aggregations"@);
    lemma_decimal_sorts_first(a2.len(), "aggregations"@);
    lemma_fields_then_count(
        f1,
        f2,
        "aggregations"@,
        decimal(a1.len()),
        decimal(a2.len()),
        aggregation_items_bytes(a1) + x,
        aggregation_items_bytes(a2) + y,
    );
    lemma_decimal_injective(a1.len(), a2.len());
    lemma_aggregation_items_prefix(a1, a2, x, y);
}

proof fn lemma_policy_labels_distinct(p: PartialResultPolicy, q: PartialResultPolicy)
    requires
        policy_label(p) == policy_label(q),
    ensures
        p == q,
{
    reveal_strlit("reject-partial");
    reveal_strlit("allow-incomplete");
    assert("reject-partial"@.len() == 14);
    assert("allow-incomplete"@.len() == 16);
    match (p, q) {
        (PartialResultPolicy::RejectPartial, PartialResultPolicy::AllowIncomplete) => {
            assert(policy_label(p).len() != policy_label(q).len());
        },
        (PartialResultPolicy::AllowIncomplete, PartialResultPolicy::RejectPartial) => {
            assert(policy_label(p).len() != policy_label(q).len());
        },
        _ => {},
    }
}

proof fn lemma_presentation_labels_distinct(p: PresentationType, q: PresentationType)
    requires
        presentation_label(p) == presentation_label(q),
    ensures
        p == q,
{
    reveal_strlit("record-set");
    reveal_strlit("linked-object-view");
    reveal_strlit("timeline");
    reveal_strlit("chart-ready-series");
    reveal_strlit("matrix");
    reveal_strlit("document-reference-set");
    reveal_strlit("evidence-package");
    let a = presentation_label(p);
    let b = presentation_label(q);
    assert(a.len() == b.len() && a[0] == b[0]);
}

proof fn lemma_traversal_labels_distinct(d: TraversalDirection, e: TraversalDirection)
    requires
        traversal_label(d) == traversal_label(e),
    ensures
        d == e,
{
    reveal_strlit("outbound");
    reveal_strlit("inbound");
    reveal_strlit("both");
    assert("outbound"@.len() == 8);
    assert("inbound"@.len() == 7);
    assert("both"@.len() == 4);
    if d != e {
        assert(traversal_label(d).len() != traversal_label(e).len());
    }
}

/// A traversal followed by the partial-result policy and the presentation
/// type, at the end of a query, is read back from its encoding.
#[verifier::spinoff_prover]
#[verifier::rlimit(40)]
pub proof fn lemma_traversal_tail(
    t1: Option<TraversalSpecView>,
    t2: Option<TraversalSpecView>,
    p1: PartialResultPolicy,
    p2: PartialResultPolicy,
    r1: PresentationType,
    r2: PresentationType,
)
    requires
        traversal_bytes(t1) + (text_token(policy_label(p1)) + text_token(presentation_label(r1))) == traversal_bytes(t2)
            + (text_token(policy_label(p2)) + text_token(presentation_label(r2))),
    ensures
        t1 == t2,
        p1 == p2,
        r1 == r2,
{
    lemma_some_none();
    let end1 = text_token(policy_label(p1)) + text_token(presentation_label(r1));
    let end2 = text_token(policy_label(p2)) + text_token(presentation_label(r2));
    let l1 = if t1 is Some { "some"@ } else { "none"@ };
    let l2 = if t2 is Some { "some"@ } else { "none"@ };
    let b1 = match t1 {
        Some(t) => text_token(traversal_label(t.direction)) + (text_token(decimal(t.max_depth as nat)) + (text_tokens(
            t.relation_types,
        ) + end1)),
        None => end1,
    };
    let b2 = match t2 {
        Some(t) => text_token(traversal_label(t.direction)) + (text_token(decimal(t.max_depth as nat)) + (text_tokens(
            t.relation_types,
        ) + end2)),
        None => end2,
    };
    assert(traversal_bytes(t1) + end1 =~= text_token("traversal"@) + (text_token(l1) + b1));
    assert(traversal_bytes(t2) + end2 =~= text_token("traversal"@) + (text_token(l2) + b2));
    lemma_text_prefix("traversal"@, "traversal"@, text_token(l1) + b1, text_token(l2) + b2);
    lemma_text_prefix(l1, l2, b1, b2);
    match (t1, t2) {
        (Some(a), Some(b)) => {
            let rest1 = text_token(decimal(a.max_depth as nat)) + (text_tokens(a.relation_types) + end1);
            let rest2 = text_token(decimal(b.max_depth as nat)) + (text_tokens(b.relation_types) + end2);
            lemma_text_prefix(traversal_label(a.direction), traversal_label(b.direction), rest1, rest2);
            lemma_traversal_labels_distinct(a.direction, b.direction);
            lemma_text_prefix(decimal(a.max_depth as nat), decimal(b.max_depth as nat), text_tokens(a.relation_types)
                + end1, text_tokens(b.relation_types) + end2);
            lemma_decimal_injective(a.max_depth as nat, b.max_depth as nat);
            lemma_fields_then_two(
                a.relation_types,
                b.relation_types,
                policy_label(p1),
                presentation_label(r1),
                policy_label(p2),
                presentation_label(r2),
            );
        },
        (None, None) => {
            assert(text_tokens(Seq::<Seq<char>>::empty()) =~= Seq::<u8>::empty());
            assert(end1 =~= text_tokens(Seq::<Seq<char>>::empty()) + end1);
            assert(end2 =~= text_tokens(Seq::<Seq<char>>::empty()) + end2);
            lemma_fields_then_two(
                Seq::<Seq<char>>::empty(),
                Seq::<Seq<char>>::empty(),
                policy_label(p1),
                presentation_label(r1),
                policy_label(p2),
                presentation_label(r2),
            );
        },
        _ => {},
    }
    lemma_policy_labels_distinct(p1, p2);
    lemma_presentation_labels_distinct(r1, r2);
}

/// What follows the aggregations in a query's encoding.
pub open spec fn tail_after_aggregations(u: QueryDefinitionView) -> Seq<u8> {
    traversal_bytes(u.traversal) + (text_token(policy_label(u.partial_result_policy)) + text_token(
        presentation_label(u.presentation_type),
    ))
}

/// What follows the sort in a query's encoding.
pub open spec fn tail_after_sort(u: QueryDefinitionView) -> Seq<u8> {
    group_bytes(u.group) + (aggregations_bytes(u.aggregations) + tail_after_aggregations(u))
}

/// What follows the predicate in a query's encoding.
pub open spec fn tail_after_predicate(u: QueryDefinitionView) -> Seq<u8> {
    projection_bytes(u.projection) + (sort_bytes(u.sort) + tail_after_sort(u))
}

/// What follows the temporal scope in a query's encoding.
pub open spec fn tail_after_temporal(u: QueryDefinitionView) -> Seq<u8> {
    optional_predicate_bytes(u.predicate) + tail_after_predicate(u)
}

proof fn lemma_concat_nested(
    t1: Seq<u8>,
    t2: Seq<u8>,
    t3: Seq<u8>,
    t4: Seq<u8>,
    t5: Seq<u8>,
    t6: Seq<u8>,
    t7: Seq<u8>,
    t8: Seq<u8>,
    t9: Seq<u8>,
    t10: Seq<u8>,
    t11: Seq<u8>,
)
    ensures
        t1 + t2 + t3 + t4 + t5 + t6 + t7 + t8 + t9 + t10 + t11 == t1 + (t2 + (t3 + (t4 + (t5 + (t6 + (t7 + (t8 + (t9
            + (t10 + t11))))))))),
{
    assert(t1 + t2 + t3 + t4 + t5 + t6 + t7 + t8 + t9 + t10 + t11 =~= t1 + (t2 + (t3 + (t4 + (t5 + (t6 + (t7 + (t8
        + (t9 + (t10 + t11))))))))));
}

proof fn lemma_query_layout(u: QueryDefinitionView)
    ensures
        query_bytes(u) == text_token("query"@) + (text_token(u.source) + (temporal_bytes(u.temporal_scope)
            + tail_after_temporal(u))),
{
    reveal(query_bytes);
    lemma_concat_nested(
        text_token("query"@),
        text_token(u.source),
        temporal_bytes(u.temporal_scope),
        optional_predicate_bytes(u.predicate),
        projection_bytes(u.projection),
        sort_bytes(u.sort),
        group_bytes(u.group),
        aggregations_bytes(u.aggregations),
        traversal_bytes(u.traversal),
        text_token(policy_label(u.partial_result_policy)),
        text_token(presentation_label(u.presentation_type)),
    );
}

/// The canonical encoding is unambiguous: two query definitions with equal
/// encodings have the same source, temporal scope, predicate, projection,
/// sort, grouping, aggregations, traversal, partial-result policy and
/// presentation type; only their execution limits may differ, and those are
/// not part of a query's semantics.
#[verifier::spinoff_prover]
pub proof fn law_equal_encodings_mean_equal_queries(a: QueryDefinition, b: QueryDefinition)
    requires
        query_bytes(a@) == query_bytes(b@),
    ensures
        a@ == (QueryDefinitionView { execution_limits: a@.execution_limits, ..b@ }),
{
    let u = a@;
    let v = b@;
    match &a.projection {
        crate::query_types::Projection::SelectedFields(f) => f.lemma_shape(),
        _ => {},
    }
    match &b.projection {
        crate::query_types::Projection::SelectedFields(f) => f.lemma_shape(),
        _ => {},
    }
    match &a.group {
        Some(g) => g.fields.lemma_shape(),
        None => {},
    }
    match &b.group {
        Some(g) => g.fields.lemma_shape(),
        None => {},
    }
    lemma_query_layout(u);
    lemma_query_layout(v);
    lemma_text_prefix(
        "query"@,
        "query"@,
        text_token(u.source) + (temporal_bytes(u.temporal_scope) + tail_after_temporal(u)),
        text_token(v.source) + (temporal_bytes(v.temporal_scope) + tail_after_temporal(v)),
    );
    lemma_text_prefix(
        u.source,
        v.source,
        temporal_bytes(u.temporal_scope) + tail_after_temporal(u),
        temporal_bytes(v.temporal_scope) + tail_after_temporal(v),
    );
    lemma_temporal_prefix(u.temporal_scope, v.temporal_scope, tail_after_temporal(u), tail_after_temporal(v));
    lemma_optional_predicate_prefix(u.predicate, v.predicate, tail_after_predicate(u), tail_after_predicate(v));
    lemma_projection_sort_prefix(u.projection, v.projection, u.sort, v.sort, tail_after_sort(u), tail_after_sort(v));
    lemma_group_aggregations_prefix(
        u.group,
        v.group,
        u.aggregations,
        v.aggregations,
        tail_after_aggregations(u),
        tail_after_aggregations(v),
    );
    lemma_traversal_tail(
        u.traversal,
        v.traversal,
        u.partial_result_policy,
        v.partial_result_policy,
        u.presentation_type,
        v.presentation_type,
    );
}

/// Two query definitions are semantically equal, their canonical encodings
/// equal, exactly when they agree on everything but their execution limits.
pub proof fn law_semantic_equality_is_agreement_up_to_limits(a: QueryDefinition, b: QueryDefinition)
    ensures
        (query_bytes(a@) == query_bytes(b@)) <==> (a@ == (QueryDefinitionView {
            execution_limits: a@.execution_limits,
            ..b@
        })),
{
    if query_bytes(a@) == query_bytes(b@) {
        law_equal_encodings_mean_equal_queries(a, b);
    }
    if a@ == (QueryDefinitionView { execution_limits: a@.execution_limits, ..b@ }) {
        reveal(query_bytes);
    }
}

} // verus!
