//! The Min and Max aggregations pick a least and a greatest present value.
use vstd::prelude::*;
use crate::contracts::PropertyValueView;
use crate::query_aggregation::{aggregation_value_ok, max_value, min_value, order_or_equal, present_values};
use crate::query_compare::{
    bytes_lt, bytes_order, chars_order, lemma_bytes_lt_trichotomy, lemma_value_order_antisymmetric, opt_chars_order,
    value_order,
};
use crate::query_types::{AggregationFunction, AggregationSpecView, QueryRecordView};
use crate::text::{chars_lt, lemma_chars_lt_irreflexive, lemma_chars_lt_total, lemma_chars_lt_transitive, KeyOrder};

verus! {

proof fn lemma_chars_chain(a: Seq<char>, b: Seq<char>, c: Seq<char>)
    ensures
        chars_order(a, a) == KeyOrder::Equal,
        chars_order(a, b) == KeyOrder::Equal ==> a == b,
        chars_order(a, b) != KeyOrder::Less && chars_order(b, c) == KeyOrder::Greater ==> chars_order(a, c)
            == KeyOrder::Greater,
        chars_order(a, b) == KeyOrder::Greater && chars_order(b, c) != KeyOrder::Less ==> chars_order(a, c)
            == KeyOrder::Greater,
{
    lemma_chars_lt_irreflexive(a);
    lemma_chars_lt_irreflexive(c);
    lemma_chars_lt_total(a, b);
    lemma_chars_lt_total(b, c);
    lemma_chars_lt_total(a, c);
    if chars_lt(c, b) && chars_lt(b, a) {
        lemma_chars_lt_transitive(c, b, a);
    }
    if chars_lt(a, c) && chars_lt(c, b) {
        lemma_chars_lt_transitive(a, c, b);
    }
    if chars_lt(b, a) && chars_lt(a, c) {
        lemma_chars_lt_transitive(b, a, c);
    }
    if chars_lt(c, b) && chars_lt(b, a) {
        lemma_chars_lt_transitive(c, b, a);
    }
    if chars_lt(c, a) && chars_lt(a, c) {
        lemma_chars_lt_transitive(c, a, c);
    }
}

proof fn lemma_bytes_lt_transitive(a: Seq<u8>, b: Seq<u8>, c: Seq<u8>)
    requires
        bytes_lt(a, b),
        bytes_lt(b, c),
    ensures
        bytes_lt(a, c),
    decreases a.len(),
{
    if a.len() > 0 && b.len() > 0 && c.len() > 0 && a[0] == b[0] && b[0] == c[0] {
        lemma_bytes_lt_transitive(a.drop_first(), b.drop_first(), c.drop_first());
    }
}

proof fn lemma_bytes_chain(a: Seq<u8>, b: Seq<u8>, c: Seq<u8>)
    ensures
        bytes_order(a, a) == KeyOrder::Equal,
        bytes_order(a, b) != KeyOrder::Less && bytes_order(b, c) == KeyOrder::Greater ==> bytes_order(a, c)
            == KeyOrder::Greater,
        bytes_order(a, b) == KeyOrder::Greater && bytes_order(b, c) != KeyOrder::Less ==> bytes_order(a, c)
            == KeyOrder::Greater,
{
    lemma_bytes_lt_trichotomy(a, a);
    lemma_bytes_lt_trichotomy(a, b);
    lemma_bytes_lt_trichotomy(b, c);
    lemma_bytes_lt_trichotomy(a, c);
    if bytes_lt(c, b) && bytes_lt(b, a) {
        lemma_bytes_lt_transitive(c, b, a);
    }
    if bytes_lt(a, c) && bytes_lt(c, b) {
        lemma_bytes_lt_transitive(a, c, b);
    }
    if bytes_lt(b, a) && bytes_lt(a, c) {
        lemma_bytes_lt_transitive(b, a, c);
    }
}

proof fn lemma_opt_chars_chain(a: Option<Seq<char>>, b: Option<Seq<char>>, c: Option<Seq<char>>)
    ensures
        opt_chars_order(a, a) == KeyOrder::Equal,
        opt_chars_order(a, b) != KeyOrder::Less && opt_chars_order(b, c) == KeyOrder::Greater ==> opt_chars_order(a, c)
            == KeyOrder::Greater,
{
    match (a, b, c) {
        (Some(x), Some(y), Some(z)) => lemma_chars_chain(x, y, z),
        (Some(x), _, _) => lemma_chars_chain(x, x, x),
        _ => {},
    }
}

/// A value is never below itself.
proof fn lemma_value_reflexive(x: PropertyValueView)
    ensures
        value_order(x, x) != Some(KeyOrder::Less),
        value_order(x, x) != Some(KeyOrder::Greater),
{
    lemma_value_order_antisymmetric(x, x);
}

/// Not below and then above gives above; values that do not compare with a
/// value comparable to a third do not compare with the third either.
proof fn lemma_value_chain(x: PropertyValueView, y: PropertyValueView, z: PropertyValueView)
    requires
        value_order(y, z) == Some(KeyOrder::Greater),
    ensures
        value_order(x, y) is None ==> value_order(x, z) is None,
        value_order(x, y) is Some && value_order(x, y) != Some(KeyOrder::Less) ==> value_order(x, z) == Some(
            KeyOrder::Greater,
        ),
{
    match (x, y, z) {
        (
            PropertyValueView::Text { value: v1, language: l1 },
            PropertyValueView::Text { value: v2, language: l2 },
            PropertyValueView::Text { value: v3, language: l3 },
        ) => {
            lemma_chars_chain(v1, v2, v3);
            lemma_chars_chain(v2, v3, v3);
            lemma_chars_chain(v1, v3, v3);
            lemma_opt_chars_chain(l1, l2, l3);
            if chars_order(v1, v2) == KeyOrder::Equal {
                assert(v1 == v2);
            }
            if chars_order(v2, v3) == KeyOrder::Equal {
                assert(v2 == v3);
            }
        },
        (PropertyValueView::LocalizedTextKey(a), PropertyValueView::LocalizedTextKey(b), PropertyValueView::LocalizedTextKey(c)) =>
            lemma_chars_chain(a, b, c),
        (PropertyValueView::DateTime(a), PropertyValueView::DateTime(b), PropertyValueView::DateTime(c)) => lemma_chars_chain(a, b, c),
        (PropertyValueView::EnumValue(a), PropertyValueView::EnumValue(b), PropertyValueView::EnumValue(c)) => lemma_chars_chain(a, b, c),
        (
            PropertyValueView::AttachmentReference(a),
            PropertyValueView::AttachmentReference(b),
            PropertyValueView::AttachmentReference(c),
        ) => lemma_chars_chain(a, b, c),
        (PropertyValueView::Reference(a), PropertyValueView::Reference(b), PropertyValueView::Reference(c)) => lemma_chars_chain(a, b, c),
        (PropertyValueView::BinaryBlob(a), PropertyValueView::BinaryBlob(b), PropertyValueView::BinaryBlob(c)) => lemma_bytes_chain(a, b, c),
        _ => {},
    }
}

proof fn lemma_min(vals: Seq<PropertyValueView>)
    requires
        vals.len() > 0,
    ensures
        exists|k: int| 0 <= k < vals.len() && vals[k] == min_value(vals),
        forall|k: int| 0 <= k < vals.len() ==> value_order(#[trigger] vals[k], min_value(vals)) != Some(KeyOrder::Less),
    decreases vals.len(),
{
    if vals.len() == 1 {
        lemma_value_reflexive(vals[0]);
        assert(vals[0] == min_value(vals));
    } else {
        let prev = vals.drop_last();
        lemma_min(prev);
        let acc = min_value(prev);
        let last = vals.last();
        lemma_value_reflexive(last);
        lemma_value_order_antisymmetric(acc, last);
        if order_or_equal(acc, last) == KeyOrder::Greater {
            assert forall|k: int| 0 <= k < vals.len() implies value_order(#[trigger] vals[k], min_value(vals)) != Some(
                KeyOrder::Less,
            ) by {
                if k < vals.len() - 1 {
                    assert(vals[k] == prev[k]);
                    lemma_value_chain(vals[k], acc, last);
                }
            }
            assert(vals[vals.len() - 1] == min_value(vals));
        } else {
            assert forall|k: int| 0 <= k < vals.len() implies value_order(#[trigger] vals[k], min_value(vals)) != Some(
                KeyOrder::Less,
            ) by {
                if k < vals.len() - 1 {
                    assert(vals[k] == prev[k]);
                }
            }
            let j = choose|k: int| 0 <= k < prev.len() && prev[k] == acc;
            assert(vals[j] == min_value(vals));
        }
    }
}

/// Values that compare equal compare alike with every value.
proof fn lemma_value_equal(x: PropertyValueView, y: PropertyValueView, z: PropertyValueView)
    requires
        value_order(y, z) == Some(KeyOrder::Equal),
    ensures
        value_order(x, y) == value_order(x, z),
{
    match (x, y, z) {
        (
            PropertyValueView::Text { value: v1, language: l1 },
            PropertyValueView::Text { value: v2, language: l2 },
            PropertyValueView::Text { value: v3, language: l3 },
        ) => {
            lemma_chars_chain(v2, v3, v3);
            lemma_opt_chars_chain(l2, l3, l3);
            match (l2, l3) {
                (Some(a), Some(b)) => lemma_chars_chain(a, b, b),
                _ => {},
            }
            assert(v2 == v3);
            assert(l2 == l3);
        },
        (_, PropertyValueView::LocalizedTextKey(b), PropertyValueView::LocalizedTextKey(c)) => lemma_chars_chain(b, c, c),
        (_, PropertyValueView::DateTime(b), PropertyValueView::DateTime(c)) => lemma_chars_chain(b, c, c),
        (_, PropertyValueView::EnumValue(b), PropertyValueView::EnumValue(c)) => lemma_chars_chain(b, c, c),
        (_, PropertyValueView::AttachmentReference(b), PropertyValueView::AttachmentReference(c)) => lemma_chars_chain(b, c, c),
        (_, PropertyValueView::Reference(b), PropertyValueView::Reference(c)) => lemma_chars_chain(b, c, c),
        (_, PropertyValueView::BinaryBlob(b), PropertyValueView::BinaryBlob(c)) => {
            lemma_bytes_lt_trichotomy(b, c);
        },
        _ => {},
    }
}

/// At most a value, at most a third: below or equal carries over.
proof fn lemma_max_step(x: PropertyValueView, y: PropertyValueView, z: PropertyValueView)
    requires
        value_order(x, y) is Some,
        value_order(x, y) != Some(KeyOrder::Greater),
        value_order(y, z) is Some,
        value_order(y, z) != Some(KeyOrder::Greater),
    ensures
        value_order(x, z) != Some(KeyOrder::Greater),
{
    lemma_value_order_antisymmetric(x, y);
    lemma_value_order_antisymmetric(y, z);
    lemma_value_order_antisymmetric(x, z);
    if value_order(y, z) == Some(KeyOrder::Equal) {
        lemma_value_equal(x, y, z);
    } else if value_order(x, y) == Some(KeyOrder::Equal) {
        lemma_value_equal(z, x, y);
        lemma_value_order_antisymmetric(z, x);
    } else {
        lemma_value_chain(z, y, x);
    }
}

proof fn lemma_max(vals: Seq<PropertyValueView>)
    requires
        vals.len() > 0,
        forall|i: int, j: int| 0 <= i < vals.len() && 0 <= j < vals.len() ==> value_order(#[trigger] vals[i], #[trigger] vals[j]) is Some,
    ensures
        exists|k: int| 0 <= k < vals.len() && vals[k] == max_value(vals),
        forall|k: int| 0 <= k < vals.len() ==> value_order(#[trigger] vals[k], max_value(vals)) != Some(KeyOrder::Greater),
    decreases vals.len(),
{
    if vals.len() == 1 {
        lemma_value_reflexive(vals[0]);
        assert(vals[0] == max_value(vals));
    } else {
        let prev = vals.drop_last();
        assert forall|i: int, j: int| 0 <= i < prev.len() && 0 <= j < prev.len() implies value_order(#[trigger] prev[i], #[trigger] prev[j]) is Some by {
            assert(prev[i] == vals[i] && prev[j] == vals[j]);
        }
        lemma_max(prev);
        let acc = max_value(prev);
        let last = vals.last();
        let j = choose|k: int| 0 <= k < prev.len() && prev[k] == acc;
        assert(vals[j] == acc);
        assert(value_order(vals[j], vals[vals.len() - 1]) is Some);
        lemma_value_reflexive(last);
        lemma_value_order_antisymmetric(acc, last);
        if order_or_equal(acc, last) == KeyOrder::Greater {
            assert forall|k: int| 0 <= k < vals.len() implies value_order(#[trigger] vals[k], max_value(vals)) != Some(
                KeyOrder::Greater,
            ) by {
                if k < vals.len() - 1 {
                    assert(vals[k] == prev[k]);
                }
            }
            assert(vals[j] == max_value(vals));
        } else {
            assert forall|k: int| 0 <= k < vals.len() implies value_order(#[trigger] vals[k], max_value(vals)) != Some(
                KeyOrder::Greater,
            ) by {
                if k < vals.len() - 1 {
                    assert(vals[k] == prev[k]);
                    assert(value_order(vals[k], vals[j]) is Some);
                    lemma_max_step(vals[k], acc, last);
                }
            }
            assert(vals[vals.len() - 1] == max_value(vals));
        }
    }
}

/// The Min aggregation of a group with a present value is one of the
/// present values, and no present value compares below it.
pub proof fn law_min_is_least(agg: AggregationSpecView, rs: Seq<QueryRecordView>, v: PropertyValueView)
    requires
        agg.function == AggregationFunction::Min,
        present_values(agg.field, rs).len() > 0,
        aggregation_value_ok(agg, rs, v),
    ensures
        exists|k: int| 0 <= k < present_values(agg.field, rs).len() && present_values(agg.field, rs)[k] == v,
        forall|k: int|
            0 <= k < present_values(agg.field, rs).len() ==> value_order(#[trigger] present_values(agg.field, rs)[k], v)
                != Some(KeyOrder::Less),
{
    lemma_min(present_values(agg.field, rs));
}

/// The Max aggregation of a group whose present values all compare with
/// one another is one of the present values, and no present value compares
/// above it.
pub proof fn law_max_is_greatest(agg: AggregationSpecView, rs: Seq<QueryRecordView>, v: PropertyValueView)
    requires
        agg.function == AggregationFunction::Max,
        present_values(agg.field, rs).len() > 0,
        forall|i: int, j: int|
            0 <= i < present_values(agg.field, rs).len() && 0 <= j < present_values(agg.field, rs).len() ==> value_order(
                #[trigger] present_values(agg.field, rs)[i],
                #[trigger] present_values(agg.field, rs)[j],
            ) is Some,
        aggregation_value_ok(agg, rs, v),
    ensures
        exists|k: int| 0 <= k < present_values(agg.field, rs).len() && present_values(agg.field, rs)[k] == v,
        forall|k: int|
            0 <= k < present_values(agg.field, rs).len() ==> value_order(#[trigger] present_values(agg.field, rs)[k], v)
                != Some(KeyOrder::Greater),
{
    lemma_max(present_values(agg.field, rs));
}

} // verus!
