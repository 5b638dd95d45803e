//! Finite one-shot query execution: predicate matching, deterministic
//! ordering, projection with provenance, grouping and aggregation, and the
//! engine that runs a query against a source under per-record authorization.
use vstd::prelude::*;
use crate::collections::{OrdMap, OrdSet};
use crate::contracts::{PropertyValue, PropertyValueView};
use crate::query_compare::{
    compare_optional_property_values, compare_property_values, compare_segments, lemma_opt_value_order_antisymmetric,
    lemma_segments_order_antisymmetric, opt_value_order, reverse_order, reversed, segments_order, value_order,
};
use crate::query_types::{
    seq_view, Predicate, QueryRecord, QueryRecordView, SortDirection, SortSpec,
};
use crate::text::KeyOrder;
use crate::values::{values_equal, values_equal_exec};

verus! {

/// The value of a field, if the record has it.
pub open spec fn field_value(fields: Map<Seq<char>, PropertyValueView>, field: Seq<char>) -> Option<PropertyValueView> {
    if fields.contains_key(field) {
        Some(fields[field])
    } else {
        None
    }
}

/// Whether a predicate holds of a record's fields.
pub open spec fn predicate_holds(p: Predicate, fields: Map<Seq<char>, PropertyValueView>) -> bool
    decreases p, 0int,
{
    match p {
        Predicate::AlwaysTrue => true,
        Predicate::Equals { field, value } => fields.contains_key(field@) && values_equal(fields[field@], value@),
        Predicate::Exists { field } => fields.contains_key(field@),
        Predicate::Range { field, lower, upper } => {
            &&& fields.contains_key(field@)
            &&& match lower {
                Some(l) => value_order(fields[field@], l@) is Some && value_order(fields[field@], l@).unwrap()
                    != KeyOrder::Less,
                None => true,
            }
            &&& match upper {
                Some(u) => value_order(fields[field@], u@) is Some && value_order(fields[field@], u@).unwrap()
                    != KeyOrder::Greater,
                None => true,
            }
        },
        Predicate::And(children) => all_hold_from(children, fields, 0),
        Predicate::Or(children) => any_holds_from(children, fields, 0),
        Predicate::Not(child) => !predicate_holds(*child, fields),
    }
}

/// Every child from position `i` on holds.
pub open spec fn all_hold_from(children: Vec<Predicate>, fields: Map<Seq<char>, PropertyValueView>, i: int) -> bool
    decreases children, children@.len() - i,
{
    if i < 0 || i >= children@.len() {
        true
    } else {
        predicate_holds(children[i], fields) && all_hold_from(children, fields, i + 1)
    }
}

/// Some child from position `i` on holds.
pub open spec fn any_holds_from(children: Vec<Predicate>, fields: Map<Seq<char>, PropertyValueView>, i: int) -> bool
    decreases children, children@.len() - i,
{
    if i < 0 || i >= children@.len() {
        false
    } else {
        predicate_holds(children[i], fields) || any_holds_from(children, fields, i + 1)
    }
}

/// Reports whether a predicate holds of a map of field values.
pub fn fields_match(fields: &OrdMap<String, PropertyValue>, predicate: &Predicate) -> (b: bool)
    ensures
        b == predicate_holds(*predicate, crate::event_types::payload_view(*fields)),
    decreases predicate, 0int,
{
    let ghost fv = crate::event_types::payload_view(*fields);
    match predicate {
        Predicate::AlwaysTrue => true,
        Predicate::Equals { field, value } => match fields.get(field) {
            Some(actual) => values_equal_exec(actual, value),
            None => false,
        },
        Predicate::Exists { field } => fields.contains_key(field),
        Predicate::Range { field, lower, upper } => {
            let actual = match fields.get(field) {
                Some(v) => v,
                None => {
                    return false;
                },
            };
            if let Some(l) = lower {
                match compare_property_values(actual, l) {
                    None => {
                        return false;
                    },
                    Some(KeyOrder::Less) => {
                        return false;
                    },
                    Some(_) => {},
                }
            }
            if let Some(u) = upper {
                match compare_property_values(actual, u) {
                    None => {
                        return false;
                    },
                    Some(KeyOrder::Greater) => {
                        return false;
                    },
                    Some(_) => {},
                }
            }
            true
        },
        Predicate::And(children) => all_children_match(fields, children, 0),
        Predicate::Or(children) => any_child_matches(fields, children, 0),
        Predicate::Not(child) => !fields_match(fields, child),
    }
}

fn all_children_match(fields: &OrdMap<String, PropertyValue>, children: &Vec<Predicate>, i: usize) -> (b: bool)
    requires
        i <= children@.len(),
    ensures
        b == all_hold_from(*children, crate::event_types::payload_view(*fields), i as int),
    decreases children, children@.len() - i,
{
    if i >= children.len() {
        return true;
    }
    proof {
        assert(decreases_to!(children => children[i as int]));
    }
    if !fields_match(fields, &children[i]) {
        return false;
    }
    all_children_match(fields, children, i + 1)
}

fn any_child_matches(fields: &OrdMap<String, PropertyValue>, children: &Vec<Predicate>, i: usize) -> (b: bool)
    requires
        i <= children@.len(),
    ensures
        b == any_holds_from(*children, crate::event_types::payload_view(*fields), i as int),
    decreases children, children@.len() - i,
{
    if i >= children.len() {
        return false;
    }
    proof {
        assert(decreases_to!(children => children[i as int]));
    }
    if fields_match(fields, &children[i]) {
        return true;
    }
    any_child_matches(fields, children, i + 1)
}

/// Reports whether a record matches an optional predicate; no predicate matches every record.
pub fn predicate_matches(record: &QueryRecord, predicate: Option<&Predicate>) -> (r: Result<bool, crate::query_errors::QueryEngineError>)
    ensures
        r matches Ok(b) && b == match predicate {
            Some(p) => predicate_holds(*p, record@.fields),
            None => true,
        },
{
    match predicate {
        None => Ok(true),
        Some(p) => Ok(fields_match(&record.fields, p)),
    }
}

/// The order of two records under sort keys from position `i` on, the
/// ordering keys breaking ties.
pub open spec fn sort_order_from(
    a: QueryRecordView,
    b: QueryRecordView,
    sort: Seq<(Seq<char>, SortDirection)>,
    i: int,
) -> KeyOrder
    decreases sort.len() - i,
{
    if i < 0 || i >= sort.len() {
        segments_order(a.ordering_key, b.ordering_key)
    } else {
        let o = opt_value_order(field_value(a.fields, sort[i].0), field_value(b.fields, sort[i].0));
        let directed = if sort[i].1 == SortDirection::Descending {
            reversed(o)
        } else {
            o
        };
        if directed != KeyOrder::Equal {
            directed
        } else {
            sort_order_from(a, b, sort, i + 1)
        }
    }
}

/// The order of two records under the sort keys.
#[verifier::opaque]
pub open spec fn record_order(a: QueryRecordView, b: QueryRecordView, sort: Seq<(Seq<char>, SortDirection)>) -> KeyOrder {
    sort_order_from(a, b, sort, 0)
}

/// Swapping two records reverses their order.
pub proof fn lemma_record_order_antisymmetric(
    a: QueryRecordView,
    b: QueryRecordView,
    sort: Seq<(Seq<char>, SortDirection)>,
    i: int,
)
    requires
        0 <= i <= sort.len(),
    ensures
        sort_order_from(b, a, sort, i) == reversed(sort_order_from(a, b, sort, i)),
    decreases sort.len() - i,
{
    if i >= sort.len() {
        lemma_segments_order_antisymmetric(a.ordering_key, b.ordering_key);
    } else {
        lemma_opt_value_order_antisymmetric(field_value(a.fields, sort[i].0), field_value(b.fields, sort[i].0));
        lemma_record_order_antisymmetric(a, b, sort, i + 1);
    }
}

fn opt_field<'a>(fields: &'a OrdMap<String, PropertyValue>, field: &String) -> (r: Option<&'a PropertyValue>)
    ensures
        match r {
            Some(v) => field_value(crate::event_types::payload_view(*fields), field@) == Some(v@),
            None => field_value(crate::event_types::payload_view(*fields), field@) is None,
        },
{
    fields.get(field)
}

/// Returns the order of two records under the sort keys.
pub fn compare_records(a: &QueryRecord, b: &QueryRecord, sort: &Vec<SortSpec>) -> (r: KeyOrder)
    ensures
        r == record_order(a@, b@, seq_view(sort@)),
{
    let ghost sv = seq_view(sort@);
    let n = sort.len();
    let mut i: usize = 0;
    proof {
        reveal(record_order);
    }
    while i < n
        invariant
            sv == seq_view(sort@),
            n == sort@.len(),
            i <= n,
            record_order(a@, b@, sv) == sort_order_from(a@, b@, sv, i as int),
        decreases n - i,
    {
        let spec = &sort[i];
        assert(sv[i as int] == (spec.field@, spec.direction));
        let o = compare_optional_property_values(opt_field(&a.fields, &spec.field), opt_field(&b.fields, &spec.field));
        let directed = match spec.direction {
            SortDirection::Descending => reverse_order(o),
            SortDirection::Ascending => o,
        };
        match directed {
            KeyOrder::Equal => {},
            _ => {
                return directed;
            },
        }
        i = i + 1;
    }
    proof {
        reveal(record_order);
    }
    compare_segments(a.ordering_key.segments(), b.ordering_key.segments())
}

/// Swapping two records reverses their order.
pub proof fn lemma_record_order_reverses(a: QueryRecordView, b: QueryRecordView, sort: Seq<(Seq<char>, SortDirection)>)
    ensures
        record_order(b, a, sort) == reversed(record_order(a, b, sort)),
{
    reveal(record_order);
    lemma_record_order_antisymmetric(a, b, sort, 0);
}

/// The records' views.
pub open spec fn record_views(s: Seq<QueryRecord>) -> Seq<QueryRecordView> {
    s.map_values(|r: QueryRecord| r@)
}

/// `out` holds `count` elements of `orig` at the distinct positions `perm`
/// (all below `count`), neighbours in order under `ord`, and elements of
/// equal order in their original relative order.
pub open spec fn sort_state<T>(orig: Seq<T>, out: Seq<T>, ord: spec_fn(T, T) -> KeyOrder, perm: Seq<int>, count: int) -> bool {
    &&& perm.len() == out.len() == count
    &&& count <= orig.len()
    &&& forall|k: int| 0 <= k < perm.len() ==> 0 <= #[trigger] perm[k] < count
    &&& forall|k: int, l: int| 0 <= k < l < perm.len() ==> #[trigger] perm[k] != #[trigger] perm[l]
    &&& forall|k: int| 0 <= k < out.len() ==> #[trigger] out[k] == orig[perm[k]]
    &&& forall|k: int| 0 <= k < out.len() - 1 ==> #[trigger] ord(out[k], out[k + 1]) != KeyOrder::Greater
    &&& forall|k: int, l: int|
        0 <= k < l < out.len() && ord(#[trigger] out[k], #[trigger] out[l]) == KeyOrder::Equal ==> perm[k] < perm[l]
}

/// `out` is a stable sorted permutation of `orig` under `ord`: each element of
/// `out` is the element of `orig` at a distinct position, neighbours are in
/// order, and elements of equal order keep their original relative order.
pub open spec fn is_stable_sort<T>(orig: Seq<T>, out: Seq<T>, ord: spec_fn(T, T) -> KeyOrder) -> bool {
    exists|perm: Seq<int>| #[trigger] sort_state(orig, out, ord, perm, orig.len() as int)
}

/// The order of records under sort keys, as a function.
pub open spec fn record_ordering(sort: Seq<(Seq<char>, SortDirection)>) -> spec_fn(QueryRecordView, QueryRecordView) -> KeyOrder {
    |a: QueryRecordView, b: QueryRecordView| record_order(a, b, sort)
}

proof fn lemma_insert_positions<T>(perm: Seq<int>, count: int, j: int)
    requires
        0 <= count,
        0 <= j <= perm.len(),
        forall|k: int| 0 <= k < perm.len() ==> 0 <= #[trigger] perm[k] < count,
        forall|k: int, l: int| 0 <= k < l < perm.len() ==> #[trigger] perm[k] != #[trigger] perm[l],
    ensures
        forall|k: int| 0 <= k < perm.len() + 1 ==> 0 <= #[trigger] perm.insert(j, count)[k] < count + 1,
        forall|k: int, l: int|
            0 <= k < l < perm.len() + 1 ==> #[trigger] perm.insert(j, count)[k] != #[trigger] perm.insert(j, count)[l],
{
    let nperm = perm.insert(j, count);
    assert forall|k: int, l: int| 0 <= k < l < nperm.len() implies #[trigger] nperm[k] != #[trigger] nperm[l] by {
        if k != j && l != j {
            let k0 = if k < j { k } else { k - 1 };
            let l0 = if l < j { l } else { l - 1 };
            assert(nperm[k] == perm[k0]);
            assert(nperm[l] == perm[l0]);
        } else if k == j {
            assert(nperm[l] == perm[l - 1]);
        } else {
            assert(nperm[k] == perm[k]);
        }
    }
    assert forall|k: int| 0 <= k < nperm.len() implies 0 <= #[trigger] nperm[k] < count + 1 by {
        if k == j {
            assert(nperm[k] == count);
        } else if k < j {
            assert(nperm[k] == perm[k]);
        } else if k > j {
            assert(nperm[k] == perm[k - 1]);
        }
    }
}

proof fn lemma_insert_elements<T>(orig: Seq<T>, out: Seq<T>, perm: Seq<int>, count: int, j: int)
    requires
        perm.len() == out.len(),
        0 <= count < orig.len(),
        0 <= j <= out.len(),
        forall|k: int| 0 <= k < out.len() ==> #[trigger] out[k] == orig[perm[k]],
    ensures
        forall|k: int| 0 <= k < out.len() + 1 ==> #[trigger] out.insert(j, orig[count])[k] == orig[perm.insert(j, count)[k]],
{
    let nout = out.insert(j, orig[count]);
    let nperm = perm.insert(j, count);
    assert forall|k: int| 0 <= k < nout.len() implies #[trigger] nout[k] == orig[nperm[k]] by {
        if k < j {
            assert(nout[k] == out[k] && nperm[k] == perm[k]);
        } else if k > j {
            assert(nout[k] == out[k - 1] && nperm[k] == perm[k - 1]);
        }
    }
}

#[verifier::spinoff_prover]
proof fn lemma_insert_adjacent<T>(out: Seq<T>, ord: spec_fn(T, T) -> KeyOrder, x: T, j: int)
    requires
        0 <= j <= out.len(),
        forall|k: int| 0 <= k < out.len() - 1 ==> #[trigger] ord(out[k], out[k + 1]) != KeyOrder::Greater,
        j > 0 ==> ord(out[j - 1], x) != KeyOrder::Greater,
        j < out.len() ==> ord(x, out[j]) == KeyOrder::Less,
    ensures
        forall|k: int| 0 <= k < out.len() ==> #[trigger] ord(out.insert(j, x)[k], out.insert(j, x)[k + 1]) != KeyOrder::Greater,
{
    let nout = out.insert(j, x);
    assert forall|k: int| 0 <= k < out.len() implies #[trigger] ord(nout[k], nout[k + 1]) != KeyOrder::Greater by {
        if k + 1 < j {
            assert(nout[k] == out[k] && nout[k + 1] == out[k + 1]);
            assert(ord(out[k], out[k + 1]) != KeyOrder::Greater);
        } else if k + 1 == j {
            assert(nout[k] == out[k] && nout[k + 1] == x);
        } else if k == j {
            assert(nout[k] == x && nout[k + 1] == out[k]);
        } else {
            assert(nout[k] == out[k - 1] && nout[k + 1] == out[k]);
            let k0 = k - 1;
            assert(ord(out[k0], out[k0 + 1]) != KeyOrder::Greater);
            assert(k0 + 1 == k);
        }
    }
}

#[verifier::spinoff_prover]
proof fn lemma_insert_stable<T>(out: Seq<T>, ord: spec_fn(T, T) -> KeyOrder, perm: Seq<int>, x: T, count: int, j: int)
    requires
        perm.len() == out.len(),
        0 <= j <= out.len(),
        forall|k: int| 0 <= k < perm.len() ==> #[trigger] perm[k] < count,
        forall|k: int, l: int|
            0 <= k < l < out.len() && ord(#[trigger] out[k], #[trigger] out[l]) == KeyOrder::Equal ==> perm[k] < perm[l],
        forall|m: int| j <= m < out.len() ==> ord(x, #[trigger] out[m]) == KeyOrder::Less,
    ensures
        forall|k: int, l: int|
            0 <= k < l < out.len() + 1 && ord(#[trigger] out.insert(j, x)[k], #[trigger] out.insert(j, x)[l])
                == KeyOrder::Equal ==> perm.insert(j, count)[k] < perm.insert(j, count)[l],
{
    let nout = out.insert(j, x);
    let nperm = perm.insert(j, count);
    assert forall|k: int, l: int|
        0 <= k < l < nout.len() && ord(#[trigger] nout[k], #[trigger] nout[l]) == KeyOrder::Equal implies nperm[k]
        < nperm[l] by {
        if l == j {
            assert(nperm[k] == perm[k] && nperm[l] == count);
        } else if k == j {
            assert(nout[k] == x && nout[l] == out[l - 1]);
        } else {
            let k0 = if k < j { k } else { k - 1 };
            let l0 = if l < j { l } else { l - 1 };
            assert(nout[k] == out[k0]);
            assert(nout[l] == out[l0]);
            assert(nperm[k] == perm[k0]);
            assert(nperm[l] == perm[l0]);
        }
    }
}

/// Inserting the next element after the last element not above it, and
/// before the elements below it in reverse, keeps the sort state.
pub proof fn lemma_insert_next<T>(orig: Seq<T>, out: Seq<T>, ord: spec_fn(T, T) -> KeyOrder, perm: Seq<int>, count: int, j: int)
    requires
        sort_state(orig, out, ord, perm, count),
        count < orig.len(),
        0 <= j <= out.len(),
        j > 0 ==> ord(out[j - 1], orig[count]) != KeyOrder::Greater,
        forall|m: int| j <= m < out.len() ==> ord(orig[count], #[trigger] out[m]) == KeyOrder::Less,
    ensures
        sort_state(orig, out.insert(j, orig[count]), ord, perm.insert(j, count), count + 1),
{
    lemma_insert_positions::<T>(perm, count, j);
    lemma_insert_elements::<T>(orig, out, perm, count, j);
    lemma_insert_adjacent::<T>(out, ord, orig[count], j);
    lemma_insert_stable::<T>(out, ord, perm, orig[count], count, j);
}

/// Sorts records by the sort keys, ties broken by their ordering keys, keeping
/// the original order of records that still compare equal.
pub fn order_records(records: &mut Vec<QueryRecord>, sort: &Vec<SortSpec>)
    ensures
        is_stable_sort(record_views(old(records)@), record_views(final(records)@), record_ordering(seq_view(sort@))),
{
    let ghost sv = seq_view(sort@);
    let ghost ord = record_ordering(sv);
    let mut input: Vec<QueryRecord> = Vec::new();
    std::mem::swap(&mut input, records);
    let ghost orig = record_views(input@);
    let n = input.len();
    let mut out: Vec<QueryRecord> = Vec::new();
    let ghost mut perm: Seq<int> = Seq::empty();
    proof {
        assert(record_views(out@) =~= Seq::<QueryRecordView>::empty());
    }
    let mut i: usize = 0;
    while i < n
        invariant
            sv == seq_view(sort@),
            ord == record_ordering(sv),
            orig.len() == n,
            i <= n,
            input@.len() == n - i,
            forall|k: int| 0 <= k < n - i ==> (#[trigger] input@[k])@ == orig[i + k],
            sort_state(orig, record_views(out@), ord, perm, i as int),
        decreases n - i,
    {
        let x = input.remove(0);
        assert(x@ == orig[i as int]);
        let ghost ov = record_views(out@);
        let mut j: usize = out.len();
        while j > 0 && compare_records(&out[j - 1], &x, sort) == KeyOrder::Greater
            invariant
                sv == seq_view(sort@),
                ord == record_ordering(sv),
                ov == record_views(out@),
                j <= out@.len(),
                forall|m: int| j <= m < out@.len() ==> ord(#[trigger] ov[m], x@) == KeyOrder::Greater,
            decreases j,
        {
            assert(ov[j - 1] == out@[j - 1]@);
            j = j - 1;
        }
        proof {
            if j > 0 {
                assert(ov[j - 1] == out@[j - 1]@);
            }
            assert forall|m: int| j <= m < ov.len() implies ord(orig[i as int], #[trigger] ov[m]) == KeyOrder::Less by {
                lemma_record_order_reverses(ov[m], orig[i as int], sv);
            }
            lemma_insert_next(orig, ov, ord, perm, i as int, j as int);
            perm = perm.insert(j as int, i as int);
        }
        out.insert(j, x);
        proof {
            assert(record_views(out@) =~= ov.insert(j as int, orig[i as int]));
            assert forall|k: int| 0 <= k < n - (i + 1) implies (#[trigger] input@[k])@ == orig[i + 1 + k] by {}
        }
        i = i + 1;
    }
    *records = out;
}

} // verus!
