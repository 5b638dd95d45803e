//! Grouping and aggregation of authorized records: the group key of a
//! record, the value of each aggregation over a group, and the computed items
//! that replace the records when a query aggregates.
use vstd::prelude::*;
use crate::collections::{lemma_sorted_unique, strictly_sorted, OrdMap, OrdSet};
use crate::contracts::{PropertyValue, PropertyValueView};
use crate::event_types::payload_view;
use crate::numbers::{integer_number_bits, integer_to_number, is_finite, number_is_finite};
use crate::query_compare::{compare_property_values, property_value_token, value_order, value_token};
use crate::query_errors::{QueryEngineError, QueryEngineErrorView};
use crate::query_execution::{field_value, record_views};
use crate::query_types::{
    AggregationFunction, AggregationSpec, AggregationSpecView, QueryDefinition, QueryDefinitionView, QueryRecord,
    QueryRecordView, QueryResultItem, QueryResultItemView, ResultClassification, ResultProvenance, ResultProvenanceView,
    StableOrderingKey,
};
use crate::text::{append_length_prefixed, length_prefixed, push_char, KeyOrder};

verus! {

/// One part of a group key: the length-prefixed field name, `=`, and the
/// canonical token of the record's value or `missing`.
pub open spec fn group_part(field: Seq<char>, fields: Map<Seq<char>, PropertyValueView>) -> Seq<char> {
    length_prefixed(field) + seq!['='] + match field_value(fields, field) {
        Some(v) => value_token(v),
        None => "missing"@,
    }
}

/// The parts of the group fields joined by `|`.
pub open spec fn joined_parts(names: Seq<Seq<char>>, fields: Map<Seq<char>, PropertyValueView>) -> Seq<char>
    decreases names.len(),
{
    if names.len() == 0 {
        Seq::empty()
    } else if names.len() == 1 {
        group_part(names[0], fields)
    } else {
        joined_parts(names.drop_last(), fields) + seq!['|'] + group_part(names.last(), fields)
    }
}

/// The group a record falls in: `all` without grouping, else the joined
/// parts of the group fields in ascending order.
pub open spec fn group_key(query: QueryDefinitionView, r: QueryRecordView) -> Seq<char> {
    match query.group {
        None => "all"@,
        Some(names) => joined_parts(names, r.fields),
    }
}

/// The group fields a record carries.
pub open spec fn group_fields(query: QueryDefinitionView, r: QueryRecordView) -> Map<Seq<char>, PropertyValueView> {
    match query.group {
        None => Map::empty(),
        Some(names) => r.fields.restrict(names.to_set()),
    }
}

/// Returns the group key of a record and the group fields it carries.
pub fn group_key_and_fields(query: &QueryDefinition, record: &QueryRecord) -> (r: (String, OrdMap<String, PropertyValue>))
    ensures
        r.0@ == group_key(query@, record@),
        payload_view(r.1) == group_fields(query@, record@),
{
    match &query.group {
        None => (String::from_str("all"), OrdMap::new()),
        Some(group) => {
            let ghost names = group.fields.keys();
            let ghost fv = record@.fields;
            let mut key = String::new();
            let mut fields: OrdMap<String, PropertyValue> = OrdMap::new();
            let n = group.fields.len();
            let mut i: usize = 0;
            proof {
                assert(payload_view(fields) =~= fv.restrict(names.take(0).to_set()));
                assert(names.take(0) =~= Seq::<Seq<char>>::empty());
            }
            while i < n
                invariant
                    n == names.len(),
                    names == group.fields.keys(),
                    fv == record@.fields,
                    i <= n,
                    key@ == joined_parts(names.take(i as int), fv),
                    payload_view(fields) == fv.restrict(names.take(i as int).to_set()),
                decreases n - i,
            {
                let name = group.fields.item_at(i);
                let ghost before_key = key@;
                let ghost before = payload_view(fields);
                proof {
                    assert(names.take(i + 1) =~= names.take(i as int).push(names[i as int]));
                    names.take(i as int).lemma_push_to_set_commute(names[i as int]);
                }
                let ghost next_set = names.take(i as int).to_set().insert(names[i as int]);
                if i > 0 {
                    push_char(&mut key, '|');
                }
                let ghost sep = key@;
                append_length_prefixed(&mut key, name.as_str());
                push_char(&mut key, '=');
                match record.fields.get(name) {
                    Some(v) => {
                        let token = property_value_token(v);
                        key.append(token.as_str());
                        fields.insert(name.clone(), v.clone());
                        proof {
                            assert(payload_view(fields) =~= before.insert(names[i as int], fv[names[i as int]]));
                            assert(payload_view(fields) =~= fv.restrict(next_set));
                        }
                    },
                    None => {
                        key.append("missing");
                        proof {
                            assert(payload_view(fields) =~= fv.restrict(next_set));
                        }
                    },
                }
                proof {
                    let prev = names.take(i as int);
                    let next = names.take(i + 1);
                    assert(next =~= prev.push(names[i as int]));
                    assert(next.drop_last() =~= prev);
                    prev.lemma_push_to_set_commute(names[i as int]);
                    assert(key@ =~= joined_parts(next, fv));
                }
                i = i + 1;
            }
            proof {
                assert(names.take(n as int) =~= names);
            }
            (key, fields)
        },
    }
}

/// The values a group's records hold in an aggregation's field, in record order.
pub open spec fn present_values(field: Option<Seq<char>>, rs: Seq<QueryRecordView>) -> Seq<PropertyValueView>
    decreases rs.len(),
{
    if rs.len() == 0 {
        Seq::empty()
    } else {
        let prev = present_values(field, rs.drop_last());
        match field {
            Some(f) => if rs.last().fields.contains_key(f) {
                prev.push(rs.last().fields[f])
            } else {
                prev
            },
            None => prev,
        }
    }
}

/// Comparison used to pick a minimum or maximum: incomparable values count as equal.
pub open spec fn order_or_equal(a: PropertyValueView, b: PropertyValueView) -> KeyOrder {
    match value_order(a, b) {
        Some(o) => o,
        None => KeyOrder::Equal,
    }
}

/// The first of the smallest values.
pub open spec fn min_value(vals: Seq<PropertyValueView>) -> PropertyValueView
    decreases vals.len(),
{
    if vals.len() <= 1 {
        vals[0]
    } else {
        let acc = min_value(vals.drop_last());
        if order_or_equal(acc, vals.last()) == KeyOrder::Greater {
            vals.last()
        } else {
            acc
        }
    }
}

/// The last of the largest values.
pub open spec fn max_value(vals: Seq<PropertyValueView>) -> PropertyValueView
    decreases vals.len(),
{
    if vals.len() <= 1 {
        vals[0]
    } else {
        let acc = max_value(vals.drop_last());
        if order_or_equal(acc, vals.last()) == KeyOrder::Greater {
            acc
        } else {
            vals.last()
        }
    }
}

/// The number zero.
pub open spec fn zero_number() -> PropertyValueView {
    PropertyValueView::Number(0)
}

/// The number equal to a count.
pub open spec fn count_number(n: nat) -> PropertyValueView {
    PropertyValueView::Number(integer_number_bits(n) as u64)
}

/// The numbers held in an aggregation's field, in record order.
pub open spec fn numeric_values(field: Option<Seq<char>>, rs: Seq<QueryRecordView>) -> Seq<u64>
    decreases rs.len(),
{
    if rs.len() == 0 {
        Seq::empty()
    } else {
        let prev = numeric_values(field, rs.drop_last());
        match field {
            Some(f) => if rs.last().fields.contains_key(f) && rs.last().fields[f] is Number {
                prev.push(rs.last().fields[f]->Number_0)
            } else {
                prev
            },
            None => prev,
        }
    }
}

/// Why a record's value cannot be summed, if it cannot.
pub open spec fn numeric_reason(field: Seq<char>, v: PropertyValueView) -> Option<Seq<char>> {
    match v {
        PropertyValueView::Number(bits) => if is_finite(bits) {
            None
        } else {
            Some("aggregation field "@ + field + " is not finite"@)
        },
        _ => Some("aggregation field "@ + field + " is not numeric"@),
    }
}

/// The first record whose value in the field is not a finite number.
pub open spec fn numeric_failure(source: Seq<char>, field: Option<Seq<char>>, rs: Seq<QueryRecordView>) -> Option<
    QueryEngineErrorView,
>
    decreases rs.len(),
{
    if rs.len() == 0 {
        None
    } else {
        match numeric_failure(source, field, rs.drop_last()) {
            Some(e) => Some(e),
            None => match field {
                Some(f) => if rs.last().fields.contains_key(f) && numeric_reason(f, rs.last().fields[f]) is Some {
                    Some(
                        QueryEngineErrorView::InvalidSourceRecord {
                            source,
                            record_id: rs.last().record_id,
                            reason: numeric_reason(f, rs.last().fields[f]).unwrap(),
                        },
                    )
                } else {
                    None
                },
                None => None,
            },
        }
    }
}

/// Why an aggregation over a group fails: summing and averaging need finite numbers.
pub open spec fn aggregation_failure(source: Seq<char>, agg: AggregationSpecView, rs: Seq<QueryRecordView>) -> Option<
    QueryEngineErrorView,
> {
    match agg.function {
        AggregationFunction::Sum | AggregationFunction::Average => numeric_failure(source, agg.field, rs),
        _ => None,
    }
}

/// What an aggregation over a group yields: the count of records; the first
/// smallest or last largest value (zero without values); the count of
/// distinct canonical tokens; or, for sums and averages, a number computed in
/// floating point (an average of no values is zero).
pub open spec fn aggregation_value_ok(agg: AggregationSpecView, rs: Seq<QueryRecordView>, v: PropertyValueView) -> bool {
    let vals = present_values(agg.field, rs);
    match agg.function {
        AggregationFunction::Count => v == count_number(rs.len()),
        AggregationFunction::Min => v == if vals.len() == 0 {
            zero_number()
        } else {
            min_value(vals)
        },
        AggregationFunction::Max => v == if vals.len() == 0 {
            zero_number()
        } else {
            max_value(vals)
        },
        AggregationFunction::DistinctCount => v == count_number(vals.map_values(|x: PropertyValueView| value_token(x)).to_set().len()),
        AggregationFunction::Sum => v is Number,
        AggregationFunction::Average => v is Number && (numeric_values(agg.field, rs).len() == 0 ==> v == zero_number()),
    }
}

/// Floating-point arithmetic on numbers given by their IEEE 754 binary64 bit
/// patterns, supplied by the caller.
pub trait NumberAggregator {
    /// The sum of finite numbers, in order.
    fn sum(&self, values: &Vec<u64>) -> u64;

    /// The mean of a non-empty list of finite numbers: their sum divided by their count.
    fn average(&self, values: &Vec<u64>) -> u64;
}

/// The records of a group, by their positions among all records.
pub open spec fn picked(rs: Seq<QueryRecordView>, idxs: Seq<usize>) -> Seq<QueryRecordView> {
    idxs.map_values(|j: usize| rs[j as int])
}

proof fn lemma_picked_step(rs: Seq<QueryRecordView>, idxs: Seq<usize>, i: int)
    requires
        0 <= i < idxs.len(),
    ensures
        picked(rs, idxs.take(i + 1)) == picked(rs, idxs.take(i)).push(rs[idxs[i] as int]),
        picked(rs, idxs.take(i + 1)).drop_last() == picked(rs, idxs.take(i)),
        picked(rs, idxs.take(i + 1)).last() == rs[idxs[i] as int],
        picked(rs, idxs.take(i + 1)).len() == i + 1,
{
    assert(picked(rs, idxs.take(i + 1)) =~= picked(rs, idxs.take(i)).push(rs[idxs[i] as int]));
}

fn collect_present(field: &Option<String>, records: &Vec<QueryRecord>, members: &Vec<usize>) -> (r: Vec<PropertyValue>)
    requires
        forall|k: int| 0 <= k < members@.len() ==> members@[k] < records@.len(),
    ensures
        r@.map_values(|v: PropertyValue| v@) == present_values(
            crate::contracts::opt_view(*field),
            picked(record_views(records@), members@),
        ),
{
    let ghost rs = record_views(records@);
    let ghost f = crate::contracts::opt_view(*field);
    let mut out: Vec<PropertyValue> = Vec::new();
    let n = members.len();
    let mut i: usize = 0;
    proof {
        assert(members@.take(0) =~= Seq::<usize>::empty());
        assert(picked(rs, members@.take(0)) =~= Seq::<QueryRecordView>::empty());
        assert(out@.map_values(|v: PropertyValue| v@) =~= Seq::<PropertyValueView>::empty());
    }
    while i < n
        invariant
            n == members@.len(),
            forall|k: int| 0 <= k < members@.len() ==> members@[k] < records@.len(),
            rs == record_views(records@),
            f == crate::contracts::opt_view(*field),
            i <= n,
            out@.map_values(|v: PropertyValue| v@) == present_values(f, picked(rs, members@.take(i as int))),
        decreases n - i,
    {
        let ghost before = out@.map_values(|v: PropertyValue| v@);
        proof {
            lemma_picked_step(rs, members@, i as int);
        }
        let record = &records[members[i]];
        assert(record@ == rs[members@[i as int] as int]);
        match field {
            Some(name) => match record.fields.get(name) {
                Some(v) => {
                    out.push(v.clone());
                    assert(out@.map_values(|v: PropertyValue| v@) =~= before.push(record@.fields[name@]));
                },
                None => {},
            },
            None => {},
        }
        i = i + 1;
    }
    proof {
        assert(members@.take(n as int) =~= members@);
    }
    out
}

fn numeric_error(source: &crate::query_types::QuerySourceRef, record: &QueryRecord, field: &String, is_number: bool) -> (r:
    QueryEngineError)
    ensures
        r@ == (QueryEngineErrorView::InvalidSourceRecord {
            source: source@,
            record_id: record@.record_id,
            reason: "aggregation field "@ + field@ + if is_number {
                " is not numeric"@
            } else {
                " is not finite"@
            },
        }),
{
    let mut reason = String::from_str("aggregation field ");
    reason.append(field.as_str());
    if is_number {
        reason.append(" is not numeric");
    } else {
        reason.append(" is not finite");
    }
    QueryEngineError::InvalidSourceRecord { source: source.clone(), record_id: record.record_id.clone(), reason }
}

fn collect_numbers(
    source: &crate::query_types::QuerySourceRef,
    field: &Option<String>,
    records: &Vec<QueryRecord>,
    members: &Vec<usize>,
) -> (r: Result<Vec<u64>, QueryEngineError>)
    requires
        forall|k: int| 0 <= k < members@.len() ==> members@[k] < records@.len(),
    ensures
        ({
            let rs = picked(record_views(records@), members@);
            match numeric_failure(source@, crate::contracts::opt_view(*field), rs) {
                Some(e) => r matches Err(x) && x@ == e,
                None => r matches Ok(v) && v@ == numeric_values(crate::contracts::opt_view(*field), rs),
            }
        }),
{
    let ghost rs = record_views(records@);
    let ghost f = crate::contracts::opt_view(*field);
    let mut out: Vec<u64> = Vec::new();
    let n = members.len();
    let mut i: usize = 0;
    proof {
        assert(members@.take(0) =~= Seq::<usize>::empty());
        assert(picked(rs, members@.take(0)) =~= Seq::<QueryRecordView>::empty());
    }
    while i < n
        invariant
            n == members@.len(),
            forall|k: int| 0 <= k < members@.len() ==> members@[k] < records@.len(),
            rs == record_views(records@),
            f == crate::contracts::opt_view(*field),
            i <= n,
            numeric_failure(source@, f, picked(rs, members@.take(i as int))) is None,
            out@ == numeric_values(f, picked(rs, members@.take(i as int))),
        decreases n - i,
    {
        proof {
            lemma_picked_step(rs, members@, i as int);
        }
        let record = &records[members[i]];
        assert(record@ == rs[members@[i as int] as int]);
        match field {
            Some(name) => match record.fields.get(name) {
                Some(v) => match v {
                    PropertyValue::Number(bits) => {
                        if !number_is_finite(*bits) {
                            proof {
                                assert(members@.take(n as int) =~= members@);
                                lemma_failure_extends(source@, f, rs, members@, i as int + 1);
                            }
                            return Err(numeric_error(source, record, name, false));
                        }
                        out.push(*bits);
                    },
                    _ => {
                        proof {
                            assert(members@.take(n as int) =~= members@);
                            lemma_failure_extends(source@, f, rs, members@, i as int + 1);
                        }
                        return Err(numeric_error(source, record, name, true));
                    },
                },
                None => {},
            },
            None => {},
        }
        i = i + 1;
    }
    proof {
        assert(members@.take(n as int) =~= members@);
    }
    Ok(out)
}

/// A failure found in a prefix of a group is the group's failure.
proof fn lemma_failure_extends(
    source: Seq<char>,
    f: Option<Seq<char>>,
    rs: Seq<QueryRecordView>,
    idxs: Seq<usize>,
    i: int,
)
    requires
        0 <= i <= idxs.len(),
        numeric_failure(source, f, picked(rs, idxs.take(i))) is Some,
    ensures
        numeric_failure(source, f, picked(rs, idxs)) == numeric_failure(source, f, picked(rs, idxs.take(i))),
    decreases idxs.len() - i,
{
    if i < idxs.len() {
        lemma_picked_step(rs, idxs, i);
        lemma_failure_extends(source, f, rs, idxs, i + 1);
    } else {
        assert(idxs.take(i) =~= idxs);
    }
}

/// A strictly sorted sequence has as many distinct elements as positions.
proof fn lemma_sorted_len(s: Seq<Seq<char>>)
    requires
        strictly_sorted::<String>(s),
    ensures
        s.to_set().len() == s.len(),
{
    assert forall|i: int, j: int| 0 <= i < s.len() && 0 <= j < s.len() && i != j implies s[i] != s[j] by {
        if s[i] == s[j] {
            lemma_sorted_unique::<String>(s, i, j);
        }
    }
    assert(s.no_duplicates());
    s.unique_seq_to_set();
}

/// Returns the value of one aggregation over the records of a group.
pub fn evaluate_aggregation<N: NumberAggregator>(
    query: &QueryDefinition,
    aggregation: &AggregationSpec,
    records: &Vec<QueryRecord>,
    members: &Vec<usize>,
    numbers: &N,
) -> (r: Result<PropertyValue, QueryEngineError>)
    requires
        forall|k: int| 0 <= k < members@.len() ==> members@[k] < records@.len(),
    ensures
        ({
            let rs = picked(record_views(records@), members@);
            match aggregation_failure(query@.source, aggregation@, rs) {
                Some(e) => r matches Err(x) && x@ == e,
                None => r matches Ok(v) && aggregation_value_ok(aggregation@, rs, v@),
            }
        }),
        ({
            let rs = picked(record_views(records@), members@);
            let vals = numeric_values(aggregation@.field, rs);
            r matches Ok(v) ==> match aggregation.function {
                AggregationFunction::Sum => exists|handed: Vec<u64>, bits: u64|
                    #![trigger call_ensures(N::sum, (numbers, &handed), bits)]
                    handed@ == vals && v@ == PropertyValueView::Number(bits) && call_ensures(N::sum, (numbers, &handed), bits),
                AggregationFunction::Average => if vals.len() == 0 {
                    v@ == zero_number()
                } else {
                    exists|handed: Vec<u64>, bits: u64|
                        #![trigger call_ensures(N::average, (numbers, &handed), bits)]
                        handed@ == vals && v@ == PropertyValueView::Number(bits) && call_ensures(N::average, (numbers, &handed), bits)
                },
                _ => true,
            }
        }),
{
    let ghost rs = picked(record_views(records@), members@);
    match aggregation.function {
        AggregationFunction::Count => {
            let bits = integer_to_number(members.len() as u64);
            Ok(PropertyValue::Number(bits))
        },
        AggregationFunction::Sum => {
            let values = collect_numbers(&query.source, &aggregation.field, records, members)?;
            let sum = N::sum;
            let bits = sum(numbers, &values);
            Ok(PropertyValue::Number(bits))
        },
        AggregationFunction::Average => {
            let values = collect_numbers(&query.source, &aggregation.field, records, members)?;
            if values.len() == 0 {
                return Ok(PropertyValue::Number(0));
            }
            let average = N::average;
            let bits = average(numbers, &values);
            Ok(PropertyValue::Number(bits))
        },
        AggregationFunction::Min | AggregationFunction::Max => {
            let vals = collect_present(&aggregation.field, records, members);
            let ghost vv = vals@.map_values(|v: PropertyValue| v@);
            if vals.len() == 0 {
                return Ok(PropertyValue::Number(0));
            }
            let is_min = match aggregation.function {
                AggregationFunction::Min => true,
                _ => false,
            };
            let mut best: usize = 0;
            let n = vals.len();
            let mut k: usize = 1;
            proof {
                assert(vv.take(1).len() == 1);
                assert(vv.take(1)[0] == vv[0]);
            }
            while k < n
                invariant
                    n == vals@.len(),
                    vv == vals@.map_values(|v: PropertyValue| v@),
                    1 <= k <= n,
                    best < n,
                    is_min ==> vals@[best as int]@ == min_value(vv.take(k as int)),
                    !is_min ==> vals@[best as int]@ == max_value(vv.take(k as int)),
                decreases n - k,
            {
                let c = compare_property_values(&vals[best], &vals[k]);
                let greater = match c {
                    Some(KeyOrder::Greater) => true,
                    _ => false,
                };
                proof {
                    assert(vv.take(k + 1).drop_last() =~= vv.take(k as int));
                    assert(vv.take(k + 1).last() == vv[k as int]);
                }
                if is_min {
                    if greater {
                        best = k;
                    }
                } else {
                    if !greater {
                        best = k;
                    }
                }
                k = k + 1;
            }
            proof {
                assert(vv.take(n as int) =~= vv);
            }
            Ok(vals[best].clone())
        },
        AggregationFunction::DistinctCount => {
            let vals = collect_present(&aggregation.field, records, members);
            let ghost vv = vals@.map_values(|v: PropertyValue| v@);
            let ghost tokens = vv.map_values(|x: PropertyValueView| value_token(x));
            let mut seen: OrdSet<String> = OrdSet::new();
            let n = vals.len();
            let mut k: usize = 0;
            proof {
                assert(tokens.take(0).to_set() =~= Set::<Seq<char>>::empty());
            }
            while k < n
                invariant
                    n == vals@.len(),
                    vv == vals@.map_values(|v: PropertyValue| v@),
                    tokens == vv.map_values(|x: PropertyValueView| value_token(x)),
                    k <= n,
                    seen.as_set() == tokens.take(k as int).to_set(),
                decreases n - k,
            {
                let t = property_value_token(&vals[k]);
                seen.insert(t);
                proof {
                    assert(tokens.take(k + 1) =~= tokens.take(k as int).push(tokens[k as int]));
                    tokens.take(k as int).lemma_push_to_set_commute(tokens[k as int]);
                }
                k = k + 1;
            }
            proof {
                assert(tokens.take(n as int) =~= tokens);
                seen.lemma_shape();
                lemma_sorted_len(seen.keys());
            }
            let count = seen.len();
            let bits = integer_to_number(count as u64);
            Ok(PropertyValue::Number(bits))
        },
    }
}

/// The groups of records: for each group key, the group fields of its first
/// record and the positions of its records in order.
pub open spec fn bucket_map(query: QueryDefinitionView, rs: Seq<QueryRecordView>) -> Map<
    Seq<char>,
    (Map<Seq<char>, PropertyValueView>, Seq<usize>),
>
    decreases rs.len(),
{
    if rs.len() == 0 {
        Map::empty()
    } else {
        let prev = bucket_map(query, rs.drop_last());
        let i = (rs.len() - 1) as usize;
        let k = group_key(query, rs.last());
        if prev.contains_key(k) {
            prev.insert(k, (prev[k].0, prev[k].1.push(i)))
        } else {
            prev.insert(k, (group_fields(query, rs.last()), seq![i]))
        }
    }
}

/// The group fields with each aggregation's value stored under its alias, in order.
pub open spec fn with_aggregates(
    fields: Map<Seq<char>, PropertyValueView>,
    aggs: Seq<AggregationSpecView>,
    values: Seq<PropertyValueView>,
) -> Map<Seq<char>, PropertyValueView>
    decreases values.len(),
{
    if values.len() == 0 {
        fields
    } else {
        with_aggregates(fields, aggs, values.drop_last()).insert(aggs[values.len() - 1].alias, values.last())
    }
}

/// The first failing aggregation over a group.
pub open spec fn group_failure(source: Seq<char>, aggs: Seq<AggregationSpecView>, rs: Seq<QueryRecordView>) -> Option<
    QueryEngineErrorView,
>
    decreases aggs.len(),
{
    if aggs.len() == 0 {
        None
    } else {
        match group_failure(source, aggs.drop_last(), rs) {
            Some(e) => Some(e),
            None => aggregation_failure(source, aggs.last(), rs),
        }
    }
}

/// The first failure over the groups taken in the order of `keys`.
pub open spec fn groups_failure(
    query: QueryDefinitionView,
    rs: Seq<QueryRecordView>,
    buckets: Map<Seq<char>, (Map<Seq<char>, PropertyValueView>, Seq<usize>)>,
    keys: Seq<Seq<char>>,
) -> Option<QueryEngineErrorView>
    decreases keys.len(),
{
    if keys.len() == 0 {
        None
    } else {
        match groups_failure(query, rs, buckets, keys.drop_last()) {
            Some(e) => Some(e),
            None => group_failure(query.source, query.aggregations, picked(rs, buckets[keys.last()].1)),
        }
    }
}

/// The provenance of a computed item: the query's source, type `aggregate`,
/// the identities of the group's records, and the query.
pub open spec fn aggregate_provenance(query: QueryDefinitionView, ids: Set<Seq<char>>) -> ResultProvenanceView {
    ResultProvenanceView {
        source: query.source,
        source_record_type: Some("aggregate"@),
        source_record_ids: ids,
        query_definition: query,
        timestamps: Map::empty(),
        source_version: None,
        permission_scope: None,
        integrity: None,
        access_restriction: None,
    }
}

/// `item` is the computed item of the group under `key`: ordering key
/// `aggregate:` and the group key, the group fields with the aggregation
/// values, classification computed value, aggregate provenance.
pub open spec fn aggregate_item_ok(
    query: QueryDefinitionView,
    rs: Seq<QueryRecordView>,
    key: Seq<char>,
    bucket: (Map<Seq<char>, PropertyValueView>, Seq<usize>),
    item: QueryResultItemView,
) -> bool {
    let members = picked(rs, bucket.1);
    &&& item.ordering_key == seq!["aggregate:"@ + key]
    &&& item.classification == ResultClassification::ComputedValue
    &&& item.provenance == aggregate_provenance(query, members.map_values(|r: QueryRecordView| r.record_id).to_set())
    &&& exists|values: Seq<PropertyValueView>|
        {
            &&& values.len() == query.aggregations.len()
            &&& forall|j: int| 0 <= j < values.len() ==> aggregation_value_ok(query.aggregations[j], members, #[trigger] values[j])
            &&& item.fields == with_aggregates(bucket.0, query.aggregations, values)
        }
}

/// The outcome of aggregating with the groups visited in the order of `keys`.
pub open spec fn aggregate_outcome_ok(
    query: QueryDefinitionView,
    rs: Seq<QueryRecordView>,
    buckets: Map<Seq<char>, (Map<Seq<char>, PropertyValueView>, Seq<usize>)>,
    keys: Seq<Seq<char>>,
    r: Result<Vec<QueryResultItem>, QueryEngineError>,
) -> bool {
    match groups_failure(query, rs, buckets, keys) {
        Some(e) => r matches Err(x) && x@ == e,
        None => r matches Ok(items) && items@.len() == keys.len() && forall|i: int|
            0 <= i < keys.len() ==> #[trigger] aggregate_item_ok(query, rs, keys[i], buckets[keys[i]], items@[i]@),
    }
}

spec fn bucket_views(m: Map<Seq<char>, (OrdMap<String, PropertyValue>, Vec<usize>)>) -> Map<
    Seq<char>,
    (Map<Seq<char>, PropertyValueView>, Seq<usize>),
> {
    m.map_values(|b: (OrdMap<String, PropertyValue>, Vec<usize>)| (payload_view(b.0), b.1@))
}

proof fn lemma_group_failure_extends(source: Seq<char>, aggs: Seq<AggregationSpecView>, rs: Seq<QueryRecordView>, j: int)
    requires
        0 <= j <= aggs.len(),
        group_failure(source, aggs.take(j), rs) is Some,
    ensures
        group_failure(source, aggs, rs) == group_failure(source, aggs.take(j), rs),
    decreases aggs.len() - j,
{
    if j < aggs.len() {
        assert(aggs.take(j + 1).drop_last() =~= aggs.take(j));
        lemma_group_failure_extends(source, aggs, rs, j + 1);
    } else {
        assert(aggs.take(j) =~= aggs);
    }
}

proof fn lemma_groups_failure_extends(
    query: QueryDefinitionView,
    rs: Seq<QueryRecordView>,
    buckets: Map<Seq<char>, (Map<Seq<char>, PropertyValueView>, Seq<usize>)>,
    keys: Seq<Seq<char>>,
    i: int,
)
    requires
        0 <= i <= keys.len(),
        groups_failure(query, rs, buckets, keys.take(i)) is Some,
    ensures
        groups_failure(query, rs, buckets, keys) == groups_failure(query, rs, buckets, keys.take(i)),
    decreases keys.len() - i,
{
    if i < keys.len() {
        assert(keys.take(i + 1).drop_last() =~= keys.take(i));
        lemma_groups_failure_extends(query, rs, buckets, keys, i + 1);
    } else {
        assert(keys.take(i) =~= keys);
    }
}

/// Groups the records and returns one computed item per group, in ascending
/// order of group key.
pub fn aggregate_records<N: NumberAggregator>(query: &QueryDefinition, records: &Vec<QueryRecord>, numbers: &N) -> (r:
    Result<Vec<QueryResultItem>, QueryEngineError>)
    ensures
        exists|keys: Seq<Seq<char>>|
            {
                &&& strictly_sorted::<String>(keys)
                &&& keys.to_set() == bucket_map(query@, record_views(records@)).dom()
                &&& #[trigger] aggregate_outcome_ok(
                    query@,
                    record_views(records@),
                    bucket_map(query@, record_views(records@)),
                    keys,
                    r,
                )
            },
{
    let ghost rs = record_views(records@);
    let ghost q = query@;
    let mut buckets: OrdMap<String, (OrdMap<String, PropertyValue>, Vec<usize>)> = OrdMap::new();
    let n = records.len();
    let mut i: usize = 0;
    proof {
        assert(rs.take(0) =~= Seq::<QueryRecordView>::empty());
        assert(bucket_views(buckets.as_map()) =~= bucket_map(q, rs.take(0)));
    }
    while i < n
        invariant
            n == records@.len(),
            rs == record_views(records@),
            q == query@,
            i <= n,
            bucket_views(buckets.as_map()) == bucket_map(q, rs.take(i as int)),
            forall|k: Seq<char>, t: int|
                buckets.as_map().contains_key(k) && 0 <= t < buckets.as_map()[k].1@.len() ==> #[trigger] buckets.as_map()[k].1@[t]
                    < i,
        decreases n - i,
    {
        let (key, fields) = group_key_and_fields(query, &records[i]);
        let ghost before = buckets.as_map();
        proof {
            assert(rs.take(i + 1).drop_last() =~= rs.take(i as int));
            assert(rs.take(i + 1).last() == records@[i as int]@);
        }
        match buckets.remove(&key) {
            Some(entry) => {
                let (group, mut members) = entry;
                members.push(i);
                buckets.insert(key, (group, members));
            },
            None => {
                let mut members: Vec<usize> = Vec::new();
                members.push(i);
                buckets.insert(key, (fields, members));
            },
        }
        proof {
            assert(bucket_views(buckets.as_map()) =~= bucket_map(q, rs.take(i + 1)));
        }
        i = i + 1;
    }
    proof {
        assert(rs.take(n as int) =~= rs);
    }
    let ghost bm = bucket_map(q, rs);
    let ghost keys = buckets.keys();
    proof {
        buckets.lemma_shape();
        assert(keys.to_set() =~= bm.dom());
    }
    let mut items: Vec<QueryResultItem> = Vec::new();
    let count = buckets.len();
    let mut b: usize = 0;
    proof {
        assert(keys.take(0) =~= Seq::<Seq<char>>::empty());
    }
    while b < count
        invariant
            count == keys.len(),
            keys == buckets.keys(),
            rs == record_views(records@),
            q == query@,
            bm == bucket_map(q, rs),
            bm == bucket_views(buckets.as_map()),
            forall|k: Seq<char>, t: int|
                buckets.as_map().contains_key(k) && 0 <= t < buckets.as_map()[k].1@.len() ==> #[trigger] buckets.as_map()[k].1@[t]
                    < records@.len(),
            b <= count,
            items@.len() == b,
            groups_failure(q, rs, bm, keys.take(b as int)) is None,
            forall|t: int| 0 <= t < b ==> #[trigger] aggregate_item_ok(q, rs, keys[t], bm[keys[t]], items@[t]@),
            strictly_sorted::<String>(keys),
            keys.to_set() == bm.dom(),
        decreases count - b,
    {
        let key = buckets.key_at(b);
        let entry = buckets.value_at(b);
        proof {
            buckets.lemma_value_at(b as int);
        }
        let ghost kk = keys[b as int];
        let ghost bucket = bm[kk];
        let ghost members = picked(rs, bucket.1);
        assert(entry.1@ == bucket.1);
        let mut fields = crate::event_types::copy_values(&entry.0);
        let ghost mut values: Seq<PropertyValueView> = Seq::empty();
        let na = query.aggregations.len();
        let mut j: usize = 0;
        proof {
            assert(q.aggregations.take(0) =~= Seq::<AggregationSpecView>::empty());
        }
        while j < na
            invariant
                na == q.aggregations.len(),
                q == query@,
                rs == record_views(records@),
                members == picked(rs, entry.1@),
                forall|t: int| 0 <= t < entry.1@.len() ==> #[trigger] entry.1@[t] < records@.len(),
                j <= na,
                values.len() == j,
                forall|t: int| 0 <= t < j ==> aggregation_value_ok(q.aggregations[t], members, #[trigger] values[t]),
                payload_view(fields) == with_aggregates(payload_view(entry.0), q.aggregations, values),
                group_failure(q.source, q.aggregations.take(j as int), members) is None,
                b < count,
                count == keys.len(),
                kk == keys[b as int],
                bm == bucket_map(q, rs),
                bucket == bm[kk],
                bucket.1 == entry.1@,
                groups_failure(q, rs, bm, keys.take(b as int)) is None,
                strictly_sorted::<String>(keys),
                keys.to_set() == bm.dom(),
            decreases na - j,
        {
            let aggregation = &query.aggregations[j];
            assert(aggregation@ == q.aggregations[j as int]);
            proof {
                assert(q.aggregations.take(j + 1).drop_last() =~= q.aggregations.take(j as int));
            }
            match evaluate_aggregation(query, aggregation, records, &entry.1, numbers) {
                Ok(v) => {
                    let ghost old_values = values;
                    fields.insert(aggregation.alias.clone(), v);
                    proof {
                        values = values.push(v@);
                        assert(values.drop_last() =~= old_values);
                    }
                },
                Err(e) => {
                    proof {
                        lemma_group_failure_extends(q.source, q.aggregations, members, j + 1);
                        assert(keys.take(b + 1).drop_last() =~= keys.take(b as int));
                        lemma_groups_failure_extends(q, rs, bm, keys, b + 1);
                        assert(aggregate_outcome_ok(q, rs, bm, keys, Err(e)));
                    }
                    return Err(e);
                },
            }
            j = j + 1;
        }
        proof {
            assert(q.aggregations.take(na as int) =~= q.aggregations);
            assert(keys.take(b + 1).drop_last() =~= keys.take(b as int));
        }
        let mut ids: OrdSet<String> = OrdSet::new();
        let nm = entry.1.len();
        let mut t: usize = 0;
        let ghost id_seq = members.map_values(|r: QueryRecordView| r.record_id);
        proof {
            assert(id_seq.take(0).to_set() =~= Set::<Seq<char>>::empty());
        }
        while t < nm
            invariant
                nm == entry.1@.len(),
                members == picked(rs, entry.1@),
                rs == record_views(records@),
                id_seq == members.map_values(|r: QueryRecordView| r.record_id),
                forall|u: int| 0 <= u < entry.1@.len() ==> #[trigger] entry.1@[u] < records@.len(),
                t <= nm,
                ids.as_set() == id_seq.take(t as int).to_set(),
            decreases nm - t,
        {
            let rec = &records[entry.1[t]];
            ids.insert(rec.record_id.clone());
            proof {
                assert(id_seq.take(t + 1) =~= id_seq.take(t as int).push(id_seq[t as int]));
                id_seq.take(t as int).lemma_push_to_set_commute(id_seq[t as int]);
            }
            t = t + 1;
        }
        proof {
            assert(id_seq.take(nm as int) =~= id_seq);
        }
        let mut label = String::from_str("aggregate:");
        label.append(key.as_str());
        let provenance = ResultProvenance {
            source: query.source.clone(),
            source_record_type: Some(String::from_str("aggregate")),
            source_record_ids: ids,
            query_definition: query.clone(),
            timestamps: OrdMap::new(),
            source_version: None,
            permission_scope: None,
            integrity: None,
            access_restriction: None,
        };
        let item = QueryResultItem {
            ordering_key: StableOrderingKey::new(vec![label]),
            fields,
            classification: ResultClassification::ComputedValue,
            provenance,
        };
        proof {
            assert(crate::query_types::string_map_view(item.provenance.timestamps) =~= Map::<Seq<char>, Seq<char>>::empty());
            assert(item@.ordering_key =~= seq!["aggregate:"@ + kk]);
            assert(item@.provenance.source_record_ids == members.map_values(|r: QueryRecordView| r.record_id).to_set());
            assert(item@.provenance == aggregate_provenance(q, members.map_values(|r: QueryRecordView| r.record_id).to_set()));
            assert(bucket.0 == payload_view(entry.0));
            assert(item@.fields == with_aggregates(bucket.0, q.aggregations, values));
            assert(values.len() == q.aggregations.len());
            assert(aggregate_item_ok(q, rs, kk, bucket, item@));
        }
        items.push(item);
        b = b + 1;
    }
    proof {
        assert(keys.take(count as int) =~= keys);
        assert(aggregate_outcome_ok(q, rs, bm, keys, Ok(items)));
    }
    Ok(items)
}

} // verus!
