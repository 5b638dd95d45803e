//! Laws of the query predicates, the process transition graph, record
//! ordering and relation cardinality, stated over the operations' contracts.
use vstd::prelude::*;
use crate::contracts::PropertyValueView;
use crate::object_types::{ObjectRecordView, ObjectTypeDefinitionView};
use crate::object_validation::record_shape_failure;
use crate::process_errors::ProcessEngineErrorView;
use crate::process_types::ProcessDefinitionView;
use crate::process_validation::{first_edge, transition_name_outcome};
use crate::query_compare::value_order;
use crate::query_execution::{all_hold_from, any_holds_from, predicate_holds, record_order};
use crate::query_types::{Predicate, QueryRecordView, SortDirection};
use crate::text::KeyOrder;

verus! {

/// A negated predicate holds of a record exactly when the predicate does not.
pub proof fn law_not_negates(p: Predicate, fields: Map<Seq<char>, PropertyValueView>)
    ensures
        predicate_holds(Predicate::Not(Box::new(p)), fields) == !predicate_holds(p, fields),
{
}

proof fn lemma_all_from(children: Vec<Predicate>, fields: Map<Seq<char>, PropertyValueView>, i: int)
    requires
        0 <= i <= children@.len(),
    ensures
        all_hold_from(children, fields, i) <==> forall|k: int| i <= k < children@.len() ==> predicate_holds(
            #[trigger] children@[k],
            fields,
        ),
    decreases children@.len() - i,
{
    if i < children@.len() {
        lemma_all_from(children, fields, i + 1);
    }
}

proof fn lemma_any_from(children: Vec<Predicate>, fields: Map<Seq<char>, PropertyValueView>, i: int)
    requires
        0 <= i <= children@.len(),
    ensures
        any_holds_from(children, fields, i) <==> exists|k: int| i <= k < children@.len() && predicate_holds(
            #[trigger] children@[k],
            fields,
        ),
    decreases children@.len() - i,
{
    if i < children@.len() {
        lemma_any_from(children, fields, i + 1);
    }
}

/// A conjunction holds of a record exactly when every child holds.
pub proof fn law_and_needs_every_child(children: Vec<Predicate>, fields: Map<Seq<char>, PropertyValueView>)
    ensures
        predicate_holds(Predicate::And(children), fields) <==> forall|k: int|
            0 <= k < children@.len() ==> predicate_holds(#[trigger] children@[k], fields),
{
    lemma_all_from(children, fields, 0);
}

/// A disjunction holds of a record exactly when some child holds.
pub proof fn law_or_needs_some_child(children: Vec<Predicate>, fields: Map<Seq<char>, PropertyValueView>)
    ensures
        predicate_holds(Predicate::Or(children), fields) <==> exists|k: int|
            0 <= k < children@.len() && predicate_holds(#[trigger] children@[k], fields),
{
    lemma_any_from(children, fields, 0);
}

/// A range predicate's bounds are inclusive: a value equal to a bound is
/// inside; a value below the lower bound or above the upper bound is
/// outside, as is a record without the field.
pub proof fn law_range_bounds_are_inclusive(p: Predicate, fields: Map<Seq<char>, PropertyValueView>)
    ensures
        p matches Predicate::Range { field, lower, upper } ==> {
            &&& !fields.contains_key(field@) ==> !predicate_holds(p, fields)
            &&& fields.contains_key(field@) ==> {
                let x = fields[field@];
                &&& (lower matches Some(l) && value_order(x, l@) == Some(KeyOrder::Less)) ==> !predicate_holds(p, fields)
                &&& (upper matches Some(u) && value_order(x, u@) == Some(KeyOrder::Greater)) ==> !predicate_holds(p, fields)
                &&& ((lower matches Some(l) ==> value_order(x, l@) == Some(KeyOrder::Equal)) && (upper matches Some(u)
                    ==> value_order(x, u@) == Some(KeyOrder::Equal))) ==> predicate_holds(p, fields)
            }
        },
{
}

proof fn lemma_first_edge_is_first(ts: Seq<crate::process_types::ProcessTransitionView>, from: Seq<char>, to: Seq<char>, i: int)
    requires
        0 <= i < ts.len(),
        ts[i].from == from && ts[i].to == to,
        forall|j: int| 0 <= j < i ==> !(#[trigger] ts[j].from == from && ts[j].to == to),
    ensures
        first_edge(ts, from, to) == Some(i),
    decreases ts.len(),
{
    if ts.len() - 1 > i {
        lemma_first_edge_is_first(ts.drop_last(), from, to, i);
    } else {
        lemma_first_edge_none(ts.drop_last(), from, to);
    }
}

proof fn lemma_first_edge_none(ts: Seq<crate::process_types::ProcessTransitionView>, from: Seq<char>, to: Seq<char>)
    requires
        forall|j: int| 0 <= j < ts.len() ==> !(#[trigger] ts[j].from == from && ts[j].to == to),
    ensures
        first_edge(ts, from, to) is None,
    decreases ts.len(),
{
    if ts.len() > 0 {
        lemma_first_edge_none(ts.drop_last(), from, to);
    }
}

/// From a current node of the graph to a target node, a request is accepted
/// with the name of the first declared transition between them, and refused
/// as a missing edge when none is declared.
pub proof fn law_declared_edge_names_the_transition(d: ProcessDefinitionView, from: Seq<char>, to: Seq<char>)
    requires
        d.nodes.contains(from),
        d.nodes.contains(to),
    ensures
        forall|i: int|
            0 <= i < d.transitions.len() && #[trigger] d.transitions[i].from == from && d.transitions[i].to == to
                && (forall|j: int| 0 <= j < i ==> !(#[trigger] d.transitions[j].from == from && d.transitions[j].to == to))
                ==> transition_name_outcome(d, Some(from), to) == Ok::<Seq<char>, ProcessEngineErrorView>(
                d.transitions[i].name,
            ),
        (forall|j: int| 0 <= j < d.transitions.len() ==> !(#[trigger] d.transitions[j].from == from && d.transitions[j].to == to))
            ==> transition_name_outcome(d, Some(from), to) == Err::<Seq<char>, ProcessEngineErrorView>(
            ProcessEngineErrorView::NoSuchTransitionEdge { from: Some(from), to },
        ),
{
    assert forall|i: int|
        0 <= i < d.transitions.len() && #[trigger] d.transitions[i].from == from && d.transitions[i].to == to
            && (forall|j: int| 0 <= j < i ==> !(#[trigger] d.transitions[j].from == from && d.transitions[j].to == to))
            implies transition_name_outcome(d, Some(from), to) == Ok::<Seq<char>, ProcessEngineErrorView>(
            d.transitions[i].name,
        ) by {
        lemma_first_edge_is_first(d.transitions, from, to, i);
    }
    if forall|j: int| 0 <= j < d.transitions.len() ==> !(#[trigger] d.transitions[j].from == from && d.transitions[j].to == to) {
        lemma_first_edge_none(d.transitions, from, to);
    }
}

/// With a single sort key, a record whose value is greater sorts after the
/// other under `Ascending` and before it under `Descending`.
pub proof fn law_descending_puts_greater_first(a: QueryRecordView, b: QueryRecordView, field: Seq<char>)
    requires
        a.fields.contains_key(field),
        b.fields.contains_key(field),
        value_order(a.fields[field], b.fields[field]) == Some(KeyOrder::Greater),
    ensures
        record_order(a, b, seq![(field, SortDirection::Ascending)]) == KeyOrder::Greater,
        record_order(a, b, seq![(field, SortDirection::Descending)]) == KeyOrder::Less,
{
    reveal(record_order);
}

/// With a single sort key whose values differ, the `Descending` order of
/// two records is the reverse of their `Ascending` order.
pub proof fn law_descending_reverses_ascending(a: QueryRecordView, b: QueryRecordView, field: Seq<char>)
    requires
        crate::query_compare::opt_value_order(
            crate::query_execution::field_value(a.fields, field),
            crate::query_execution::field_value(b.fields, field),
        ) != KeyOrder::Equal,
    ensures
        record_order(a, b, seq![(field, SortDirection::Descending)]) == crate::query_compare::reversed(
            record_order(a, b, seq![(field, SortDirection::Ascending)]),
        ),
{
    reveal(record_order);
}

/// Whether a relation is of type `t`.
pub open spec fn of_type(t: Seq<char>) -> spec_fn((Seq<char>, Seq<char>)) -> bool {
    |x: (Seq<char>, Seq<char>)| x.0 == t
}

/// Records whose sort values compare equal keep the order of their stable
/// ordering keys, whatever the direction; a record without the sort field
/// comes first under `Ascending` and last under `Descending`.
pub proof fn law_ties_and_absent_values(a: QueryRecordView, b: QueryRecordView, field: Seq<char>, dir: SortDirection)
    ensures
        a.fields.contains_key(field) && b.fields.contains_key(field) && value_order(a.fields[field], b.fields[field])
            == Some(KeyOrder::Equal) ==> record_order(a, b, seq![(field, dir)]) == crate::query_compare::segments_order(
            a.ordering_key,
            b.ordering_key,
        ),
        !a.fields.contains_key(field) && b.fields.contains_key(field) ==> record_order(
            a,
            b,
            seq![(field, SortDirection::Ascending)],
        ) == KeyOrder::Less && record_order(a, b, seq![(field, SortDirection::Descending)]) == KeyOrder::Greater,
{
    reveal(record_order);
    reveal_with_fuel(crate::query_execution::sort_order_from, 2);
}

/// Without a current node, a request is accepted as `entry` exactly when
/// the target is an entry node of the graph; a target outside the graph is
/// a missing edge, and a current node outside the graph is an unknown state.
pub proof fn law_entry_and_unknown_nodes(d: ProcessDefinitionView, current: Option<Seq<char>>, to: Seq<char>)
    ensures
        current is None && d.nodes.contains(to) ==> (transition_name_outcome(d, current, to) is Ok
            <==> d.entry_nodes.contains(to)),
        current is None && d.nodes.contains(to) && d.entry_nodes.contains(to) ==> transition_name_outcome(d, current, to)
            == Ok::<Seq<char>, ProcessEngineErrorView>("entry"@),
        !d.nodes.contains(to) ==> transition_name_outcome(d, current, to) == Err::<Seq<char>, ProcessEngineErrorView>(
            ProcessEngineErrorView::NoSuchTransitionEdge { from: current, to },
        ),
        current matches Some(from) && d.nodes.contains(to) && !d.nodes.contains(from) ==> transition_name_outcome(
            d,
            current,
            to,
        ) == Err::<Seq<char>, ProcessEngineErrorView>(
            ProcessEngineErrorView::UnknownCurrentState { recorded_value: current.unwrap() },
        ),
{
}

/// The number of relations of a type in a sequence of relations.
pub open spec fn count_of_type(rels: Seq<(Seq<char>, Seq<char>)>, t: Seq<char>) -> nat {
    rels.filter(of_type(t)).len()
}

proof fn lemma_count_matches(rels: Seq<(Seq<char>, Seq<char>)>, t: Seq<char>, n: int)
    requires
        0 <= n <= rels.len(),
    ensures
        crate::object_validation::relation_count(rels, t, n) == count_of_type(rels.take(n), t),
    decreases n,
{
    if n > 0 {
        lemma_count_matches(rels, t, n - 1);
        assert(rels.take(n) =~= rels.take(n - 1).push(rels[n - 1]));
        rels.take(n - 1).lemma_filter_len_push(of_type(t), rels[n - 1]);
    } else {
        assert(rels.take(0) =~= Seq::<(Seq<char>, Seq<char>)>::empty());
        reveal(Seq::filter);
    }
}

proof fn lemma_cardinality_from(
    keys: Seq<Seq<char>>,
    defs: Seq<crate::object_types::RelationDefinitionView>,
    rels: Seq<(Seq<char>, Seq<char>)>,
    i: int,
)
    requires
        0 <= i,
        crate::object_validation::cardinality_failure_from(keys, defs, rels, i) is None,
    ensures
        forall|k: int|
            i <= k < keys.len() && k < defs.len() ==> {
                &&& count_of_type(rels, #[trigger] keys[k]) >= defs[k].cardinality.min
                &&& (defs[k].cardinality.max matches Some(m) ==> count_of_type(rels, keys[k]) <= m)
            },
    decreases keys.len() - i,
{
    if i < keys.len() {
        lemma_cardinality_from(keys, defs, rels, i + 1);
        lemma_count_matches(rels, keys[i], rels.len() as int);
        assert(rels.take(rels.len() as int) =~= rels);
    }
}

/// A record fits its Object Type only if, for every declared relation type,
/// it has at least the declared minimum of relations of that type, and at
/// most the declared maximum when one is given.
pub proof fn law_accepted_records_respect_cardinality(d: ObjectTypeDefinitionView, r: ObjectRecordView)
    requires
        record_shape_failure(d, r) is None,
    ensures
        forall|k: int|
            0 <= k < d.relation_keys.len() && k < d.relations.len() ==> {
                &&& count_of_type(r.relations, #[trigger] d.relation_keys[k]) >= d.relations[k].cardinality.min
                &&& (d.relations[k].cardinality.max matches Some(m) ==> count_of_type(r.relations, d.relation_keys[k])
                    <= m)
            },
{
    lemma_cardinality_from(d.relation_keys, d.relations, r.relations, 0);
}

proof fn lemma_no_unknown_field(keys: Seq<Seq<char>>, declared: Seq<Seq<char>>, i: int)
    requires
        0 <= i,
        crate::event_validation::unknown_field_from(keys, declared, i) is None,
    ensures
        forall|k: int| i <= k < keys.len() ==> declared.contains(#[trigger] keys[k]),
    decreases keys.len() - i,
{
    if i < keys.len() {
        lemma_no_unknown_field(keys, declared, i + 1);
    }
}

proof fn lemma_no_unknown_relation(rels: Seq<(Seq<char>, Seq<char>)>, declared: Seq<Seq<char>>, i: int)
    requires
        0 <= i,
        crate::object_validation::unknown_relation_from(rels, declared, i) is None,
    ensures
        forall|k: int| i <= k < rels.len() ==> declared.contains(#[trigger] rels[k].0),
    decreases rels.len() - i,
{
    if i < rels.len() {
        lemma_no_unknown_relation(rels, declared, i + 1);
    }
}

proof fn lemma_required_present(
    keys: Seq<Seq<char>>,
    props: Seq<crate::object_types::PropertyDefinitionView>,
    values: Map<Seq<char>, PropertyValueView>,
    i: int,
)
    requires
        0 <= i,
        crate::object_validation::declared_properties_failure_from(keys, props, values, i) is None,
    ensures
        forall|k: int| i <= k < keys.len() && k < props.len() && #[trigger] props[k].required ==> values.contains_key(keys[k]),
    decreases keys.len() - i,
{
    if i < keys.len() {
        lemma_required_present(keys, props, values, i + 1);
    }
}

/// A record fits its Object Type only if every property it holds and every
/// relation type it uses is declared, every required property is present,
/// its lifecycle state is not empty, and its owner and permission scope are
/// not empty.
pub proof fn law_accepted_records_are_declared(d: ObjectTypeDefinitionView, r: ObjectRecordView)
    requires
        record_shape_failure(d, r) is None,
    ensures
        forall|k: int| 0 <= k < r.property_keys.len() ==> d.property_keys.contains(#[trigger] r.property_keys[k]),
        forall|k: int|
            0 <= k < d.property_keys.len() && k < d.properties.len() && #[trigger] d.properties[k].required
                ==> r.properties.contains_key(d.property_keys[k]),
        forall|k: int| 0 <= k < r.relations.len() ==> d.relation_keys.contains(#[trigger] r.relations[k].0),
        r.lifecycle_state.len() > 0,
        r.owner.len() > 0,
        r.permission_scope.len() > 0,
{
    lemma_no_unknown_field(r.property_keys, d.property_keys, 0);
    lemma_required_present(d.property_keys, d.properties, r.properties, 0);
    lemma_no_unknown_relation(r.relations, d.relation_keys, 0);
}

} // verus!
