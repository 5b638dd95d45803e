//! Canonical query semantics: a length-prefixed byte encoding of query
//! definitions, stable ordering keys and semantic record fields. Two query
//! definitions are semantically equal exactly when their encodings are equal.
use vstd::prelude::*;
use vstd::utf8::encode_utf8;
use crate::collections::{OrdMap, OrdSet};
use crate::contracts::{canonical_encoding, opt_view, PropertyValue, PropertyValueView, Version};
use crate::query_compare::{property_value_token, value_token};
use crate::query_types::{
    AggregationFunction, AggregationSpecView, PartialResultPolicy, Predicate, PredicateView, PresentationType,
    QueryCompleteness, QueryDefinition, QueryDefinitionView, QueryResult, QueryResultItem, ResultClassification,
    ResultProvenance, SortDirection, StableOrderingKey, TemporalScope, TemporalScopeView,
    TraversalDirection, TraversalSpecView, predicate_view, opt_value_view,
};
use crate::text::{decimal, decimal_string};

verus! {

/// One token: the decimal byte length, a colon, the bytes and a semicolon.
pub open spec fn token_of(b: Seq<u8>) -> Seq<u8> {
    encode_utf8(decimal(b.len())) + seq![58u8] + b + seq![59u8]
}

/// The token of a text: its UTF-8 bytes as one token.
#[verifier::opaque]
pub open spec fn text_token(s: Seq<char>) -> Seq<u8> {
    token_of(encode_utf8(s))
}

/// The tokens of the texts, in order.
pub open spec fn text_tokens(s: Seq<Seq<char>>) -> Seq<u8>
    decreases s.len(),
{
    if s.len() == 0 {
        Seq::empty()
    } else {
        text_tokens(s.drop_last()) + text_token(s.last())
    }
}

/// An optional text: `some` and the text, or `none`.
pub open spec fn optional_text(v: Option<Seq<char>>) -> Seq<u8> {
    match v {
        Some(s) => text_token("some"@) + text_token(s),
        None => text_token("none"@),
    }
}

/// The encoding of a property value: its kind label, then its content.
pub open spec fn value_bytes(v: PropertyValueView) -> Seq<u8> {
    match v {
        PropertyValueView::Text { value, language } => text_token("text"@) + text_token(value) + optional_text(
            language,
        ),
        PropertyValueView::LocalizedTextKey(s) => text_token("localized-text-key"@) + text_token(s),
        PropertyValueView::Number(bits) => text_token("number"@) + text_token(decimal(bits as nat)),
        PropertyValueView::Boolean(b) => text_token("boolean"@) + text_token(
            if b {
                "true"@
            } else {
                "false"@
            },
        ),
        PropertyValueView::DateTime(s) => text_token("datetime"@) + text_token(s),
        PropertyValueView::EnumValue(s) => text_token("enum"@) + text_token(s),
        PropertyValueView::Reference(s) => text_token("reference"@) + text_token(s),
        PropertyValueView::AttachmentReference(s) => text_token("attachment-reference"@) + text_token(s),
        PropertyValueView::BinaryBlob(b) => text_token("binary"@) + token_of(b),
    }
}

/// An optional property value: `some` and the value, or `none`.
pub open spec fn optional_value(v: Option<PropertyValueView>) -> Seq<u8> {
    match v {
        Some(x) => text_token("some"@) + value_bytes(x),
        None => text_token("none"@),
    }
}

/// The encoding of a predicate tree, children in order.
pub open spec fn predicate_bytes(p: PredicateView) -> Seq<u8>
    decreases p, 1int,
{
    match p {
        PredicateView::AlwaysTrue => text_token("always-true"@),
        PredicateView::Equals { field, value } => text_token("equals"@) + text_token(field) + value_bytes(value),
        PredicateView::Exists { field } => text_token("exists"@) + text_token(field),
        PredicateView::Range { field, lower, upper } => text_token("range"@) + text_token(field) + optional_value(
            lower,
        ) + optional_value(upper),
        PredicateView::And(children) => text_token("and"@) + text_token(decimal(children.len()))
            + predicates_bytes(children),
        PredicateView::Or(children) => text_token("or"@) + text_token(decimal(children.len()))
            + predicates_bytes(children),
        PredicateView::Not(child) => text_token("not"@) + predicate_bytes(*child),
    }
}

/// The encodings of several predicates, in order.
pub open spec fn predicates_bytes(children: Seq<PredicateView>) -> Seq<u8>
    decreases children, 0int,
{
    if children.len() == 0 {
        Seq::empty()
    } else {
        predicates_bytes(children.drop_last()) + predicate_bytes(children.last())
    }
}

fn push_bytes(out: &mut Vec<u8>, b: &[u8])
    ensures
        final(out)@ == old(out)@ + b@,
{
    let ghost start = out@;
    let n = b.len();
    let mut i: usize = 0;
    while i < n
        invariant
            n == b@.len(),
            i <= n,
            out@ == start + b@.take(i as int),
        decreases n - i,
    {
        out.push(b[i]);
        i = i + 1;
        assert(out@ =~= start + b@.take(i as int));
    }
    assert(b@.take(n as int) =~= b@);
}

fn push_token(out: &mut Vec<u8>, b: &[u8])
    ensures
        final(out)@ == old(out)@ + token_of(b@),
{
    let ghost start = out@;
    let len = b.len();
    let digits = decimal_string(len as u64);
    push_bytes(out, digits.as_str().as_bytes());
    out.push(58u8);
    push_bytes(out, b);
    out.push(59u8);
    assert(out@ =~= start + token_of(b@));
}

fn push_text(out: &mut Vec<u8>, s: &str)
    ensures
        final(out)@ == old(out)@ + text_token(s@),
{
    reveal(text_token);
    push_token(out, s.as_bytes());
}

fn push_decimal(out: &mut Vec<u8>, n: u64)
    ensures
        final(out)@ == old(out)@ + text_token(decimal(n as nat)),
{
    let digits = decimal_string(n);
    push_text(out, digits.as_str());
}

fn push_optional_text(out: &mut Vec<u8>, v: &Option<String>)
    ensures
        final(out)@ == old(out)@ + optional_text(crate::contracts::opt_view(*v)),
{
    let ghost start = out@;
    match v {
        Some(s) => {
            push_text(out, "some");
            push_text(out, s.as_str());
        },
        None => push_text(out, "none"),
    }
    assert(out@ =~= start + optional_text(crate::contracts::opt_view(*v)));
}

fn push_value(out: &mut Vec<u8>, v: &PropertyValue)
    ensures
        final(out)@ == old(out)@ + value_bytes(v@),
{
    let ghost start = out@;
    match v {
        PropertyValue::Text { value, language } => {
            push_text(out, "text");
            push_text(out, value.as_str());
            push_optional_text(out, language);
        },
        PropertyValue::LocalizedTextKey(s) => {
            push_text(out, "localized-text-key");
            push_text(out, s.as_str());
        },
        PropertyValue::Number(bits) => {
            push_text(out, "number");
            push_decimal(out, *bits);
        },
        PropertyValue::Boolean(b) => {
            push_text(out, "boolean");
            if *b {
                push_text(out, "true");
            } else {
                push_text(out, "false");
            }
        },
        PropertyValue::DateTime(s) => {
            push_text(out, "datetime");
            push_text(out, s.as_str());
        },
        PropertyValue::EnumValue(s) => {
            push_text(out, "enum");
            push_text(out, s.as_str());
        },
        PropertyValue::Reference(id) => {
            push_text(out, "reference");
            push_text(out, id.as_str());
        },
        PropertyValue::AttachmentReference(s) => {
            push_text(out, "attachment-reference");
            push_text(out, s.as_str());
        },
        PropertyValue::BinaryBlob(b) => {
            push_text(out, "binary");
            push_token(out, b.as_slice());
        },
    }
    assert(out@ =~= start + value_bytes(v@));
}

fn push_optional_value(out: &mut Vec<u8>, v: &Option<PropertyValue>)
    ensures
        final(out)@ == old(out)@ + optional_value(opt_value_view(*v)),
{
    let ghost start = out@;
    match v {
        Some(x) => {
            push_text(out, "some");
            push_value(out, x);
        },
        None => push_text(out, "none"),
    }
    assert(out@ =~= start + optional_value(opt_value_view(*v)));
}

fn push_predicate(out: &mut Vec<u8>, p: &Predicate)
    ensures
        final(out)@ == old(out)@ + predicate_bytes(predicate_view(*p)),
    decreases p,
{
    let ghost start = out@;
    match p {
        Predicate::AlwaysTrue => push_text(out, "always-true"),
        Predicate::Equals { field, value } => {
            push_text(out, "equals");
            push_text(out, field.as_str());
            push_value(out, value);
        },
        Predicate::Exists { field } => {
            push_text(out, "exists");
            push_text(out, field.as_str());
        },
        Predicate::Range { field, lower, upper } => {
            push_text(out, "range");
            push_text(out, field.as_str());
            push_optional_value(out, lower);
            push_optional_value(out, upper);
        },
        Predicate::And(children) => {
            push_text(out, "and");
            push_decimal(out, children.len() as u64);
            push_predicates(out, children);
        },
        Predicate::Or(children) => {
            push_text(out, "or");
            push_decimal(out, children.len() as u64);
            push_predicates(out, children);
        },
        Predicate::Not(child) => {
            push_text(out, "not");
            push_predicate(out, child);
        },
    }
    proof {
        match p {
            Predicate::And(children) => {
                assert(predicate_view(*p)->And_0 =~= children@.map_values(|c: Predicate| predicate_view(c)));
            },
            Predicate::Or(children) => {
                assert(predicate_view(*p)->Or_0 =~= children@.map_values(|c: Predicate| predicate_view(c)));
            },
            _ => {},
        }
    }
    assert(out@ =~= start + predicate_bytes(predicate_view(*p)));
}

fn push_predicates(out: &mut Vec<u8>, children: &Vec<Predicate>)
    ensures
        final(out)@ == old(out)@ + predicates_bytes(children@.map_values(|c: Predicate| predicate_view(c))),
    decreases children,
{
    let ghost start = out@;
    let ghost views = children@.map_values(|c: Predicate| predicate_view(c));
    let n = children.len();
    let mut i: usize = 0;
    proof {
        assert(views.take(0) =~= Seq::<PredicateView>::empty());
    }
    while i < n
        invariant
            n == children@.len(),
            views == children@.map_values(|c: Predicate| predicate_view(c)),
            i <= n,
            out@ == start + predicates_bytes(views.take(i as int)),
        decreases n - i,
    {
        proof {
            assert(decreases_to!(children => children[i as int]));
        }
        push_predicate(out, &children[i]);
        proof {
            assert(views.take(i + 1).drop_last() =~= views.take(i as int));
        }
        i = i + 1;
    }
    proof {
        assert(views.take(n as int) =~= views);
    }
}

/// The encoding of a temporal scope.
pub open spec fn temporal_bytes(t: TemporalScopeView) -> Seq<u8> {
    text_token("temporal"@) + match t {
        TemporalScopeView::Current => text_token("current"@),
        TemporalScopeView::PointInTime { at } => text_token("point"@) + text_token(at),
        TemporalScopeView::TimeRange { from, to } => text_token("range"@) + optional_text(from) + optional_text(to),
        TemporalScopeView::AllHistory => text_token("all-history"@),
    }
}

/// The encoding of an optional predicate.
pub open spec fn optional_predicate_bytes(p: Option<PredicateView>) -> Seq<u8> {
    text_token("predicate"@) + match p {
        Some(x) => text_token("some"@) + predicate_bytes(x),
        None => text_token("none"@),
    }
}

/// The encoding of a projection: all fields, or the selected fields in order.
pub open spec fn projection_bytes(p: Option<Seq<Seq<char>>>) -> Seq<u8> {
    text_token("projection"@) + match p {
        None => text_token("all-fields"@),
        Some(fields) => text_token("selected-fields"@) + text_tokens(fields),
    }
}

/// The label of a sort direction.
pub open spec fn direction_label(d: SortDirection) -> Seq<char> {
    match d {
        SortDirection::Ascending => "ascending"@,
        SortDirection::Descending => "descending"@,
    }
}

/// The encodings of sort keys, in order.
pub open spec fn sort_keys_bytes(s: Seq<(Seq<char>, SortDirection)>) -> Seq<u8>
    decreases s.len(),
{
    if s.len() == 0 {
        Seq::empty()
    } else {
        sort_keys_bytes(s.drop_last()) + text_token(s.last().0) + text_token(direction_label(s.last().1))
    }
}

/// The encoding of the sort: its length, then each key and direction.
pub open spec fn sort_bytes(s: Seq<(Seq<char>, SortDirection)>) -> Seq<u8> {
    text_token("sort"@) + text_token(decimal(s.len())) + sort_keys_bytes(s)
}

/// The encoding of an optional grouping.
pub open spec fn group_bytes(g: Option<Seq<Seq<char>>>) -> Seq<u8> {
    text_token("group"@) + match g {
        Some(fields) => text_token("some"@) + text_tokens(fields),
        None => text_token("none"@),
    }
}

/// The label of an aggregation function.
pub open spec fn function_label(f: AggregationFunction) -> Seq<char> {
    match f {
        AggregationFunction::Count => "count"@,
        AggregationFunction::Sum => "sum"@,
        AggregationFunction::Average => "average"@,
        AggregationFunction::Min => "min"@,
        AggregationFunction::Max => "max"@,
        AggregationFunction::DistinctCount => "distinct-count"@,
    }
}

/// The encodings of aggregations, in order.
pub open spec fn aggregation_items_bytes(s: Seq<AggregationSpecView>) -> Seq<u8>
    decreases s.len(),
{
    if s.len() == 0 {
        Seq::empty()
    } else {
        aggregation_items_bytes(s.drop_last()) + text_token(function_label(s.last().function)) + optional_text(
            s.last().field,
        ) + text_token(s.last().alias)
    }
}

/// The encoding of the aggregations: their number, then each one.
pub open spec fn aggregations_bytes(s: Seq<AggregationSpecView>) -> Seq<u8> {
    text_token("aggregations"@) + text_token(decimal(s.len())) + aggregation_items_bytes(s)
}

/// The label of a traversal direction.
pub open spec fn traversal_label(d: TraversalDirection) -> Seq<char> {
    match d {
        TraversalDirection::Outbound => "outbound"@,
        TraversalDirection::Inbound => "inbound"@,
        TraversalDirection::Both => "both"@,
    }
}

/// The encoding of an optional traversal.
pub open spec fn traversal_bytes(t: Option<TraversalSpecView>) -> Seq<u8> {
    text_token("traversal"@) + match t {
        Some(x) => text_token("some"@) + text_token(traversal_label(x.direction)) + text_token(
            decimal(x.max_depth as nat),
        ) + text_tokens(x.relation_types),
        None => text_token("none"@),
    }
}

/// The label of a partial-result policy.
pub open spec fn policy_label(p: PartialResultPolicy) -> Seq<char> {
    match p {
        PartialResultPolicy::RejectPartial => "reject-partial"@,
        PartialResultPolicy::AllowIncomplete => "allow-incomplete"@,
    }
}

/// The label of a presentation type.
pub open spec fn presentation_label(p: PresentationType) -> Seq<char> {
    match p {
        PresentationType::RecordSet => "record-set"@,
        PresentationType::LinkedObjectView => "linked-object-view"@,
        PresentationType::Timeline => "timeline"@,
        PresentationType::ChartReadySeries => "chart-ready-series"@,
        PresentationType::Matrix => "matrix"@,
        PresentationType::DocumentReferenceSet => "document-reference-set"@,
        PresentationType::EvidencePackage => "evidence-package"@,
    }
}

/// The canonical encoding of a query definition: source, temporal scope,
/// predicate, projection, sort, grouping, aggregations, traversal,
/// partial-result policy and presentation type. Execution limits are not
/// part of a query's semantics.
#[verifier::opaque]
pub open spec fn query_bytes(q: QueryDefinitionView) -> Seq<u8> {
    text_token("query"@) + text_token(q.source) + temporal_bytes(q.temporal_scope) + optional_predicate_bytes(
        q.predicate,
    ) + projection_bytes(q.projection) + sort_bytes(q.sort) + group_bytes(q.group) + aggregations_bytes(
        q.aggregations,
    ) + traversal_bytes(q.traversal) + text_token(policy_label(q.partial_result_policy)) + text_token(
        presentation_label(q.presentation_type),
    )
}

fn push_texts(out: &mut Vec<u8>, items: &crate::collections::OrdSet<String>)
    ensures
        final(out)@ == old(out)@ + text_tokens(items.keys()),
{
    let ghost start = out@;
    let ghost keys = items.keys();
    proof {
        items.lemma_shape();
        assert(keys.take(0) =~= Seq::<Seq<char>>::empty());
    }
    let n = items.len();
    let mut i: usize = 0;
    while i < n
        invariant
            n == keys.len(),
            keys == items.keys(),
            i <= n,
            out@ == start + text_tokens(keys.take(i as int)),
        decreases n - i,
    {
        let item = items.item_at(i);
        push_text(out, item.as_str());
        proof {
            assert(keys.take(i + 1).drop_last() =~= keys.take(i as int));
        }
        i = i + 1;
    }
    proof {
        assert(keys.take(n as int) =~= keys);
    }
}

fn push_temporal(out: &mut Vec<u8>, t: &TemporalScope)
    ensures
        final(out)@ == old(out)@ + temporal_bytes(t@),
{
    let ghost start = out@;
    push_text(out, "temporal");
    match t {
        TemporalScope::Current => push_text(out, "current"),
        TemporalScope::PointInTime { at } => {
            push_text(out, "point");
            push_text(out, at.as_str());
        },
        TemporalScope::TimeRange { from, to } => {
            push_text(out, "range");
            push_optional_text(out, from);
            push_optional_text(out, to);
        },
        TemporalScope::AllHistory => push_text(out, "all-history"),
    }
    assert(out@ =~= start + temporal_bytes(t@));
}

fn direction_text(d: SortDirection) -> (r: &'static str)
    ensures
        r@ == direction_label(d),
{
    match d {
        SortDirection::Ascending => "ascending",
        SortDirection::Descending => "descending",
    }
}

fn function_text(f: AggregationFunction) -> (r: &'static str)
    ensures
        r@ == function_label(f),
{
    match f {
        AggregationFunction::Count => "count",
        AggregationFunction::Sum => "sum",
        AggregationFunction::Average => "average",
        AggregationFunction::Min => "min",
        AggregationFunction::Max => "max",
        AggregationFunction::DistinctCount => "distinct-count",
    }
}

fn traversal_text(d: TraversalDirection) -> (r: &'static str)
    ensures
        r@ == traversal_label(d),
{
    match d {
        TraversalDirection::Outbound => "outbound",
        TraversalDirection::Inbound => "inbound",
        TraversalDirection::Both => "both",
    }
}

fn policy_text(p: PartialResultPolicy) -> (r: &'static str)
    ensures
        r@ == policy_label(p),
{
    match p {
        PartialResultPolicy::RejectPartial => "reject-partial",
        PartialResultPolicy::AllowIncomplete => "allow-incomplete",
    }
}

fn presentation_text(p: PresentationType) -> (r: &'static str)
    ensures
        r@ == presentation_label(p),
{
    match p {
        PresentationType::RecordSet => "record-set",
        PresentationType::LinkedObjectView => "linked-object-view",
        PresentationType::Timeline => "timeline",
        PresentationType::ChartReadySeries => "chart-ready-series",
        PresentationType::Matrix => "matrix",
        PresentationType::DocumentReferenceSet => "document-reference-set",
        PresentationType::EvidencePackage => "evidence-package",
    }
}

fn push_sort(out: &mut Vec<u8>, sort: &Vec<crate::query_types::SortSpec>)
    ensures
        final(out)@ == old(out)@ + sort_bytes(crate::query_types::seq_view(sort@)),
{
    let ghost start = out@;
    let ghost views = crate::query_types::seq_view(sort@);
    push_text(out, "sort");
    push_decimal(out, sort.len() as u64);
    let ghost mid = out@;
    let n = sort.len();
    let mut i: usize = 0;
    proof {
        assert(views.take(0) =~= Seq::<(Seq<char>, SortDirection)>::empty());
    }
    while i < n
        invariant
            n == sort@.len(),
            views == crate::query_types::seq_view(sort@),
            i <= n,
            out@ == mid + sort_keys_bytes(views.take(i as int)),
        decreases n - i,
    {
        push_text(out, sort[i].field.as_str());
        push_text(out, direction_text(sort[i].direction));
        proof {
            assert(views.take(i + 1).drop_last() =~= views.take(i as int));
        }
        i = i + 1;
    }
    proof {
        assert(views.take(n as int) =~= views);
    }
    assert(out@ =~= start + sort_bytes(views));
}

fn push_aggregations(out: &mut Vec<u8>, aggregations: &Vec<crate::query_types::AggregationSpec>)
    ensures
        final(out)@ == old(out)@ + aggregations_bytes(crate::query_types::seq_view(aggregations@)),
{
    let ghost start = out@;
    let ghost views = crate::query_types::seq_view(aggregations@);
    push_text(out, "aggregations");
    push_decimal(out, aggregations.len() as u64);
    let ghost mid = out@;
    let n = aggregations.len();
    let mut i: usize = 0;
    proof {
        assert(views.take(0) =~= Seq::<AggregationSpecView>::empty());
    }
    while i < n
        invariant
            n == aggregations@.len(),
            views == crate::query_types::seq_view(aggregations@),
            i <= n,
            out@ == mid + aggregation_items_bytes(views.take(i as int)),
        decreases n - i,
    {
        push_text(out, function_text(aggregations[i].function));
        push_optional_text(out, &aggregations[i].field);
        push_text(out, aggregations[i].alias.as_str());
        proof {
            assert(views.take(i + 1).drop_last() =~= views.take(i as int));
        }
        i = i + 1;
    }
    proof {
        assert(views.take(n as int) =~= views);
    }
    assert(out@ =~= start + aggregations_bytes(views));
}

fn push_optional_predicate(out: &mut Vec<u8>, p: &Option<Predicate>)
    ensures
        final(out)@ == old(out)@ + optional_predicate_bytes(crate::query_types::opt_predicate_view(*p)),
{
    let ghost start = out@;
    push_text(out, "predicate");
    match p {
        Some(x) => {
            push_text(out, "some");
            push_predicate(out, x);
        },
        None => push_text(out, "none"),
    }
    assert(out@ =~= start + optional_predicate_bytes(crate::query_types::opt_predicate_view(*p)));
}

fn push_projection(out: &mut Vec<u8>, p: &crate::query_types::Projection)
    ensures
        final(out)@ == old(out)@ + projection_bytes(p@),
{
    let ghost start = out@;
    push_text(out, "projection");
    match p {
        crate::query_types::Projection::AllFields => push_text(out, "all-fields"),
        crate::query_types::Projection::SelectedFields(fields) => {
            push_text(out, "selected-fields");
            push_texts(out, fields);
        },
    }
    assert(out@ =~= start + projection_bytes(p@));
}

fn push_group(out: &mut Vec<u8>, g: &Option<crate::query_types::GroupSpec>)
    ensures
        final(out)@ == old(out)@ + group_bytes(
            match *g {
                Some(x) => Some(x.fields.keys()),
                None => None,
            },
        ),
{
    let ghost start = out@;
    push_text(out, "group");
    match g {
        Some(x) => {
            push_text(out, "some");
            push_texts(out, &x.fields);
        },
        None => push_text(out, "none"),
    }
    assert(out@ =~= start + group_bytes(
        match *g {
            Some(x) => Some(x.fields.keys()),
            None => None,
        },
    ));
}

fn push_traversal(out: &mut Vec<u8>, t: &Option<crate::query_types::TraversalSpec>)
    ensures
        final(out)@ == old(out)@ + traversal_bytes(
            match *t {
                Some(x) => Some(x@),
                None => None,
            },
        ),
{
    let ghost start = out@;
    push_text(out, "traversal");
    match t {
        Some(x) => {
            push_text(out, "some");
            push_text(out, traversal_text(x.direction));
            push_decimal(out, x.max_depth as u64);
            push_texts(out, &x.relation_types);
        },
        None => push_text(out, "none"),
    }
    assert(out@ =~= start + traversal_bytes(
        match *t {
            Some(x) => Some(x@),
            None => None,
        },
    ));
}

/// Encodes a query definition into its canonical bytes.
pub fn canonical_query_bytes(query: &QueryDefinition) -> (r: Vec<u8>)
    ensures
        r@ == query_bytes(query@),
{
    let mut out: Vec<u8> = Vec::new();
    push_text(&mut out, "query");
    push_text(&mut out, query.source.as_str());
    push_temporal(&mut out, &query.temporal_scope);
    push_optional_predicate(&mut out, &query.predicate);
    push_projection(&mut out, &query.projection);
    push_sort(&mut out, &query.sort);
    push_group(&mut out, &query.group);
    push_aggregations(&mut out, &query.aggregations);
    push_traversal(&mut out, &query.traversal);
    push_text(&mut out, policy_text(query.partial_result_policy));
    push_text(&mut out, presentation_text(query.presentation_type));
    assert(out@ =~= query_bytes(query@)) by {
        reveal(query_bytes);
    }
    out
}

/// Selected fields with the same contents encode the same way, whatever order
/// they were inserted in.
pub proof fn law_selected_fields_encode_by_contents(a: &OrdSet<String>, b: &OrdSet<String>)
    requires
        a.as_set() == b.as_set(),
    ensures
        projection_bytes(Some(a.keys())) == projection_bytes(Some(b.keys())),
{
    a.law_order_determined_by_contents(b);
}

/// Reports whether two query definitions are semantically identical: whether
/// their canonical encodings are equal.
pub fn semantic_query_equal(left: &QueryDefinition, right: &QueryDefinition) -> (r: bool)
    ensures
        r == (query_bytes(left@) == query_bytes(right@)),
{
    let a = canonical_query_bytes(left);
    let b = canonical_query_bytes(right);
    bytes_equal(&a, &b)
}

fn bytes_equal(a: &Vec<u8>, b: &Vec<u8>) -> (r: bool)
    ensures
        r == (a@ == b@),
{
    if a.len() != b.len() {
        return false;
    }
    let n = a.len();
    let mut i: usize = 0;
    while i < n
        invariant
            n == a@.len(),
            n == b@.len(),
            i <= n,
            forall|j: int| 0 <= j < i ==> a@[j] == b@[j],
        decreases n - i,
    {
        if a[i] != b[i] {
            return false;
        }
        i = i + 1;
    }
    assert(a@ =~= b@);
    true
}

/// The encoding of a stable ordering key: its segment count, then each segment.
pub open spec fn ordering_key_bytes(key: Seq<Seq<char>>) -> Seq<u8> {
    text_token("stable-ordering-key"@) + text_token(decimal(key.len())) + text_tokens(key)
}

/// The encodings of named field values, in the given order.
pub open spec fn fields_bytes(names: Seq<Seq<char>>, values: Seq<PropertyValueView>) -> Seq<u8>
    decreases names.len(),
{
    if names.len() == 0 {
        Seq::empty()
    } else {
        fields_bytes(names.drop_last(), values.drop_last()) + text_token("field"@) + text_token(names.last())
            + value_bytes(values.last())
    }
}

/// The canonical encoding of a semantic record: its stable ordering key, then
/// each field in ascending name order. Nothing else about a record enters it.
pub open spec fn semantic_record_bytes(
    key: Seq<Seq<char>>,
    names: Seq<Seq<char>>,
    values: Seq<PropertyValueView>,
) -> Seq<u8> {
    text_token("semantic-record"@) + ordering_key_bytes(key) + fields_bytes(names, values)
}

/// The values of an ordered field map, each by its view.
pub open spec fn value_views(fields: OrdMap<String, PropertyValue>) -> Seq<PropertyValueView> {
    fields.values().map_values(|v: PropertyValue| v@)
}

fn push_ordering_key(out: &mut Vec<u8>, key: &StableOrderingKey)
    ensures
        final(out)@ == old(out)@ + ordering_key_bytes(key@),
{
    let ghost start = out@;
    let segments = key.segments();
    let ghost views = key@;
    push_text(out, "stable-ordering-key");
    push_decimal(out, segments.len() as u64);
    let ghost mid = out@;
    let n = segments.len();
    let mut i: usize = 0;
    proof {
        assert(views.take(0) =~= Seq::<Seq<char>>::empty());
    }
    while i < n
        invariant
            n == segments@.len(),
            views == crate::query_types::strings_view(segments@),
            i <= n,
            out@ == mid + text_tokens(views.take(i as int)),
        decreases n - i,
    {
        push_text(out, segments[i].as_str());
        proof {
            assert(views.take(i + 1).drop_last() =~= views.take(i as int));
        }
        i = i + 1;
    }
    proof {
        assert(views.take(n as int) =~= views);
    }
    assert(out@ =~= start + ordering_key_bytes(key@));
}

/// Encodes a stable ordering key and semantic fields into canonical bytes.
pub fn canonical_semantic_record_bytes(ordering_key: &StableOrderingKey, fields: &OrdMap<String, PropertyValue>) -> (r:
    Vec<u8>)
    ensures
        r@ == semantic_record_bytes(ordering_key@, fields.keys(), value_views(*fields)),
{
    let mut out: Vec<u8> = Vec::new();
    push_text(&mut out, "semantic-record");
    push_ordering_key(&mut out, ordering_key);
    let ghost mid = out@;
    let ghost names = fields.keys();
    let ghost values = value_views(*fields);
    proof {
        fields.lemma_shape();
        assert(names.take(0) =~= Seq::<Seq<char>>::empty());
    }
    let n = fields.len();
    let mut i: usize = 0;
    while i < n
        invariant
            n == names.len(),
            names == fields.keys(),
            values == value_views(*fields),
            fields.keys().len() == fields.values().len(),
            i <= n,
            out@ == mid + fields_bytes(names.take(i as int), values.take(i as int)),
        decreases n - i,
    {
        push_text(&mut out, "field");
        push_text(&mut out, fields.key_at(i).as_str());
        push_value(&mut out, fields.value_at(i));
        proof {
            assert(names.take(i + 1).drop_last() =~= names.take(i as int));
            assert(values.take(i + 1).drop_last() =~= values.take(i as int));
        }
        i = i + 1;
    }
    proof {
        assert(names.take(n as int) =~= names);
        assert(values.take(n as int) =~= values);
    }
    assert(out@ =~= semantic_record_bytes(ordering_key@, fields.keys(), value_views(*fields)));
    out
}

/// The label of a result classification.
pub open spec fn classification_label(c: ResultClassification) -> Seq<char> {
    match c {
        ResultClassification::SourceFact => "source-fact"@,
        ResultClassification::ComputedValue => "computed-value"@,
        ResultClassification::StatisticalCorrelation => "statistical-correlation"@,
        ResultClassification::AiGeneratedHypothesis => "ai-generated-hypothesis"@,
        ResultClassification::HumanApprovedConclusion => "human-approved-conclusion"@,
    }
}

/// The encodings of named values as value tokens, in order.
pub open spec fn value_tokens_bytes(names: Seq<Seq<char>>, values: Seq<PropertyValueView>) -> Seq<u8>
    decreases names.len(),
{
    if names.len() == 0 {
        Seq::empty()
    } else {
        value_tokens_bytes(names.drop_last(), values.drop_last()) + text_token(names.last()) + text_token(
            value_token(values.last()),
        )
    }
}

/// The encodings of key/value text pairs, in order.
pub open spec fn text_pairs_bytes(keys: Seq<Seq<char>>, values: Seq<Seq<char>>) -> Seq<u8>
    decreases keys.len(),
{
    if keys.len() == 0 {
        Seq::empty()
    } else {
        text_pairs_bytes(keys.drop_last(), values.drop_last()) + text_token(keys.last()) + text_token(values.last())
    }
}

/// The values of an ordered text map, each by its view.
pub open spec fn text_values(m: OrdMap<String, String>) -> Seq<Seq<char>> {
    m.values().map_values(|s: String| s@)
}

/// An optional version: `some` and its number, or `none`.
pub open spec fn optional_version_bytes(v: Option<Version>) -> Seq<u8> {
    match v {
        Some(x) => text_token("some"@) + text_token(decimal(x@ as nat)),
        None => text_token("none"@),
    }
}

/// The encoding of where a result item came from: source, record type,
/// record identities and the query.
#[verifier::opaque]
pub open spec fn provenance_origin_bytes(p: ResultProvenance) -> Seq<u8> {
    text_token(p.source@) + optional_text(opt_view(p.source_record_type)) + text_token(
        decimal(p.source_record_ids.keys().len()),
    ) + text_tokens(p.source_record_ids.keys()) + token_of(query_bytes(p.query_definition@))
}

/// The encoding of a result item's timestamps, source version, permission
/// scope, integrity and access restriction.
#[verifier::opaque]
pub open spec fn provenance_detail_bytes(p: ResultProvenance) -> Seq<u8> {
    text_token(decimal(p.timestamps.keys().len())) + text_pairs_bytes(
        p.timestamps.keys(),
        text_values(p.timestamps),
    ) + optional_version_bytes(p.source_version) + optional_text(opt_view(p.permission_scope)) + optional_text(
        opt_view(p.integrity),
    ) + optional_text(opt_view(p.access_restriction))
}

/// The encoding of a result item's provenance.
pub open spec fn provenance_bytes(p: ResultProvenance) -> Seq<u8> {
    provenance_origin_bytes(p) + provenance_detail_bytes(p)
}

/// The encoding of one result item: ordering key, classification, fields and provenance.
#[verifier::opaque]
pub open spec fn item_bytes(item: QueryResultItem) -> Seq<u8> {
    text_token(decimal(item.ordering_key@.len())) + text_tokens(item.ordering_key@) + text_token(
        classification_label(item.classification),
    ) + text_token(decimal(item.fields.keys().len())) + value_tokens_bytes(item.fields.keys(), value_views(item.fields))
        + provenance_bytes(item.provenance)
}

/// The encodings of result items, in order.
pub open spec fn items_bytes(items: Seq<QueryResultItem>) -> Seq<u8>
    decreases items.len(),
{
    if items.len() == 0 {
        Seq::empty()
    } else {
        items_bytes(items.drop_last()) + item_bytes(items.last())
    }
}

/// The canonical encoding of a query result: identity, version, query,
/// consistency boundary, presentation, completeness and items in order.
#[verifier::opaque]
pub open spec fn result_bytes(r: QueryResult) -> Seq<u8> {
    text_token("query-result"@) + text_token(r.id@) + text_token(decimal(r.version@ as nat)) + token_of(
        query_bytes(r.query_definition@),
    ) + text_token(canonical_encoding(r.consistency_boundary@)) + text_token(presentation_label(r.presentation_type))
        + match r.completeness {
        QueryCompleteness::Complete => text_token("complete"@),
        QueryCompleteness::Incomplete { reason } => text_token("incomplete"@) + text_token(reason@),
    } + text_token(decimal(r.items@.len())) + items_bytes(r.items@)
}

fn classification_text(c: ResultClassification) -> (r: &'static str)
    ensures
        r@ == classification_label(c),
{
    match c {
        ResultClassification::SourceFact => "source-fact",
        ResultClassification::ComputedValue => "computed-value",
        ResultClassification::StatisticalCorrelation => "statistical-correlation",
        ResultClassification::AiGeneratedHypothesis => "ai-generated-hypothesis",
        ResultClassification::HumanApprovedConclusion => "human-approved-conclusion",
    }
}

fn push_item_fields(out: &mut Vec<u8>, fields: &OrdMap<String, PropertyValue>)
    ensures
        final(out)@ == old(out)@ + text_token(decimal(fields.keys().len())) + value_tokens_bytes(
            fields.keys(),
            value_views(*fields),
        ),
{
    let ghost start = out@;
    let ghost names = fields.keys();
    let ghost values = value_views(*fields);
    proof {
        fields.lemma_shape();
        assert(names.take(0) =~= Seq::<Seq<char>>::empty());
    }
    let n = fields.len();
    push_decimal(out, n as u64);
    let ghost mid = out@;
    let mut i: usize = 0;
    while i < n
        invariant
            n == names.len(),
            names == fields.keys(),
            values == value_views(*fields),
            fields.keys().len() == fields.values().len(),
            i <= n,
            out@ == mid + value_tokens_bytes(names.take(i as int), values.take(i as int)),
        decreases n - i,
    {
        push_text(out, fields.key_at(i).as_str());
        let token = property_value_token(fields.value_at(i));
        push_text(out, token.as_str());
        proof {
            assert(names.take(i + 1).drop_last() =~= names.take(i as int));
            assert(values.take(i + 1).drop_last() =~= values.take(i as int));
        }
        i = i + 1;
    }
    proof {
        assert(names.take(n as int) =~= names);
        assert(values.take(n as int) =~= values);
    }
    assert(out@ =~= start + text_token(decimal(fields.keys().len())) + value_tokens_bytes(
        fields.keys(),
        value_views(*fields),
    ));
}

fn push_text_pairs(out: &mut Vec<u8>, pairs: &OrdMap<String, String>)
    ensures
        final(out)@ == old(out)@ + text_token(decimal(pairs.keys().len())) + text_pairs_bytes(
            pairs.keys(),
            text_values(*pairs),
        ),
{
    let ghost start = out@;
    let ghost keys = pairs.keys();
    let ghost values = text_values(*pairs);
    proof {
        pairs.lemma_shape();
        assert(keys.take(0) =~= Seq::<Seq<char>>::empty());
    }
    let n = pairs.len();
    push_decimal(out, n as u64);
    let ghost mid = out@;
    let mut i: usize = 0;
    while i < n
        invariant
            n == keys.len(),
            keys == pairs.keys(),
            values == text_values(*pairs),
            pairs.keys().len() == pairs.values().len(),
            i <= n,
            out@ == mid + text_pairs_bytes(keys.take(i as int), values.take(i as int)),
        decreases n - i,
    {
        push_text(out, pairs.key_at(i).as_str());
        push_text(out, pairs.value_at(i).as_str());
        proof {
            assert(keys.take(i + 1).drop_last() =~= keys.take(i as int));
            assert(values.take(i + 1).drop_last() =~= values.take(i as int));
        }
        i = i + 1;
    }
    proof {
        assert(keys.take(n as int) =~= keys);
        assert(values.take(n as int) =~= values);
    }
    assert(out@ =~= start + text_token(decimal(pairs.keys().len())) + text_pairs_bytes(
        pairs.keys(),
        text_values(*pairs),
    ));
}

fn push_optional_version(out: &mut Vec<u8>, v: &Option<Version>)
    ensures
        final(out)@ == old(out)@ + optional_version_bytes(*v),
{
    let ghost start = out@;
    match v {
        Some(x) => {
            push_text(out, "some");
            push_decimal(out, x.value());
        },
        None => push_text(out, "none"),
    }
    assert(out@ =~= start + optional_version_bytes(*v));
}

fn push_provenance_origin(out: &mut Vec<u8>, p: &ResultProvenance)
    ensures
        final(out)@ == old(out)@ + provenance_origin_bytes(*p),
{
    let ghost start = out@;
    push_text(out, p.source.as_str());
    push_optional_text(out, &p.source_record_type);
    push_decimal(out, p.source_record_ids.len() as u64);
    push_texts(out, &p.source_record_ids);
    let query = canonical_query_bytes(&p.query_definition);
    push_token(out, query.as_slice());
    assert(out@ =~= start + provenance_origin_bytes(*p)) by {
        reveal(provenance_origin_bytes);
    }
}

fn push_provenance_detail(out: &mut Vec<u8>, p: &ResultProvenance)
    ensures
        final(out)@ == old(out)@ + provenance_detail_bytes(*p),
{
    let ghost start = out@;
    push_text_pairs(out, &p.timestamps);
    push_optional_version(out, &p.source_version);
    push_optional_text(out, &p.permission_scope);
    push_optional_text(out, &p.integrity);
    push_optional_text(out, &p.access_restriction);
    assert(out@ =~= start + provenance_detail_bytes(*p)) by {
        reveal(provenance_detail_bytes);
    }
}

fn push_segments(out: &mut Vec<u8>, key: &StableOrderingKey)
    ensures
        final(out)@ == old(out)@ + text_token(decimal(key@.len())) + text_tokens(key@),
{
    let ghost start = out@;
    let segments = key.segments();
    push_decimal(out, segments.len() as u64);
    let ghost mid = out@;
    let ghost views = key@;
    let n = segments.len();
    let mut i: usize = 0;
    proof {
        assert(views.take(0) =~= Seq::<Seq<char>>::empty());
    }
    while i < n
        invariant
            n == segments@.len(),
            views == crate::query_types::strings_view(segments@),
            i <= n,
            out@ == mid + text_tokens(views.take(i as int)),
        decreases n - i,
    {
        push_text(out, segments[i].as_str());
        proof {
            assert(views.take(i + 1).drop_last() =~= views.take(i as int));
        }
        i = i + 1;
    }
    proof {
        assert(views.take(n as int) =~= views);
    }
    assert(out@ =~= start + text_token(decimal(key@.len())) + text_tokens(key@));
}

fn push_item(out: &mut Vec<u8>, item: &QueryResultItem)
    ensures
        final(out)@ == old(out)@ + item_bytes(*item),
{
    let ghost start = out@;
    push_segments(out, &item.ordering_key);
    push_text(out, classification_text(item.classification));
    push_item_fields(out, &item.fields);
    push_provenance_origin(out, &item.provenance);
    push_provenance_detail(out, &item.provenance);
    assert(out@ =~= start + item_bytes(*item)) by {
        reveal(item_bytes);
    }
}

/// Encodes a query result into canonical bytes, for comparing results byte for byte.
pub fn canonical_query_result_bytes(result: &QueryResult) -> (r: Vec<u8>)
    ensures
        r@ == result_bytes(*result),
{
    let mut out: Vec<u8> = Vec::new();
    push_text(&mut out, "query-result");
    push_text(&mut out, result.id.as_str());
    push_decimal(&mut out, result.version.value());
    let query = canonical_query_bytes(&result.query_definition);
    push_token(&mut out, query.as_slice());
    let boundary = result.consistency_boundary.canonical_string();
    push_text(&mut out, boundary.as_str());
    push_text(&mut out, presentation_text(result.presentation_type));
    match &result.completeness {
        QueryCompleteness::Complete => push_text(&mut out, "complete"),
        QueryCompleteness::Incomplete { reason } => {
            push_text(&mut out, "incomplete");
            push_text(&mut out, reason.as_str());
        },
    }
    let n = result.items.len();
    push_decimal(&mut out, n as u64);
    let ghost mid = out@;
    let ghost items = result.items@;
    let mut i: usize = 0;
    proof {
        assert(items.take(0) =~= Seq::<QueryResultItem>::empty());
    }
    while i < n
        invariant
            n == items.len(),
            items == result.items@,
            i <= n,
            out@ == mid + items_bytes(items.take(i as int)),
        decreases n - i,
    {
        push_item(&mut out, &result.items[i]);
        proof {
            assert(items.take(i + 1).drop_last() =~= items.take(i as int));
        }
        i = i + 1;
    }
    proof {
        assert(items.take(n as int) =~= items);
    }
    assert(out@ =~= result_bytes(*result)) by {
        reveal(result_bytes);
    }
    out
}

} // verus!
