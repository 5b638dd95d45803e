//! Result items of a query: projection of a record's fields, the provenance
//! that ties an item to its source record, and the item itself.
use vstd::prelude::*;
use crate::collections::{OrdMap, OrdSet};
use crate::contracts::{clone_opt_string, PropertyValue, PropertyValueView};
use crate::event_types::{copy_values, payload_view};
use crate::query_execution::record_views;
use crate::query_types::{
    copy_string_map, Projection, QueryDefinition, QueryDefinitionView, QueryRecord, QueryRecordView, QueryResultItem,
    QueryResultItemView, ResultProvenance, ResultProvenanceView, string_map_view,
};

verus! {

/// The fields an item carries: every field, or those of the selected fields
/// that the record has.
pub open spec fn projected_fields(
    fields: Map<Seq<char>, PropertyValueView>,
    projection: Option<Seq<Seq<char>>>,
) -> Map<Seq<char>, PropertyValueView> {
    match projection {
        None => fields,
        Some(selected) => fields.restrict(selected.to_set()),
    }
}

/// Returns the projected fields of a record.
pub fn project_fields(fields: &OrdMap<String, PropertyValue>, projection: &Projection) -> (r: OrdMap<
    String,
    PropertyValue,
>)
    ensures
        payload_view(r) == projected_fields(payload_view(*fields), projection@),
{
    match projection {
        Projection::AllFields => copy_values(fields),
        Projection::SelectedFields(selected) => {
            let ghost fv = payload_view(*fields);
            let ghost sel = selected.keys();
            let mut out: OrdMap<String, PropertyValue> = OrdMap::new();
            let n = selected.len();
            let mut i: usize = 0;
            proof {
                selected.lemma_shape();
                assert(payload_view(out) =~= fv.restrict(sel.take(0).to_set()));
            }
            while i < n
                invariant
                    n == sel.len(),
                    sel == selected.keys(),
                    fv == payload_view(*fields),
                    i <= n,
                    payload_view(out) == fv.restrict(sel.take(i as int).to_set()),
                decreases n - i,
            {
                let name = selected.item_at(i);
                let ghost before = payload_view(out);
                let ghost prev_set = sel.take(i as int).to_set();
                proof {
                    assert(sel.take(i + 1) =~= sel.take(i as int).push(sel[i as int]));
                    sel.take(i as int).lemma_push_to_set_commute(sel[i as int]);
                }
                let ghost next_set = prev_set.insert(sel[i as int]);
                match fields.get(name) {
                    Some(v) => {
                        let key = name.clone();
                        out.insert(key, v.clone());
                        proof {
                            assert(payload_view(out) =~= before.insert(sel[i as int], fv[sel[i as int]]));
                            assert(payload_view(out) =~= fv.restrict(next_set));
                        }
                    },
                    None => {
                        proof {
                            assert(payload_view(out) =~= fv.restrict(next_set));
                        }
                    },
                }
                i = i + 1;
            }
            proof {
                assert(sel.take(n as int) =~= sel);
            }
            out
        },
    }
}

/// The provenance of an item made from one source record.
pub open spec fn record_provenance(query: QueryDefinitionView, r: QueryRecordView) -> ResultProvenanceView {
    ResultProvenanceView {
        source: r.source,
        source_record_type: Some(r.record_type),
        source_record_ids: set![r.record_id],
        query_definition: query,
        timestamps: r.timestamps,
        source_version: r.source_version,
        permission_scope: r.permission_scope,
        integrity: r.integrity,
        access_restriction: None,
    }
}

/// Returns the provenance of an item made from `record` by `query`.
pub fn provenance_for_record(query: &QueryDefinition, record: &QueryRecord) -> (r: ResultProvenance)
    ensures
        r@ == record_provenance(query@, record@),
{
    let mut ids: OrdSet<String> = OrdSet::new();
    ids.insert(record.record_id.clone());
    proof {
        assert(ids.as_set() =~= set![record@.record_id]);
    }
    ResultProvenance {
        source: record.source.clone(),
        source_record_type: Some(record.record_type.clone()),
        source_record_ids: ids,
        query_definition: query.clone(),
        timestamps: copy_string_map(&record.timestamps),
        source_version: record.source_version,
        permission_scope: clone_opt_string(&record.permission_scope),
        integrity: clone_opt_string(&record.integrity),
        access_restriction: None,
    }
}

/// The item a query makes of one source record.
pub open spec fn record_item(query: QueryDefinitionView, r: QueryRecordView) -> QueryResultItemView {
    QueryResultItemView {
        ordering_key: r.ordering_key,
        fields: projected_fields(r.fields, query.projection),
        classification: r.classification,
        provenance: record_provenance(query, r),
    }
}

/// The views of result items.
pub open spec fn item_views(s: Seq<QueryResultItem>) -> Seq<QueryResultItemView> {
    s.map_values(|i: QueryResultItem| i@)
}

/// Returns one item per record, in record order.
pub fn records_to_items(query: &QueryDefinition, records: &Vec<QueryRecord>) -> (r: Vec<QueryResultItem>)
    ensures
        item_views(r@) == record_views(records@).map_values(|x: QueryRecordView| record_item(query@, x)),
{
    let mut out: Vec<QueryResultItem> = Vec::new();
    let n = records.len();
    let mut i: usize = 0;
    while i < n
        invariant
            n == records@.len(),
            i <= n,
            out@.len() == i,
            forall|k: int| 0 <= k < i ==> (#[trigger] out@[k])@ == record_item(query@, records@[k]@),
        decreases n - i,
    {
        let record = &records[i];
        let item = QueryResultItem {
            ordering_key: record.ordering_key.clone(),
            fields: project_fields(&record.fields, &query.projection),
            classification: record.classification,
            provenance: provenance_for_record(query, record),
        };
        out.push(item);
        i = i + 1;
    }
    proof {
        assert(item_views(out@) =~= record_views(records@).map_values(|x: QueryRecordView| record_item(query@, x)));
    }
    out
}

} // verus!
