//! Text rendering of an asset Object for the demonstration's command line.
use vstd::prelude::*;
use crate::contracts::{PropertyValue, PropertyValueView};
use crate::event_types::payload_view;
use crate::object_types::ObjectRecord;
use crate::query_canonical::value_views;
use crate::text::{append_decimal, decimal};

verus! {

/// Renders numbers, carried as IEEE 754 binary64 bit patterns, as text.
pub trait NumberText {
    fn number_text(&self, bits: u64) -> String;
}

/// `text` is an answer of the number renderer for `v` when `v` is a number.
pub open spec fn number_text_ok<N: NumberText>(numbers: &N, v: PropertyValueView, text: Seq<char>) -> bool {
    match v {
        PropertyValueView::Number(bits) => exists|s: String|
            #![trigger call_ensures(N::number_text, (numbers, bits), s)]
            s@ == text && call_ensures(N::number_text, (numbers, bits), s),
        _ => true,
    }
}

/// Each of `texts` is the number renderer's answer for the value at its
/// position, where that value is a number.
pub open spec fn number_texts_ok<N: NumberText>(numbers: &N, values: Seq<PropertyValueView>, texts: Seq<Seq<char>>) -> bool {
    &&& texts.len() == values.len()
    &&& forall|i: int| 0 <= i < texts.len() ==> #[trigger] number_text_ok(numbers, values[i], texts[i])
}

/// The text of a property value; `number` is the text given to it when it is a number.
pub open spec fn value_text(v: PropertyValueView, number: Seq<char>) -> Seq<char> {
    match v {
        PropertyValueView::Text { value, language } => match language {
            Some(l) => value + " ["@ + l + "]"@,
            None => value,
        },
        PropertyValueView::LocalizedTextKey(s) => s,
        PropertyValueView::DateTime(s) => s,
        PropertyValueView::EnumValue(s) => s,
        PropertyValueView::AttachmentReference(s) => s,
        PropertyValueView::Number(bits) => number,
        PropertyValueView::Boolean(b) => if b {
            "true"@
        } else {
            "false"@
        },
        PropertyValueView::Reference(id) => id,
        PropertyValueView::BinaryBlob(bytes) => "<"@ + decimal(bytes.len()) + " bytes>"@,
    }
}

/// One `name: value` line per property, each after `indent`, in name order.
pub open spec fn property_lines(
    indent: Seq<char>,
    names: Seq<Seq<char>>,
    values: Seq<PropertyValueView>,
    numbers: Seq<Seq<char>>,
) -> Seq<char>
    decreases names.len(),
{
    if names.len() == 0 {
        Seq::empty()
    } else {
        property_lines(indent, names.drop_last(), values.drop_last(), numbers.drop_last()) + indent + names.last() + ": "@
            + value_text(values.last(), numbers.last()) + "\n"@
    }
}

/// One indented `type -> target` line per relation, in order.
pub open spec fn relation_lines(relations: Seq<(Seq<char>, Seq<char>)>) -> Seq<char>
    decreases relations.len(),
{
    if relations.len() == 0 {
        Seq::empty()
    } else {
        relation_lines(relations.drop_last()) + "  "@ + relations.last().0 + " -> "@ + relations.last().1 + "\n"@
    }
}

/// The rendering of an asset: identity, Object Type, version, lifecycle
/// state, permission scope, owner, then its properties and its relations,
/// or `none` when it has no relations. `numbers` holds the text of each
/// numeric property, by position.
pub open spec fn asset_text(asset: ObjectRecord, numbers: Seq<Seq<char>>) -> Seq<char> {
    "Asset "@ + asset.id@ + "\n"@ + "object_type: "@ + asset.object_type@.name + "@"@ + decimal(
        asset.object_type@.version as nat,
    ) + "\n"@ + "version: "@ + decimal(asset.version@ as nat) + "\n"@ + "lifecycle_state: "@
        + asset.lifecycle_state@ + "\n"@ + "permission_scope: "@ + asset.permission_scope@ + "\n"@ + "owner: "@
        + asset.ownership.owner@ + "\n"@ + "properties:\n"@ + property_lines(
        "  "@,
        asset.properties.keys(),
        value_views(asset.properties),
        numbers,
    ) + "relations:\n"@ + if asset.relations.keys().len() == 0 {
        "  none\n"@
    } else {
        relation_lines(asset.relations.keys())
    }
}

pub(crate) fn append_value<N: NumberText>(out: &mut String, value: &PropertyValue, numbers: &N) -> (number: Ghost<Seq<char>>)
    ensures
        final(out)@ == old(out)@ + value_text(value@, number@),
        number_text_ok(numbers, value@, number@),
{
    let ghost start = out@;
    let mut number = Ghost(Seq::empty());
    match value {
        PropertyValue::Text { value, language } => {
            out.append(value.as_str());
            match language {
                Some(l) => {
                    out.append(" [");
                    out.append(l.as_str());
                    out.append("]");
                },
                None => {},
            }
        },
        PropertyValue::LocalizedTextKey(s) => out.append(s.as_str()),
        PropertyValue::DateTime(s) => out.append(s.as_str()),
        PropertyValue::EnumValue(s) => out.append(s.as_str()),
        PropertyValue::AttachmentReference(s) => out.append(s.as_str()),
        PropertyValue::Number(bits) => {
            let render = N::number_text;
            let text = render(numbers, *bits);
            number = Ghost(text@);
            out.append(text.as_str());
        },
        PropertyValue::Boolean(b) => {
            if *b {
                out.append("true");
            } else {
                out.append("false");
            }
        },
        PropertyValue::Reference(id) => out.append(id.as_str()),
        PropertyValue::BinaryBlob(bytes) => {
            out.append("<");
            append_decimal(out, bytes.len() as u64);
            out.append(" bytes>");
        },
    }
    assert(out@ =~= start + value_text(value@, number@));
    number
}

/// Renders an asset Object as text; `numbers` renders its numeric properties.
pub fn render_asset<N: NumberText>(asset: &ObjectRecord, numbers: &N) -> (r: String)
    ensures
        exists|texts: Seq<Seq<char>>|
            texts.len() == asset.properties.keys().len() && number_texts_ok(numbers, value_views(asset.properties), texts)
                && r@ == #[trigger] asset_text(*asset, texts),
{
    let mut out = String::from_str("Asset ");
    out.append(asset.id.as_str());
    out.append("\n");
    out.append("object_type: ");
    out.append(asset.object_type.name.as_str());
    out.append("@");
    append_decimal(&mut out, asset.object_type.version as u64);
    out.append("\n");
    out.append("version: ");
    append_decimal(&mut out, asset.version.value());
    out.append("\n");
    out.append("lifecycle_state: ");
    out.append(asset.lifecycle_state.as_str());
    out.append("\n");
    out.append("permission_scope: ");
    out.append(asset.permission_scope.as_str());
    out.append("\n");
    out.append("owner: ");
    out.append(asset.ownership.owner.as_str());
    out.append("\n");
    out.append("properties:\n");
    let ghost head = out@;
    let ghost names = asset.properties.keys();
    let ghost values = value_views(asset.properties);
    let ghost mut texts: Seq<Seq<char>> = Seq::empty();
    proof {
        asset.properties.lemma_shape();
        assert(names.take(0) =~= Seq::<Seq<char>>::empty());
    }
    let n = asset.properties.len();
    let mut i: usize = 0;
    while i < n
        invariant
            n == names.len(),
            names == asset.properties.keys(),
            values == value_views(asset.properties),
            asset.properties.keys().len() == asset.properties.values().len(),
            i <= n,
            texts.len() == i,
            forall|k: int| 0 <= k < i ==> #[trigger] number_text_ok(numbers, values[k], texts[k]),
            out@ == head + property_lines("  "@, names.take(i as int), values.take(i as int), texts),
        decreases n - i,
    {
        out.append("  ");
        out.append(asset.properties.key_at(i).as_str());
        out.append(": ");
        let number = append_value(&mut out, asset.properties.value_at(i), numbers);
        out.append("\n");
        proof {
            assert(names.take(i + 1).drop_last() =~= names.take(i as int));
            assert(values.take(i + 1).drop_last() =~= values.take(i as int));
            assert(texts.push(number@).drop_last() =~= texts);
            texts = texts.push(number@);
        }
        i = i + 1;
    }
    proof {
        assert(names.take(n as int) =~= names);
        assert(values.take(n as int) =~= values);
    }
    let ghost middle = out@;
    out.append("relations:\n");
    let ghost rels = asset.relations.keys();
    let m = asset.relations.len();
    if m == 0 {
        out.append("  none\n");
    } else {
        let ghost before = out@;
        let mut j: usize = 0;
        proof {
            assert(rels.take(0) =~= Seq::<(Seq<char>, Seq<char>)>::empty());
        }
        while j < m
            invariant
                m == rels.len(),
                rels == asset.relations.keys(),
                j <= m,
                out@ == before + relation_lines(rels.take(j as int)),
            decreases m - j,
        {
            let relation = asset.relations.item_at(j);
            out.append("  ");
            out.append(relation.relation_type.as_str());
            out.append(" -> ");
            out.append(relation.target_id.as_str());
            out.append("\n");
            proof {
                assert(rels.take(j + 1).drop_last() =~= rels.take(j as int));
            }
            j = j + 1;
        }
        proof {
            assert(rels.take(m as int) =~= rels);
        }
    }
    assert(out@ =~= asset_text(*asset, texts));
    out
}

} // verus!
