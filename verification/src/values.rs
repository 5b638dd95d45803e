//! Structural checks on Runtime values shared by the Event Engine and the
//! Object Runtime: lengths, string contents, kind names, numeric ranges,
//! enumerations and patterns.
use vstd::prelude::*;
use crate::collections::OrdSet;
use crate::contracts::{PropertyValue, PropertyValueKind, PropertyValueView};
use crate::numbers::{number_eq, number_less, number_lt};
use crate::pattern::{compile_pattern, pattern_is_match, regex_build_error, regex_finds_match};
use crate::text::{byte_len, str_eq};

verus! {

/// Length of a string-like or binary value: bytes of the text, or of the blob.
pub open spec fn value_length(v: PropertyValueView) -> Option<nat> {
    match v {
        PropertyValueView::Text { value, .. } => Some(byte_len(value)),
        PropertyValueView::LocalizedTextKey(s) => Some(byte_len(s)),
        PropertyValueView::DateTime(s) => Some(byte_len(s)),
        PropertyValueView::EnumValue(s) => Some(byte_len(s)),
        PropertyValueView::AttachmentReference(s) => Some(byte_len(s)),
        PropertyValueView::BinaryBlob(b) => Some(b.len()),
        _ => None,
    }
}

/// The text carried by a string-like value.
pub open spec fn string_content(v: PropertyValueView) -> Option<Seq<char>> {
    match v {
        PropertyValueView::Text { value, .. } => Some(value),
        PropertyValueView::LocalizedTextKey(s) => Some(s),
        PropertyValueView::DateTime(s) => Some(s),
        PropertyValueView::EnumValue(s) => Some(s),
        PropertyValueView::AttachmentReference(s) => Some(s),
        _ => None,
    }
}

/// The language-neutral name of a value kind.
pub open spec fn kind_name_spec(kind: PropertyValueKind) -> Seq<char> {
    match kind {
        PropertyValueKind::Text => "text"@,
        PropertyValueKind::LocalizedTextKey => "localized-text-key"@,
        PropertyValueKind::Number => "number"@,
        PropertyValueKind::Boolean => "boolean"@,
        PropertyValueKind::DateTime => "date/time"@,
        PropertyValueKind::EnumValue => "enum-value"@,
        PropertyValueKind::Reference => "reference"@,
        PropertyValueKind::AttachmentReference => "attachment-reference"@,
        PropertyValueKind::BinaryBlob => "binary-blob"@,
    }
}

/// Equality of values: same variant and equal contents, numbers compared as numbers.
pub open spec fn values_equal(a: PropertyValueView, b: PropertyValueView) -> bool {
    match (a, b) {
        (PropertyValueView::Number(x), PropertyValueView::Number(y)) => number_eq(x, y),
        (PropertyValueView::Number(_), _) => false,
        (_, PropertyValueView::Number(_)) => false,
        _ => a == b,
    }
}

/// Returns the length of a string-like or binary value.
pub fn value_length_of(value: &PropertyValue) -> (r: Option<usize>)
    ensures
        match r {
            Some(n) => value_length(value@) == Some(n as nat),
            None => value_length(value@) is None,
        },
{
    match value {
        PropertyValue::Text { value, .. } => Some(value.as_str().len()),
        PropertyValue::LocalizedTextKey(v) => Some(v.as_str().len()),
        PropertyValue::DateTime(v) => Some(v.as_str().len()),
        PropertyValue::EnumValue(v) => Some(v.as_str().len()),
        PropertyValue::AttachmentReference(v) => Some(v.as_str().len()),
        PropertyValue::BinaryBlob(v) => Some(v.len()),
        _ => None,
    }
}

/// Returns the text carried by a string-like value.
pub fn string_value_of(value: &PropertyValue) -> (r: Option<&str>)
    ensures
        match r {
            Some(s) => string_content(value@) == Some(s@),
            None => string_content(value@) is None,
        },
{
    match value {
        PropertyValue::Text { value, .. } => Some(value.as_str()),
        PropertyValue::LocalizedTextKey(v) => Some(v.as_str()),
        PropertyValue::DateTime(v) => Some(v.as_str()),
        PropertyValue::EnumValue(v) => Some(v.as_str()),
        PropertyValue::AttachmentReference(v) => Some(v.as_str()),
        _ => None,
    }
}

/// Returns the language-neutral name of a value kind.
pub fn kind_name(kind: PropertyValueKind) -> (r: &'static str)
    ensures
        r@ == kind_name_spec(kind),
{
    match kind {
        PropertyValueKind::Text => "text",
        PropertyValueKind::LocalizedTextKey => "localized-text-key",
        PropertyValueKind::Number => "number",
        PropertyValueKind::Boolean => "boolean",
        PropertyValueKind::DateTime => "date/time",
        PropertyValueKind::EnumValue => "enum-value",
        PropertyValueKind::Reference => "reference",
        PropertyValueKind::AttachmentReference => "attachment-reference",
        PropertyValueKind::BinaryBlob => "binary-blob",
    }
}

fn opt_str_eq(a: &Option<String>, b: &Option<String>) -> (r: bool)
    ensures
        r == (crate::contracts::opt_view(*a) == crate::contracts::opt_view(*b)),
{
    match (a, b) {
        (Some(x), Some(y)) => str_eq(x.as_str(), y.as_str()),
        (None, None) => true,
        _ => false,
    }
}

fn bytes_eq(a: &Vec<u8>, b: &Vec<u8>) -> (r: bool)
    ensures
        r == (a@ == b@),
{
    if a.len() != b.len() {
        return false;
    }
    let mut i: usize = 0;
    while i < a.len()
        invariant
            a.len() == b.len(),
            i <= a.len(),
            forall|j: int| 0 <= j < i ==> a@[j] == b@[j],
        decreases a.len() - i,
    {
        if a[i] != b[i] {
            return false;
        }
        i = i + 1;
    }
    assert(a@ =~= b@);
    true
}

/// Reports whether two values are equal, comparing numbers as numbers.
pub fn values_equal_exec(a: &PropertyValue, b: &PropertyValue) -> (r: bool)
    ensures
        r == values_equal(a@, b@),
{
    match (a, b) {
        (PropertyValue::Text { value: v1, language: l1 }, PropertyValue::Text { value: v2, language: l2 }) => {
            str_eq(v1.as_str(), v2.as_str()) && opt_str_eq(l1, l2)
        },
        (PropertyValue::LocalizedTextKey(x), PropertyValue::LocalizedTextKey(y)) => str_eq(
            x.as_str(),
            y.as_str(),
        ),
        (PropertyValue::Number(x), PropertyValue::Number(y)) => crate::numbers::number_equal(*x, *y),
        (PropertyValue::Boolean(x), PropertyValue::Boolean(y)) => *x == *y,
        (PropertyValue::DateTime(x), PropertyValue::DateTime(y)) => str_eq(x.as_str(), y.as_str()),
        (PropertyValue::EnumValue(x), PropertyValue::EnumValue(y)) => str_eq(x.as_str(), y.as_str()),
        (PropertyValue::Reference(x), PropertyValue::Reference(y)) => str_eq(x.as_str(), y.as_str()),
        (PropertyValue::AttachmentReference(x), PropertyValue::AttachmentReference(y)) => str_eq(
            x.as_str(),
            y.as_str(),
        ),
        (PropertyValue::BinaryBlob(x), PropertyValue::BinaryBlob(y)) => bytes_eq(x, y),
        _ => false,
    }
}

/// Result of checking one value against declared structural constraints.
pub enum ConstraintOutcome {
    /// Every constraint holds.
    Satisfied,
    /// A constraint is violated, with its deterministic reason.
    Violated(&'static str),
    /// The declared pattern does not compile, with the compiler's message.
    InvalidPattern(String),
}

/// Abstract result of a constraint check.
pub enum ConstraintOutcomeView {
    Satisfied,
    Violated(Seq<char>),
    InvalidPattern(Seq<char>),
}

impl View for ConstraintOutcome {
    type V = ConstraintOutcomeView;

    open spec fn view(&self) -> ConstraintOutcomeView {
        match self {
            ConstraintOutcome::Satisfied => ConstraintOutcomeView::Satisfied,
            ConstraintOutcome::Violated(r) => ConstraintOutcomeView::Violated(r@),
            ConstraintOutcome::InvalidPattern(m) => ConstraintOutcomeView::InvalidPattern(m@),
        }
    }
}

/// Abstract structural constraints of a property or payload field.
pub struct ConstraintsView {
    pub min_length: Option<usize>,
    pub max_length: Option<usize>,
    pub min_number: Option<u64>,
    pub max_number: Option<u64>,
    pub pattern: Option<Seq<char>>,
    pub allowed_enum_values: Set<Seq<char>>,
}

/// The checks in order: length, number range, enumeration, pattern.
pub open spec fn constraint_outcome(c: ConstraintsView, v: PropertyValueView) -> ConstraintOutcomeView {
    if value_length(v) is Some && c.min_length is Some && value_length(v).unwrap() < c.min_length.unwrap() {
        ConstraintOutcomeView::Violated("length below minimum"@)
    } else if value_length(v) is Some && c.max_length is Some && value_length(v).unwrap()
        > c.max_length.unwrap() {
        ConstraintOutcomeView::Violated("length above maximum"@)
    } else if v is Number && c.min_number is Some && number_lt(v->Number_0, c.min_number.unwrap()) {
        ConstraintOutcomeView::Violated("number below minimum"@)
    } else if v is Number && c.max_number is Some && number_lt(c.max_number.unwrap(), v->Number_0) {
        ConstraintOutcomeView::Violated("number above maximum"@)
    } else if v is EnumValue && !c.allowed_enum_values.is_empty()
        && !c.allowed_enum_values.contains(v->EnumValue_0) {
        ConstraintOutcomeView::Violated("enum value is not allowed"@)
    } else if c.pattern is Some && string_content(v) is Some {
        match regex_build_error(c.pattern.unwrap()) {
            Some(message) => ConstraintOutcomeView::InvalidPattern(message),
            None => if regex_finds_match(c.pattern.unwrap(), string_content(v).unwrap()) {
                ConstraintOutcomeView::Satisfied
            } else {
                ConstraintOutcomeView::Violated("pattern did not match"@)
            },
        }
    } else {
        ConstraintOutcomeView::Satisfied
    }
}

/// Checks one value against declared structural constraints.
pub fn check_value_constraints(
    min_length: Option<usize>,
    max_length: Option<usize>,
    min_number: Option<u64>,
    max_number: Option<u64>,
    pattern: &Option<String>,
    allowed_enum_values: &OrdSet<String>,
    value: &PropertyValue,
) -> (r: ConstraintOutcome)
    ensures
        r@ == constraint_outcome(
            ConstraintsView {
                min_length,
                max_length,
                min_number,
                max_number,
                pattern: crate::contracts::opt_view(*pattern),
                allowed_enum_values: allowed_enum_values.as_set(),
            },
            value@,
        ),
{
    if let Some(length) = value_length_of(value) {
        if let Some(min) = min_length {
            if length < min {
                return ConstraintOutcome::Violated("length below minimum");
            }
        }
        if let Some(max) = max_length {
            if length > max {
                return ConstraintOutcome::Violated("length above maximum");
            }
        }
    }
    if let PropertyValue::Number(number) = value {
        if let Some(min) = min_number {
            if number_less(*number, min) {
                return ConstraintOutcome::Violated("number below minimum");
            }
        }
        if let Some(max) = max_number {
            if number_less(max, *number) {
                return ConstraintOutcome::Violated("number above maximum");
            }
        }
    }
    if let PropertyValue::EnumValue(token) = value {
        proof {
            allowed_enum_values.lemma_shape();
        }
        if !allowed_enum_values.is_empty() && !allowed_enum_values.contains(token) {
            return ConstraintOutcome::Violated("enum value is not allowed");
        }
    }
    if let Some(p) = pattern {
        if let Some(text) = string_value_of(value) {
            match compile_pattern(p.as_str()) {
                Err(message) => {
                    return ConstraintOutcome::InvalidPattern(message);
                },
                Ok(compiled) => {
                    if !pattern_is_match(&compiled, text) {
                        return ConstraintOutcome::Violated("pattern did not match");
                    }
                },
            }
        }
    }
    ConstraintOutcome::Satisfied
}

} // verus!
