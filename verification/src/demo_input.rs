//! The demonstration's asset registration input: its defaults, its
//! validation, the Object it creates and the `--field=value` overrides that
//! adjust it.
use vstd::prelude::*;
use crate::asset_model::{asset_classes, asset_object_type_key, asset_object_type_ref};
use crate::collections::{OrdMap, OrdSet};
use crate::contracts::{opt_view, ObjectId, PropertyValue, PropertyValueView};
use crate::event_types::payload_view;
use crate::object_runtime::CreateObjectRequest;
use crate::object_types::{LifecycleState, OwnershipInfo, PermissionScopeRef};
use crate::text::{str_eq, string_of};

verus! {

/// Abstract contents of an asset registration input.
pub struct RegisterAssetInputView {
    pub identity_label: Seq<char>,
    pub asset_class: Seq<char>,
    pub organization: Seq<char>,
    pub location: Seq<char>,
    pub manufacturer: Seq<char>,
    pub model: Seq<char>,
    pub serial_number: Seq<char>,
    pub responsible_reference: Seq<char>,
    pub registered_at: Seq<char>,
    pub calibration_required: bool,
    pub calibration_interval_days: Option<u64>,
    pub next_calibration_due: Option<Seq<char>>,
}

/// What a user supplies to register one asset.
///
/// The calibration interval carries the IEEE 754 binary64 bit pattern of its
/// number of days.
#[derive(Debug)]
pub struct RegisterAssetInput {
    pub identity_label: String,
    pub asset_class: String,
    pub organization: String,
    pub location: String,
    pub manufacturer: String,
    pub model: String,
    pub serial_number: String,
    pub responsible_reference: String,
    pub registered_at: String,
    pub calibration_required: bool,
    pub calibration_interval_days: Option<u64>,
    pub next_calibration_due: Option<String>,
}

impl View for RegisterAssetInput {
    type V = RegisterAssetInputView;

    open spec fn view(&self) -> RegisterAssetInputView {
        RegisterAssetInputView {
            identity_label: self.identity_label@,
            asset_class: self.asset_class@,
            organization: self.organization@,
            location: self.location@,
            manufacturer: self.manufacturer@,
            model: self.model@,
            serial_number: self.serial_number@,
            responsible_reference: self.responsible_reference@,
            registered_at: self.registered_at@,
            calibration_required: self.calibration_required,
            calibration_interval_days: self.calibration_interval_days,
            next_calibration_due: opt_view(self.next_calibration_due),
        }
    }
}

fn clone_optional(s: &Option<String>) -> (r: Option<String>)
    ensures
        opt_view(r) == opt_view(*s),
{
    match s {
        Some(x) => Some(x.clone()),
        None => None,
    }
}

impl Clone for RegisterAssetInput {
    fn clone(&self) -> (r: Self)
        ensures
            r@ == self@,
    {
        RegisterAssetInput {
            identity_label: self.identity_label.clone(),
            asset_class: self.asset_class.clone(),
            organization: self.organization.clone(),
            location: self.location.clone(),
            manufacturer: self.manufacturer.clone(),
            model: self.model.clone(),
            serial_number: self.serial_number.clone(),
            responsible_reference: self.responsible_reference.clone(),
            registered_at: self.registered_at.clone(),
            calibration_required: self.calibration_required,
            calibration_interval_days: self.calibration_interval_days,
            next_calibration_due: clone_optional(&self.next_calibration_due),
        }
    }
}

/// The input's required text fields, by name, in the order they are checked.
pub open spec fn required_fields(v: RegisterAssetInputView) -> Seq<(Seq<char>, Seq<char>)> {
    seq![
        ("identity_label"@, v.identity_label),
        ("asset_class"@, v.asset_class),
        ("organization"@, v.organization),
        ("location"@, v.location),
        ("manufacturer"@, v.manufacturer),
        ("model"@, v.model),
        ("serial_number"@, v.serial_number),
        ("responsible_reference"@, v.responsible_reference),
        ("registered_at"@, v.registered_at),
    ]
}

/// The name of the first required field left empty, if any.
pub open spec fn first_empty(fields: Seq<(Seq<char>, Seq<char>)>) -> Option<Seq<char>>
    decreases fields.len(),
{
    if fields.len() == 0 {
        None
    } else if fields[0].1.len() == 0 {
        Some(fields[0].0)
    } else {
        first_empty(fields.drop_first())
    }
}

/// Why an input is refused before anything is written, if it is: the first
/// empty required field, an asset class outside the allowed ones, or a
/// required calibration without its interval and next due date.
pub open spec fn input_failure(v: RegisterAssetInputView) -> Option<Seq<char>> {
    match first_empty(required_fields(v)) {
        Some(field) => Some(field + " is required; no Runtime mutation was attempted."@),
        None => if !asset_classes().contains(v.asset_class) {
            Some("asset_class is not allowed; no Runtime mutation was attempted."@)
        } else if v.calibration_required && (v.calibration_interval_days is None || v.next_calibration_due is None) {
            Some(
                "calibration interval and next due date are required when calibration is required; no Runtime mutation was attempted."@,
            )
        } else {
            None
        },
    }
}

/// An English text value.
pub open spec fn english(s: Seq<char>) -> PropertyValueView {
    PropertyValueView::Text { value: s, language: Some("en"@) }
}

/// The properties of the asset Object an input creates.
pub open spec fn asset_input_properties(v: RegisterAssetInputView) -> Map<Seq<char>, PropertyValueView> {
    let base = map![
        "identity_label"@ => english(v.identity_label),
        "asset_class"@ => PropertyValueView::EnumValue(v.asset_class),
        "organization"@ => english(v.organization),
        "location"@ => english(v.location),
        "manufacturer"@ => english(v.manufacturer),
        "model"@ => english(v.model),
        "serial_number"@ => english(v.serial_number),
        "status"@ => PropertyValueView::EnumValue("registered"@),
        "responsible_reference"@ => english(v.responsible_reference),
        "registered_at"@ => PropertyValueView::DateTime(v.registered_at),
        "calibration_required"@ => PropertyValueView::Boolean(v.calibration_required),
    ];
    let with_interval = match v.calibration_interval_days {
        Some(bits) => base.insert("calibration_interval_days"@, PropertyValueView::Number(bits)),
        None => base,
    };
    match v.next_calibration_due {
        Some(due) => with_interval.insert("next_calibration_due"@, PropertyValueView::DateTime(due)),
        None => with_interval,
    }
}

fn english_text(value: &str) -> (r: PropertyValue)
    ensures
        r@ == english(value@),
{
    PropertyValue::Text { value: string_of(value), language: Some(string_of("en")) }
}

fn is_allowed_class(class: &str) -> (b: bool)
    ensures
        b == asset_classes().contains(class@),
{
    str_eq(class, "measuring_equipment") || str_eq(class, "machine") || str_eq(class, "robot") || str_eq(
        class,
        "tool",
    ) || str_eq(class, "fixture") || str_eq(class, "generic")
}

fn required_message(field: &str) -> (r: String)
    ensures
        r@ == field@ + " is required; no Runtime mutation was attempted."@,
{
    let mut m = string_of(field);
    m.append(" is required; no Runtime mutation was attempted.");
    m
}

impl RegisterAssetInput {
    /// The demonstration's scripted asset: a calibrated scale.
    pub fn demo() -> (r: Self)
        ensures
            r@ == (RegisterAssetInputView {
                identity_label: "Scale A-100"@,
                asset_class: "measuring_equipment"@,
                organization: "Open-EQMS Demo"@,
                location: "Calibration Lab"@,
                manufacturer: "Demo Instruments"@,
                model: "DI-100"@,
                serial_number: "SN-100"@,
                responsible_reference: "demo-operator"@,
                registered_at: "2026-07-15T10:00:00Z"@,
                calibration_required: true,
                calibration_interval_days: Some(0x4076d00000000000u64),
                next_calibration_due: Some("2027-07-15T10:00:00Z"@),
            }),
    {
        RegisterAssetInput {
            identity_label: string_of("Scale A-100"),
            asset_class: string_of("measuring_equipment"),
            organization: string_of("Open-EQMS Demo"),
            location: string_of("Calibration Lab"),
            manufacturer: string_of("Demo Instruments"),
            model: string_of("DI-100"),
            serial_number: string_of("SN-100"),
            responsible_reference: string_of("demo-operator"),
            registered_at: string_of("2026-07-15T10:00:00Z"),
            calibration_required: true,
            calibration_interval_days: Some(0x4076d00000000000u64),
            next_calibration_due: Some(string_of("2027-07-15T10:00:00Z")),
        }
    }

    /// Checks the input before anything is written.
    pub fn validate(&self) -> (r: Result<(), String>)
        ensures
            r is Ok <==> input_failure(self@) is None,
            r matches Err(m) ==> input_failure(self@) == Some(m@),
    {
        proof {
            reveal_with_fuel(first_empty, 10);
        }
        if self.identity_label.as_str().is_empty() {
            return Err(required_message("identity_label"));
        }
        if self.asset_class.as_str().is_empty() {
            return Err(required_message("asset_class"));
        }
        if self.organization.as_str().is_empty() {
            return Err(required_message("organization"));
        }
        if self.location.as_str().is_empty() {
            return Err(required_message("location"));
        }
        if self.manufacturer.as_str().is_empty() {
            return Err(required_message("manufacturer"));
        }
        if self.model.as_str().is_empty() {
            return Err(required_message("model"));
        }
        if self.serial_number.as_str().is_empty() {
            return Err(required_message("serial_number"));
        }
        if self.responsible_reference.as_str().is_empty() {
            return Err(required_message("responsible_reference"));
        }
        if self.registered_at.as_str().is_empty() {
            return Err(required_message("registered_at"));
        }
        if !is_allowed_class(self.asset_class.as_str()) {
            return Err(string_of("asset_class is not allowed; no Runtime mutation was attempted."));
        }
        if self.calibration_required && (self.calibration_interval_days.is_none()
            || self.next_calibration_due.is_none()) {
            return Err(
                string_of(
                    "calibration interval and next due date are required when calibration is required; no Runtime mutation was attempted.",
                ),
            );
        }
        Ok(())
    }

    /// The request that creates the asset Object: the asset Object Type, the
    /// input's properties, lifecycle `active`, owned by `demo-operator` in
    /// the `demo-local-scope` permission scope, with no relations, retention
    /// rule, external references, comments or attachments.
    pub fn create_request(&self) -> (r: CreateObjectRequest)
        ensures
            r.object_type@ == asset_object_type_key(),
            payload_view(r.properties) == asset_input_properties(self@),
            r.relations.as_set().is_empty(),
            r.lifecycle_state@ == "active"@,
            r.ownership.owner@ == "demo-operator"@,
            r.ownership.responsible_users.as_set().is_empty(),
            r.permission_scope@ == "demo-local-scope"@,
            r.retention_rule is None,
            r.external_references.as_set().is_empty(),
            r.comments_ref is None,
            r.attachments_ref is None,
    {
        let mut properties: OrdMap<String, PropertyValue> = OrdMap::new();
        properties.insert(string_of("identity_label"), english_text(self.identity_label.as_str()));
        properties.insert(string_of("asset_class"), PropertyValue::EnumValue(self.asset_class.clone()));
        properties.insert(string_of("organization"), english_text(self.organization.as_str()));
        properties.insert(string_of("location"), english_text(self.location.as_str()));
        properties.insert(string_of("manufacturer"), english_text(self.manufacturer.as_str()));
        properties.insert(string_of("model"), english_text(self.model.as_str()));
        properties.insert(string_of("serial_number"), english_text(self.serial_number.as_str()));
        properties.insert(string_of("status"), PropertyValue::EnumValue(string_of("registered")));
        properties.insert(string_of("responsible_reference"), english_text(self.responsible_reference.as_str()));
        properties.insert(string_of("registered_at"), PropertyValue::DateTime(self.registered_at.clone()));
        properties.insert(string_of("calibration_required"), PropertyValue::Boolean(self.calibration_required));
        match self.calibration_interval_days {
            Some(bits) => properties.insert(string_of("calibration_interval_days"), PropertyValue::Number(bits)),
            None => {},
        }
        match &self.next_calibration_due {
            Some(due) => properties.insert(string_of("next_calibration_due"), PropertyValue::DateTime(due.clone())),
            None => {},
        }
        assert(payload_view(properties) =~= asset_input_properties(self@));
        let relations = OrdSet::new();
        let responsible = OrdSet::new();
        let external = OrdSet::new();
        proof {
            relations.lemma_shape();
            responsible.lemma_shape();
            external.lemma_shape();
        }
        CreateObjectRequest {
            object_type: asset_object_type_ref(),
            properties,
            relations,
            lifecycle_state: LifecycleState::new("active"),
            ownership: OwnershipInfo::new(ObjectId::new("demo-operator"), responsible),
            permission_scope: PermissionScopeRef::new("demo-local-scope"),
            retention_rule: None,
            external_references: external,
            comments_ref: None,
            attachments_ref: None,
        }
    }
}

/// Reads the number written in a text, as the IEEE 754 binary64 bit pattern
/// of the nearest number, or `None` when the text is not a number.
pub trait NumberParser {
    fn parse_number(&self, text: &str) -> Option<u64>;
}

/// The position of the first `=` in a text, if any.
pub open spec fn equals_position(s: Seq<char>) -> Option<int>
    decreases s.len(),
{
    if s.len() == 0 {
        None
    } else if s[0] == '=' {
        Some(0)
    } else {
        match equals_position(s.drop_first()) {
            Some(i) => Some(i + 1),
            None => None,
        }
    }
}

/// The field name and value of a `--name=value` argument, split at the first `=`.
pub open spec fn split_override(arg: Seq<char>) -> Option<(Seq<char>, Seq<char>)> {
    if arg.len() >= 2 && arg[0] == '-' && arg[1] == '-' {
        let rest = arg.skip(2);
        match equals_position(rest) {
            Some(i) => Some((rest.take(i), rest.skip(i + 1))),
            None => None,
        }
    } else {
        None
    }
}

/// One override applied to an input; `reading` is the number read from the
/// value, for the calibration interval.
pub open spec fn override_step(v: RegisterAssetInputView, arg: Seq<char>, reading: Option<u64>) -> Result<
    RegisterAssetInputView,
    Seq<char>,
> {
    match split_override(arg) {
        None => Err("invalid register-asset argument: "@ + arg),
        Some((name, value)) => if name == "identity-label"@ {
            Ok(RegisterAssetInputView { identity_label: value, ..v })
        } else if name == "asset-class"@ {
            Ok(RegisterAssetInputView { asset_class: value, ..v })
        } else if name == "organization"@ {
            Ok(RegisterAssetInputView { organization: value, ..v })
        } else if name == "location"@ {
            Ok(RegisterAssetInputView { location: value, ..v })
        } else if name == "manufacturer"@ {
            Ok(RegisterAssetInputView { manufacturer: value, ..v })
        } else if name == "model"@ {
            Ok(RegisterAssetInputView { model: value, ..v })
        } else if name == "serial-number"@ {
            Ok(RegisterAssetInputView { serial_number: value, ..v })
        } else if name == "responsible-reference"@ {
            Ok(RegisterAssetInputView { responsible_reference: value, ..v })
        } else if name == "registered-at"@ {
            Ok(RegisterAssetInputView { registered_at: value, ..v })
        } else if name == "calibration-required"@ {
            if value == "true"@ {
                Ok(RegisterAssetInputView { calibration_required: true, ..v })
            } else if value == "false"@ {
                Ok(RegisterAssetInputView { calibration_required: false, ..v })
            } else {
                Err("calibration-required must be true or false"@)
            }
        } else if name == "calibration-interval-days"@ {
            match reading {
                Some(bits) => Ok(RegisterAssetInputView { calibration_interval_days: Some(bits), ..v }),
                None => Err("calibration-interval-days must be numeric"@),
            }
        } else if name == "next-calibration-due"@ {
            Ok(RegisterAssetInputView { next_calibration_due: Some(value), ..v })
        } else {
            Err("unknown register-asset field: "@ + name)
        },
    }
}

/// The overrides applied in order: the input reached and the first error, if
/// any; applying stops at the first error.
pub open spec fn overrides_applied(
    v: RegisterAssetInputView,
    args: Seq<Seq<char>>,
    readings: Seq<Option<u64>>,
) -> (RegisterAssetInputView, Option<Seq<char>>)
    decreases args.len(),
{
    if args.len() == 0 {
        (v, None)
    } else {
        let prior = overrides_applied(v, args.drop_last(), readings.drop_last());
        match prior.1 {
            Some(e) => prior,
            None => match override_step(prior.0, args.last(), readings.last()) {
                Ok(w) => (w, None),
                Err(e) => (prior.0, Some(e)),
            },
        }
    }
}

proof fn lemma_equals_position(s: Seq<char>, i: int)
    requires
        0 <= i <= s.len(),
        forall|j: int| 0 <= j < i ==> s[j] != '=',
    ensures
        i < s.len() && s[i] == '=' ==> equals_position(s) == Some(i),
        i == s.len() ==> equals_position(s) is None,
    decreases i,
{
    if i > 0 {
        lemma_equals_position(s.drop_first(), i - 1);
    }
}

/// Splits a `--name=value` argument.
fn split_argument(arg: &str) -> (r: Option<(String, String)>)
    ensures
        r matches Some((n, v)) ==> split_override(arg@) == Some((n@, v@)),
        r is None ==> split_override(arg@) is None,
{
    let len = arg.unicode_len();
    if len < 2 || arg.get_char(0) != '-' || arg.get_char(1) != '-' {
        return None;
    }
    let ghost rest = arg@.skip(2);
    let mut i: usize = 2;
    while i < len
        invariant
            len == arg@.len(),
            rest == arg@.skip(2),
            arg@[0] == '-',
            arg@[1] == '-',
            2 <= i <= len,
            forall|j: int| 0 <= j < i - 2 ==> rest[j] != '=',
        decreases len - i,
    {
        if arg.get_char(i) == '=' {
            proof {
                assert(rest[i - 2] == arg@[i as int]);
                lemma_equals_position(rest, i - 2);
                assert(rest.take(i - 2) =~= arg@.subrange(2, i as int));
                assert(rest.skip(i - 1) =~= arg@.subrange(i + 1, len as int));
            }
            proof {
                assert(arg@[0] == '-' && arg@[1] == '-');
                assert(equals_position(rest) == Some(i - 2));
                assert(split_override(arg@) == Some((rest.take(i - 2), rest.skip(i - 1))));
            }
            let name = string_of(arg.substring_char(2, i));
            let value = string_of(arg.substring_char(i + 1, len));
            return Some((name, value));
        }
        i = i + 1;
    }
    proof {
        lemma_equals_position(rest, i - 2);
    }
    None
}

fn prefixed_message(prefix: &str, detail: &str) -> (r: String)
    ensures
        r@ == prefix@ + detail@,
{
    let mut m = string_of(prefix);
    m.append(detail);
    m
}

impl RegisterAssetInput {
    /// Applies one override; `reading` is the number read from its value.
    fn apply_override<N: NumberParser>(&mut self, arg: &str, numbers: &N) -> (r: Result<(), String>)
        ensures
            exists|reading: Option<u64>|
                match #[trigger] override_step(old(self)@, arg@, reading) {
                    Ok(w) => r is Ok && final(self)@ == w,
                    Err(e) => r matches Err(m) && m@ == e && final(self)@ == old(self)@,
                },
    {
        let (name, value) = match split_argument(arg) {
            Some(parts) => parts,
            None => {
                let r = Err(prefixed_message("invalid register-asset argument: ", arg));
                assert(override_step(old(self)@, arg@, None) == Err::<RegisterAssetInputView, Seq<char>>(
                    "invalid register-asset argument: "@ + arg@,
                ));
                return r;
            },
        };
        let ghost v = old(self)@;
        let n = name.as_str();
        if str_eq(n, "identity-label") {
            self.identity_label = value;
        } else if str_eq(n, "asset-class") {
            self.asset_class = value;
        } else if str_eq(n, "organization") {
            self.organization = value;
        } else if str_eq(n, "location") {
            self.location = value;
        } else if str_eq(n, "manufacturer") {
            self.manufacturer = value;
        } else if str_eq(n, "model") {
            self.model = value;
        } else if str_eq(n, "serial-number") {
            self.serial_number = value;
        } else if str_eq(n, "responsible-reference") {
            self.responsible_reference = value;
        } else if str_eq(n, "registered-at") {
            self.registered_at = value;
        } else if str_eq(n, "calibration-required") {
            if str_eq(value.as_str(), "true") {
                self.calibration_required = true;
            } else if str_eq(value.as_str(), "false") {
                self.calibration_required = false;
            } else {
                assert(override_step(v, arg@, None) == Err::<RegisterAssetInputView, Seq<char>>(
                    "calibration-required must be true or false"@,
                ));
                return Err(string_of("calibration-required must be true or false"));
            }
        } else if str_eq(n, "calibration-interval-days") {
            let reading = numbers.parse_number(value.as_str());
            match reading {
                Some(bits) => {
                    self.calibration_interval_days = Some(bits);
                    assert(override_step(v, arg@, reading) == Ok::<RegisterAssetInputView, Seq<char>>(self@));
                    return Ok(());
                },
                None => {
                    assert(override_step(v, arg@, None) == Err::<RegisterAssetInputView, Seq<char>>(
                        "calibration-interval-days must be numeric"@,
                    ));
                    return Err(string_of("calibration-interval-days must be numeric"));
                },
            }
        } else if str_eq(n, "next-calibration-due") {
            self.next_calibration_due = Some(value);
        } else {
            let r = Err(prefixed_message("unknown register-asset field: ", n));
            assert(override_step(v, arg@, None) == Err::<RegisterAssetInputView, Seq<char>>(
                "unknown register-asset field: "@ + name@,
            ));
            return r;
        }
        assert(override_step(v, arg@, None) == Ok::<RegisterAssetInputView, Seq<char>>(self@));
        Ok(())
    }

    /// Applies `--field=value` overrides in order, stopping at the first that
    /// is malformed, names an unknown field or carries an unreadable value;
    /// the overrides before it stay applied. `numbers` reads the calibration
    /// interval.
    pub fn apply_overrides<N: NumberParser>(&mut self, args: &Vec<String>, numbers: &N) -> (r: Result<(), String>)
        ensures
            exists|readings: Seq<Option<u64>>|
                {
                    let outcome = #[trigger] overrides_applied(
                        old(self)@,
                        texts_view(args@),
                        readings,
                    );
                    &&& readings.len() == args@.len()
                    &&& final(self)@ == outcome.0
                    &&& (r is Ok <==> outcome.1 is None)
                    &&& (r matches Err(m) ==> outcome.1 == Some(m@))
                },
    {
        let ghost start = self@;
        let ghost views = texts_view(args@);
        let ghost mut readings: Seq<Option<u64>> = Seq::empty();
        let n = args.len();
        let mut i: usize = 0;
        proof {
            assert(views.take(0) =~= Seq::<Seq<char>>::empty());
        }
        while i < n
            invariant
                n == args@.len(),
                views == texts_view(args@),
                start == old(self)@,
                i <= n,
                readings.len() == i,
                overrides_applied(start, views.take(i as int), readings) == (self@, None::<Seq<char>>),
            decreases n - i,
        {
            let ghost before = self@;
            let step = self.apply_override(args[i].as_str(), numbers);
            let ghost reading = choose|reading: Option<u64>|
                match #[trigger] override_step(before, args@[i as int]@, reading) {
                    Ok(w) => step is Ok && self@ == w,
                    Err(e) => step matches Err(m) && m@ == e && self@ == before,
                };
            proof {
                assert(views.take(i + 1).drop_last() =~= views.take(i as int));
                assert(readings.push(reading).drop_last() =~= readings);
                assert(views.take(i + 1).last() == args@[i as int]@);
            }
            match step {
                Err(m) => {
                    proof {
                        readings = readings.push(reading);
                        let rest = Seq::new((n - i - 1) as nat, |k: int| None::<u64>);
                        let all = readings + rest;
                        assert(all.take(i + 1) =~= readings);
                        assert(views.take(n as int) =~= views);
                        assert(overrides_applied(start, views.take(i + 1), readings) == (before, Some(m@)));
                        lemma_overrides_stop(start, views, all, i as int + 1);
                        assert(overrides_applied(start, views, all) == (self@, Some(m@)));
                        assert(all.len() == args@.len());
                        assert(old(self)@ == start);
                        assert(texts_view(args@) == views);
                    }
                    return Err(m);
                },
                Ok(()) => {},
            }
            proof {
                readings = readings.push(reading);
            }
            i = i + 1;
        }
        proof {
            assert(views.take(n as int) =~= views);
        }
        Ok(())
    }
}

/// The characters of each text.
pub open spec fn texts_view(args: Seq<String>) -> Seq<Seq<char>> {
    args.map_values(|a: String| a@)
}

/// Once an override fails, the later ones change nothing.
proof fn lemma_overrides_stop(v: RegisterAssetInputView, args: Seq<Seq<char>>, readings: Seq<Option<u64>>, k: int)
    requires
        0 < k <= args.len(),
        readings.len() == args.len(),
        overrides_applied(v, args.take(k), readings.take(k)).1 is Some,
    ensures
        overrides_applied(v, args, readings) == overrides_applied(v, args.take(k), readings.take(k)),
    decreases args.len() - k,
{
    if k < args.len() {
        assert(args.take(k + 1).drop_last() =~= args.take(k));
        assert(readings.take(k + 1).drop_last() =~= readings.take(k));
        lemma_overrides_stop(v, args, readings, k + 1);
    } else {
        assert(args.take(k) =~= args);
        assert(readings.take(k) =~= readings);
    }
}

} // verus!
