//! Structured Process Engine errors, with the message each error displays.
use vstd::prelude::*;
use crate::contracts::{ObjectId, PropertyValueKind, Version};
use crate::object_errors::{object_type_text, ObjectRuntimeError, ObjectRuntimeErrorView};
use crate::object_types::{ObjectTypeRef, ObjectTypeRefView};
use crate::process_types::{ProcessDefinitionId, ProcessNodeId};
use crate::text::{append_decimal, decimal, push_char, string_of};

verus! {

/// Abstract contents of a definition validation failure.
pub enum ProcessDefinitionValidationErrorView {
    EmptyDefinitionId,
    EmptySchemaVersion,
    EmptyNodeSet,
    EmptyEntryNodeSet,
    EmptyNodeId,
    EmptyTransitionName { from: Seq<char>, to: Seq<char> },
    EntryNodeNotDeclared { node: Seq<char> },
    TransitionSourceNotDeclared { node: Seq<char> },
    TransitionTargetNotDeclared { node: Seq<char> },
    DuplicateTransitionEdge { from: Seq<char>, to: Seq<char> },
}

impl ProcessDefinitionValidationErrorView {
    /// The message the failure displays.
    pub open spec fn message(self) -> Seq<char> {
        match self {
            ProcessDefinitionValidationErrorView::EmptyDefinitionId => "definition id must not be empty"@,
            ProcessDefinitionValidationErrorView::EmptySchemaVersion => "schema version must not be zero"@,
            ProcessDefinitionValidationErrorView::EmptyNodeSet => "node set must not be empty"@,
            ProcessDefinitionValidationErrorView::EmptyEntryNodeSet => "entry node set must not be empty"@,
            ProcessDefinitionValidationErrorView::EmptyNodeId => "node id must not be empty"@,
            ProcessDefinitionValidationErrorView::EmptyTransitionName { from, to } => "transition from "@ + from + " to "@
                + to + " must have a name"@,
            ProcessDefinitionValidationErrorView::EntryNodeNotDeclared { node } => "entry node "@ + node
                + " is not declared"@,
            ProcessDefinitionValidationErrorView::TransitionSourceNotDeclared { node } => "transition source "@ + node
                + " is not declared"@,
            ProcessDefinitionValidationErrorView::TransitionTargetNotDeclared { node } => "transition target "@ + node
                + " is not declared"@,
            ProcessDefinitionValidationErrorView::DuplicateTransitionEdge { from, to } => "duplicate transition edge from "@
                + from + " to "@ + to,
        }
    }
}

/// Machine-distinguishable Process Definition validation failure detail.
#[derive(Debug)]
pub enum ProcessDefinitionValidationError {
    /// Process Definition identifier is empty.
    EmptyDefinitionId,
    /// Process Definition schema version is zero.
    EmptySchemaVersion,
    /// Process Definition contains no nodes.
    EmptyNodeSet,
    /// Process Definition contains no entry nodes.
    EmptyEntryNodeSet,
    /// A Process node identifier is empty.
    EmptyNodeId,
    /// A Process transition name is empty.
    EmptyTransitionName {
        /// Source node of the malformed transition.
        from: ProcessNodeId,
        /// Target node of the malformed transition.
        to: ProcessNodeId,
    },
    /// An entry node is not declared in the node set.
    EntryNodeNotDeclared {
        /// Undeclared entry node.
        node: ProcessNodeId,
    },
    /// A transition source node is not declared in the node set.
    TransitionSourceNotDeclared {
        /// Undeclared source node.
        node: ProcessNodeId,
    },
    /// A transition target node is not declared in the node set.
    TransitionTargetNotDeclared {
        /// Undeclared target node.
        node: ProcessNodeId,
    },
    /// More than one transition uses the same source and target.
    DuplicateTransitionEdge {
        /// Duplicate transition source node.
        from: ProcessNodeId,
        /// Duplicate transition target node.
        to: ProcessNodeId,
    },
}

impl View for ProcessDefinitionValidationError {
    type V = ProcessDefinitionValidationErrorView;

    open spec fn view(&self) -> ProcessDefinitionValidationErrorView {
        match self {
            ProcessDefinitionValidationError::EmptyDefinitionId => ProcessDefinitionValidationErrorView::EmptyDefinitionId,
            ProcessDefinitionValidationError::EmptySchemaVersion => ProcessDefinitionValidationErrorView::EmptySchemaVersion,
            ProcessDefinitionValidationError::EmptyNodeSet => ProcessDefinitionValidationErrorView::EmptyNodeSet,
            ProcessDefinitionValidationError::EmptyEntryNodeSet => ProcessDefinitionValidationErrorView::EmptyEntryNodeSet,
            ProcessDefinitionValidationError::EmptyNodeId => ProcessDefinitionValidationErrorView::EmptyNodeId,
            ProcessDefinitionValidationError::EmptyTransitionName { from, to } =>
                ProcessDefinitionValidationErrorView::EmptyTransitionName { from: from@, to: to@ },
            ProcessDefinitionValidationError::EntryNodeNotDeclared { node } =>
                ProcessDefinitionValidationErrorView::EntryNodeNotDeclared { node: node@ },
            ProcessDefinitionValidationError::TransitionSourceNotDeclared { node } =>
                ProcessDefinitionValidationErrorView::TransitionSourceNotDeclared { node: node@ },
            ProcessDefinitionValidationError::TransitionTargetNotDeclared { node } =>
                ProcessDefinitionValidationErrorView::TransitionTargetNotDeclared { node: node@ },
            ProcessDefinitionValidationError::DuplicateTransitionEdge { from, to } =>
                ProcessDefinitionValidationErrorView::DuplicateTransitionEdge { from: from@, to: to@ },
        }
    }
}

fn three(a: &str, b: &str, c: &str) -> (r: String)
    ensures
        r@ == a@ + b@ + c@,
{
    let mut s = string_of(a);
    s.append(b);
    s.append(c);
    s
}

fn edge_text(a: &str, from: &str, b: &str, to: &str, c: &str) -> (r: String)
    ensures
        r@ == a@ + from@ + b@ + to@ + c@,
{
    let mut s = string_of(a);
    s.append(from);
    s.append(b);
    s.append(to);
    s.append(c);
    s
}

impl ProcessDefinitionValidationError {
    /// Returns the message this failure displays.
    pub fn to_message(&self) -> (r: String)
        ensures
            r@ == self@.message(),
    {
        match self {
            ProcessDefinitionValidationError::EmptyDefinitionId => string_of("definition id must not be empty"),
            ProcessDefinitionValidationError::EmptySchemaVersion => string_of("schema version must not be zero"),
            ProcessDefinitionValidationError::EmptyNodeSet => string_of("node set must not be empty"),
            ProcessDefinitionValidationError::EmptyEntryNodeSet => string_of("entry node set must not be empty"),
            ProcessDefinitionValidationError::EmptyNodeId => string_of("node id must not be empty"),
            ProcessDefinitionValidationError::EmptyTransitionName { from, to } => edge_text(
                "transition from ",
                from.as_str(),
                " to ",
                to.as_str(),
                " must have a name",
            ),
            ProcessDefinitionValidationError::EntryNodeNotDeclared { node } => three(
                "entry node ",
                node.as_str(),
                " is not declared",
            ),
            ProcessDefinitionValidationError::TransitionSourceNotDeclared { node } => three(
                "transition source ",
                node.as_str(),
                " is not declared",
            ),
            ProcessDefinitionValidationError::TransitionTargetNotDeclared { node } => three(
                "transition target ",
                node.as_str(),
                " is not declared",
            ),
            ProcessDefinitionValidationError::DuplicateTransitionEdge { from, to } => {
                let mut s = three("duplicate transition edge from ", from.as_str(), " to ");
                s.append(to.as_str());
                s
            },
        }
    }
}

/// The debug name of a value kind: its variant name.
pub open spec fn kind_debug_name(kind: PropertyValueKind) -> Seq<char> {
    match kind {
        PropertyValueKind::Text => "Text"@,
        PropertyValueKind::LocalizedTextKey => "LocalizedTextKey"@,
        PropertyValueKind::Number => "Number"@,
        PropertyValueKind::Boolean => "Boolean"@,
        PropertyValueKind::DateTime => "DateTime"@,
        PropertyValueKind::EnumValue => "EnumValue"@,
        PropertyValueKind::Reference => "Reference"@,
        PropertyValueKind::AttachmentReference => "AttachmentReference"@,
        PropertyValueKind::BinaryBlob => "BinaryBlob"@,
    }
}

fn kind_debug(kind: PropertyValueKind) -> (r: &'static str)
    ensures
        r@ == kind_debug_name(kind),
{
    match kind {
        PropertyValueKind::Text => "Text",
        PropertyValueKind::LocalizedTextKey => "LocalizedTextKey",
        PropertyValueKind::Number => "Number",
        PropertyValueKind::Boolean => "Boolean",
        PropertyValueKind::DateTime => "DateTime",
        PropertyValueKind::EnumValue => "EnumValue",
        PropertyValueKind::Reference => "Reference",
        PropertyValueKind::AttachmentReference => "AttachmentReference",
        PropertyValueKind::BinaryBlob => "BinaryBlob",
    }
}

/// The rendering of an optional node: `Some(ProcessNodeId("` and the node
/// identifier and `"))`, or `None`.
pub open spec fn optional_node_text(node: Option<Seq<char>>) -> Seq<char> {
    match node {
        Some(n) => "Some(ProcessNodeId(\""@ + n + "\"))"@,
        None => "None"@,
    }
}

/// Abstract contents of a Process Engine error.
pub enum ProcessEngineErrorView {
    DefinitionNotFound { definition_id: Seq<char>, schema_version: u64 },
    DuplicateDefinition { definition_id: Seq<char>, schema_version: u64 },
    MalformedDefinition { failure: ProcessDefinitionValidationErrorView },
    DefinitionRegistryFailure { message: Seq<char> },
    UnitOfWorkFailure { message: Seq<char> },
    UnitOfWorkBeginFailure { message: Seq<char> },
    UnitOfWorkCommitFailure { message: Seq<char> },
    UnitOfWorkRollbackFailure { original: Seq<char>, rollback: Seq<char> },
    ObjectNotFound { object_id: Seq<char> },
    ObjectTypeNotFound { object_type: ObjectTypeRefView },
    ObjectTypeMissingProcessPropertyDeclaration { object_type: ObjectTypeRefView, property_key: Seq<char> },
    ObjectTypeProcessPropertyKindMismatch {
        object_type: ObjectTypeRefView,
        property_key: Seq<char>,
        expected: PropertyValueKind,
        actual: PropertyValueKind,
    },
    ObjectAlreadyInDifferentProcess { active_definition_id: Seq<char> },
    UnknownCurrentState { recorded_value: Seq<char> },
    NoSuchTransitionEdge { from: Option<Seq<char>>, to: Seq<char> },
    ObjectRuntimeFailure { source: ObjectRuntimeErrorView },
    TransactionEngineFailure { message: Seq<char> },
    InternalPreconditionInvariantViolated { property_key: Seq<char>, source: ObjectRuntimeErrorView },
}

impl ProcessEngineErrorView {
    /// The message the error displays.
    pub open spec fn message(self) -> Seq<char> {
        match self {
            ProcessEngineErrorView::DefinitionNotFound { definition_id, schema_version } => "process definition not found: "@
                + definition_id + "@"@ + decimal(schema_version as nat),
            ProcessEngineErrorView::DuplicateDefinition { definition_id, schema_version } =>
                "process definition already registered: "@ + definition_id + "@"@ + decimal(schema_version as nat),
            ProcessEngineErrorView::MalformedDefinition { failure } => "malformed process definition: "@ + failure.message(),
            ProcessEngineErrorView::DefinitionRegistryFailure { message } => "process definition registry failure: "@
                + message,
            ProcessEngineErrorView::UnitOfWorkFailure { message } => "unit of work failure: "@ + message,
            ProcessEngineErrorView::UnitOfWorkBeginFailure { message } => "unit of work begin failure: "@ + message,
            ProcessEngineErrorView::UnitOfWorkCommitFailure { message } => "unit of work commit failure: "@ + message,
            ProcessEngineErrorView::UnitOfWorkRollbackFailure { original, rollback } => "rollback failed after "@
                + original + "; rollback failure: "@ + rollback,
            ProcessEngineErrorView::ObjectNotFound { object_id } => "object not found: "@ + object_id,
            ProcessEngineErrorView::ObjectTypeNotFound { object_type } => "object type not found: "@ + object_type_text(
                object_type,
            ),
            ProcessEngineErrorView::ObjectTypeMissingProcessPropertyDeclaration { object_type, property_key } =>
                "object type "@ + object_type_text(object_type) + " does not declare process property "@ + property_key,
            ProcessEngineErrorView::ObjectTypeProcessPropertyKindMismatch { object_type, property_key, expected, actual } =>
                "object type "@ + object_type_text(object_type) + " declares process property "@ + property_key + " as "@
                + kind_debug_name(actual) + ", expected "@ + kind_debug_name(expected),
            ProcessEngineErrorView::ObjectAlreadyInDifferentProcess { active_definition_id } =>
                "object is already active in process definition "@ + active_definition_id,
            ProcessEngineErrorView::UnknownCurrentState { recorded_value } => "unknown current process state "@
                + recorded_value,
            ProcessEngineErrorView::NoSuchTransitionEdge { from, to } => "no process transition from "@
                + optional_node_text(from) + " to "@ + to,
            ProcessEngineErrorView::ObjectRuntimeFailure { source } => "object runtime failure: "@ + source.message(),
            ProcessEngineErrorView::TransactionEngineFailure { message } => "transaction engine failure: "@ + message,
            ProcessEngineErrorView::InternalPreconditionInvariantViolated { property_key, source } =>
                "process property precondition invariant failed for "@ + property_key + ": "@ + source.message(),
        }
    }
}

/// Top-level structured errors returned by the Process Engine.
#[derive(Debug)]
pub enum ProcessEngineError {
    /// Requested Process Definition has not been registered.
    DefinitionNotFound {
        /// Missing Process Definition identifier.
        definition_id: ProcessDefinitionId,
        /// Missing Process Definition schema version.
        schema_version: Version,
    },
    /// Requested Process Definition schema version was already registered.
    DuplicateDefinition {
        /// Duplicate Process Definition identifier.
        definition_id: ProcessDefinitionId,
        /// Duplicate Process Definition schema version.
        schema_version: Version,
    },
    /// Process Definition graph is malformed.
    MalformedDefinition {
        /// Machine-distinguishable validation failure.
        failure: ProcessDefinitionValidationError,
    },
    /// Process Definition registry failed.
    DefinitionRegistryFailure {
        /// Deterministic failure message.
        message: String,
    },
    /// Generated or supplied Unit-of-Work handle was invalid.
    UnitOfWorkFailure {
        /// Deterministic failure message.
        message: String,
    },
    /// Shared Unit-of-Work begin failed before mutation.
    UnitOfWorkBeginFailure {
        /// Deterministic failure message.
        message: String,
    },
    /// Shared Unit-of-Work commit failed before durable partial mutation.
    UnitOfWorkCommitFailure {
        /// Deterministic failure message.
        message: String,
    },
    /// Shared Unit-of-Work rollback failed while handling another failure.
    UnitOfWorkRollbackFailure {
        /// Original failure that triggered rollback.
        original: String,
        /// Rollback failure detail.
        rollback: String,
    },
    /// Object being transitioned does not exist.
    ObjectNotFound {
        /// Missing Object identifier.
        object_id: ObjectId,
    },
    /// Object Type referenced by the Object does not exist.
    ObjectTypeNotFound {
        /// Missing Object Type reference.
        object_type: ObjectTypeRef,
    },
    /// Object Type does not declare a required Process property.
    ObjectTypeMissingProcessPropertyDeclaration {
        /// Object Type that is not ready for this Process Definition.
        object_type: ObjectTypeRef,
        /// Missing property key.
        property_key: String,
    },
    /// Object Type declares a Process property with the wrong value kind.
    ObjectTypeProcessPropertyKindMismatch {
        /// Object Type that is not ready for this Process Definition.
        object_type: ObjectTypeRef,
        /// Property key with the wrong kind.
        property_key: String,
        /// Expected value kind.
        expected: PropertyValueKind,
        /// Actual value kind.
        actual: PropertyValueKind,
    },
    /// Object is already active in a different Process Definition.
    ObjectAlreadyInDifferentProcess {
        /// Active Process Definition found on the Object.
        active_definition_id: ProcessDefinitionId,
    },
    /// Stored current-node value does not name a node in the selected Process Definition.
    UnknownCurrentState {
        /// Stored value that could not be interpreted as a known current node.
        recorded_value: String,
    },
    /// No directed transition exists from the current state to the requested target node.
    NoSuchTransitionEdge {
        /// Current node, or none when the Object has not entered this Process yet.
        from: Option<ProcessNodeId>,
        /// Requested target node.
        to: ProcessNodeId,
    },
    /// Object Runtime returned an unexpected failure.
    ObjectRuntimeFailure {
        /// Wrapped Object Runtime error.
        source: ObjectRuntimeError,
    },
    /// The Transaction ledger returned an unexpected failure.
    TransactionEngineFailure {
        /// The ledger's message.
        message: String,
    },
    /// Precondition checks and Object Runtime validation disagreed.
    InternalPreconditionInvariantViolated {
        /// Process property key involved in the invariant failure.
        property_key: String,
        /// Wrapped Object Runtime error.
        source: ObjectRuntimeError,
    },
}

/// The view of an optional node.
pub open spec fn opt_node_view(n: Option<ProcessNodeId>) -> Option<Seq<char>> {
    match n {
        Some(x) => Some(x@),
        None => None,
    }
}

impl View for ProcessEngineError {
    type V = ProcessEngineErrorView;

    open spec fn view(&self) -> ProcessEngineErrorView {
        match self {
            ProcessEngineError::DefinitionNotFound { definition_id, schema_version } =>
                ProcessEngineErrorView::DefinitionNotFound { definition_id: definition_id@, schema_version: schema_version@ },
            ProcessEngineError::DuplicateDefinition { definition_id, schema_version } =>
                ProcessEngineErrorView::DuplicateDefinition { definition_id: definition_id@, schema_version: schema_version@ },
            ProcessEngineError::MalformedDefinition { failure } => ProcessEngineErrorView::MalformedDefinition {
                failure: failure@,
            },
            ProcessEngineError::DefinitionRegistryFailure { message } => ProcessEngineErrorView::DefinitionRegistryFailure {
                message: message@,
            },
            ProcessEngineError::UnitOfWorkFailure { message } => ProcessEngineErrorView::UnitOfWorkFailure {
                message: message@,
            },
            ProcessEngineError::UnitOfWorkBeginFailure { message } => ProcessEngineErrorView::UnitOfWorkBeginFailure {
                message: message@,
            },
            ProcessEngineError::UnitOfWorkCommitFailure { message } => ProcessEngineErrorView::UnitOfWorkCommitFailure {
                message: message@,
            },
            ProcessEngineError::UnitOfWorkRollbackFailure { original, rollback } =>
                ProcessEngineErrorView::UnitOfWorkRollbackFailure { original: original@, rollback: rollback@ },
            ProcessEngineError::ObjectNotFound { object_id } => ProcessEngineErrorView::ObjectNotFound {
                object_id: object_id@,
            },
            ProcessEngineError::ObjectTypeNotFound { object_type } => ProcessEngineErrorView::ObjectTypeNotFound {
                object_type: object_type@,
            },
            ProcessEngineError::ObjectTypeMissingProcessPropertyDeclaration { object_type, property_key } =>
                ProcessEngineErrorView::ObjectTypeMissingProcessPropertyDeclaration {
                object_type: object_type@,
                property_key: property_key@,
            },
            ProcessEngineError::ObjectTypeProcessPropertyKindMismatch { object_type, property_key, expected, actual } =>
                ProcessEngineErrorView::ObjectTypeProcessPropertyKindMismatch {
                object_type: object_type@,
                property_key: property_key@,
                expected: *expected,
                actual: *actual,
            },
            ProcessEngineError::ObjectAlreadyInDifferentProcess { active_definition_id } =>
                ProcessEngineErrorView::ObjectAlreadyInDifferentProcess { active_definition_id: active_definition_id@ },
            ProcessEngineError::UnknownCurrentState { recorded_value } => ProcessEngineErrorView::UnknownCurrentState {
                recorded_value: recorded_value@,
            },
            ProcessEngineError::NoSuchTransitionEdge { from, to } => ProcessEngineErrorView::NoSuchTransitionEdge {
                from: opt_node_view(*from),
                to: to@,
            },
            ProcessEngineError::ObjectRuntimeFailure { source } => ProcessEngineErrorView::ObjectRuntimeFailure {
                source: source@,
            },
            ProcessEngineError::TransactionEngineFailure { message } => ProcessEngineErrorView::TransactionEngineFailure {
                message: message@,
            },
            ProcessEngineError::InternalPreconditionInvariantViolated { property_key, source } =>
                ProcessEngineErrorView::InternalPreconditionInvariantViolated {
                property_key: property_key@,
                source: source@,
            },
        }
    }
}

fn append_type(out: &mut String, t: &ObjectTypeRef)
    ensures
        final(out)@ == old(out)@ + object_type_text(t@),
{
    let ghost start = out@;
    out.append(t.name.as_str());
    push_char(out, '@');
    append_decimal(out, t.version as u64);
    assert(out@ =~= start + object_type_text(t@));
}

impl ProcessEngineError {
    /// Returns the message this error displays.
    pub fn to_message(&self) -> (r: String)
        ensures
            r@ == self@.message(),
    {
        let ghost v = self@;
        let mut s = String::new();
        match self {
            ProcessEngineError::DefinitionNotFound { definition_id, schema_version } => {
                s.append("process definition not found: ");
                s.append(definition_id.as_str());
                s.append("@");
                append_decimal(&mut s, schema_version.value());
            },
            ProcessEngineError::DuplicateDefinition { definition_id, schema_version } => {
                s.append("process definition already registered: ");
                s.append(definition_id.as_str());
                s.append("@");
                append_decimal(&mut s, schema_version.value());
            },
            ProcessEngineError::MalformedDefinition { failure } => {
                s.append("malformed process definition: ");
                let m = failure.to_message();
                s.append(m.as_str());
            },
            ProcessEngineError::DefinitionRegistryFailure { message } => {
                s.append("process definition registry failure: ");
                s.append(message.as_str());
            },
            ProcessEngineError::UnitOfWorkFailure { message } => {
                s.append("unit of work failure: ");
                s.append(message.as_str());
            },
            ProcessEngineError::UnitOfWorkBeginFailure { message } => {
                s.append("unit of work begin failure: ");
                s.append(message.as_str());
            },
            ProcessEngineError::UnitOfWorkCommitFailure { message } => {
                s.append("unit of work commit failure: ");
                s.append(message.as_str());
            },
            ProcessEngineError::UnitOfWorkRollbackFailure { original, rollback } => {
                s.append("rollback failed after ");
                s.append(original.as_str());
                s.append("; rollback failure: ");
                s.append(rollback.as_str());
            },
            ProcessEngineError::ObjectNotFound { object_id } => {
                s.append("object not found: ");
                s.append(object_id.as_str());
            },
            ProcessEngineError::ObjectTypeNotFound { object_type } => {
                s.append("object type not found: ");
                append_type(&mut s, object_type);
            },
            ProcessEngineError::ObjectTypeMissingProcessPropertyDeclaration { object_type, property_key } => {
                s.append("object type ");
                append_type(&mut s, object_type);
                s.append(" does not declare process property ");
                s.append(property_key.as_str());
            },
            ProcessEngineError::ObjectTypeProcessPropertyKindMismatch { object_type, property_key, expected, actual } => {
                s.append("object type ");
                append_type(&mut s, object_type);
                s.append(" declares process property ");
                s.append(property_key.as_str());
                s.append(" as ");
                s.append(kind_debug(*actual));
                s.append(", expected ");
                s.append(kind_debug(*expected));
            },
            ProcessEngineError::ObjectAlreadyInDifferentProcess { active_definition_id } => {
                s.append("object is already active in process definition ");
                s.append(active_definition_id.as_str());
            },
            ProcessEngineError::UnknownCurrentState { recorded_value } => {
                s.append("unknown current process state ");
                s.append(recorded_value.as_str());
            },
            ProcessEngineError::NoSuchTransitionEdge { from, to } => {
                s.append("no process transition from ");
                match from {
                    Some(node) => {
                        s.append("Some(ProcessNodeId(\"");
                        s.append(node.as_str());
                        s.append("\"))");
                    },
                    None => s.append("None"),
                }
                s.append(" to ");
                s.append(to.as_str());
            },
            ProcessEngineError::ObjectRuntimeFailure { source } => {
                s.append("object runtime failure: ");
                let m = source.to_message();
                s.append(m.as_str());
            },
            ProcessEngineError::TransactionEngineFailure { message } => {
                s.append("transaction engine failure: ");
                s.append(message.as_str());
            },
            ProcessEngineError::InternalPreconditionInvariantViolated { property_key, source } => {
                s.append("process property precondition invariant failed for ");
                s.append(property_key.as_str());
                s.append(": ");
                let m = source.to_message();
                s.append(m.as_str());
            },
        }
        assert(s@ =~= v.message());
        s
    }
}

} // verus!
