//! Data structures that represent a GHDL elaborated design.

mod ast_refs;
mod base64;
mod design;
mod ids;
mod nodes;
mod text;

pub use crate::ast_refs::{
    AstNodeId, ConnectionAssociationNodeId, ConstantDeclarationNodeId,
    DesignSlotDeclarationNodeId, Direction, InstanceBlockRefNodeId, InstanceConfigurationNodeId,
    InstanceSourceNodeId, InstanceStatementNodeId, ProcessStmtNodeId, RecordFieldDeclNodeId,
    SignalDeclNodeId, TypeAndSubtypeDefinitionNodeId, UninstantiatedScopeRefNodeId,
};
pub use crate::base64::{
    base64_alphabet, base64_decoding, base64_digit_value, base64_encoding, base64_groups,
    decode_base64, decode_base64_bytes, decode_base64_digit, lemma_base64_round_trip,
    lemma_encoding_length, prepend_bytes, PAD,
};
pub use crate::design::{
    all_accepted, contiguous_push, ids_increase, ids_match_positions, instance_push,
    is_loading_run, lemma_add_node_outcome, lemma_contiguous_push_keeps_positions,
    lemma_in_order_run_accepted, lemma_instance_after_accepted, lemma_instance_push_keeps_positions, lemma_instance_run,
    lemma_loading_keeps_packed, lemma_node_added_keeps_packed, stored_at, Design, DesignCounts,
    DesignError, DesignMetadata, DesignNodeError,
};
pub use crate::ids::{
    ConnectionId, DisconnectId, DriverId, IdPrimitive, InstanceId, MemoryId, NbrSourcesId,
    ProcessId, SensitivityId, SignalId, TypeId, ValueId,
};
pub use crate::text::{append_decimal, decimal, digit_char};
pub use crate::nodes::{
    Connection, Disconnect, Driver, Drivers, IdIndex, Instance, Memory, NbrSources,
    NbrSourcesEntry, Node, ObjKind, ObjectSlot, ObjectSlotKind, Process, RecordField,
    ScalarBound, Sensitivity, SensitivityList, Signal, SignalKind, SubSignal, TypeKind, TypeNode,
    Value, ValueKindData, ValueOffsets, Wkind,
};
