//! References from the elaborated design into the GHDL AST.
//!
//! The AST itself is loaded and owned outside this library; the design only
//! records which AST node a table entry came from, by the node's non-zero index.

use vstd::prelude::*;

use crate::ids::IdPrimitive;

verus! {

/// Reference to a node of the GHDL AST, by its non-zero node index.
#[derive(Clone, Copy, Debug, PartialEq, Eq, Structural, Hash)]
pub struct AstNodeId(pub IdPrimitive);

/// Statement that created an instance scope (instantiation, block, process,
/// generate body or iteration, procedure call, protected variable).
pub type InstanceStatementNodeId = AstNodeId;

/// Construct that defines an instance scope (architecture, entity, component,
/// package, configuration, block, generate, process, subprogram body).
pub type InstanceSourceNodeId = AstNodeId;

/// Block or component configuration bound to an instance.
pub type InstanceConfigurationNodeId = AstNodeId;

/// Block/entity header scope identity of an instance.
pub type InstanceBlockRefNodeId = AstNodeId;

/// Uninstantiated package or subprogram specification scope.
pub type UninstantiatedScopeRefNodeId = AstNodeId;

/// Declaration that owns an object slot.
pub type DesignSlotDeclarationNodeId = AstNodeId;

/// Declaration of a signal (explicit, interface, view, guard, or implicit attribute).
pub type SignalDeclNodeId = AstNodeId;

/// Process statement or concurrent statement that owns a process entry.
pub type ProcessStmtNodeId = AstNodeId;

/// Association element (by name or by expression) that created a connection.
pub type ConnectionAssociationNodeId = AstNodeId;

/// Element declaration or record element constraint of a record field.
pub type RecordFieldDeclNodeId = AstNodeId;

/// Type or subtype definition.
pub type TypeAndSubtypeDefinitionNodeId = AstNodeId;

/// Constant declaration.
pub type ConstantDeclarationNodeId = AstNodeId;

/// Direction of a scalar or array range.
#[derive(Clone, Copy, Debug, PartialEq, Eq, Structural)]
pub enum Direction {
    /// Ascending range (`to`).
    To,
    /// Descending range (`downto`).
    Downto,
}

} // verus!
