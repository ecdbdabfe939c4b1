//! Design node types of a GHDL elaborated design: instances with object
//! slots, processes interconnected by signals, and interned types, values and
//! memories used at run time.

use vstd::prelude::*;

use crate::ast_refs::{
    ConnectionAssociationNodeId, ConstantDeclarationNodeId, DesignSlotDeclarationNodeId,
    Direction, InstanceBlockRefNodeId, InstanceConfigurationNodeId, InstanceSourceNodeId,
    InstanceStatementNodeId, ProcessStmtNodeId, RecordFieldDeclNodeId, SignalDeclNodeId,
    TypeAndSubtypeDefinitionNodeId, UninstantiatedScopeRefNodeId,
};
use crate::design::Design;
use crate::ids::{
    ConnectionId, DisconnectId, DriverId, InstanceId, MemoryId, NbrSourcesId, ProcessId,
    SensitivityId, SignalId, TypeId, ValueId,
};

verus! {

/// Top-level tagged design node, as found on one line of the design stream.
#[derive(Debug)]
pub enum Node {
    Instance(Instance),
    ObjectSlot(ObjectSlot),
    Signal(Signal),
    Process(Process),
    Driver(Driver),
    Sensitivity(Sensitivity),
    Connection(Connection),
    Disconnect(Disconnect),
    Type(TypeNode),
    Value(Value),
    Memory(Memory),
    NbrSources(NbrSources),
}

impl Node {
    /// Returns the tag string of this node kind.
    pub fn type_str(&self) -> (r: &'static str)
        ensures
            match self {
                Node::Instance(..) => r@ == "instance"@,
                Node::ObjectSlot(..) => r@ == "object_slot"@,
                Node::Signal(..) => r@ == "signal"@,
                Node::Process(..) => r@ == "process"@,
                Node::Driver(..) => r@ == "driver"@,
                Node::Sensitivity(..) => r@ == "sensitivity"@,
                Node::Connection(..) => r@ == "connection"@,
                Node::Disconnect(..) => r@ == "disconnect"@,
                Node::Type(..) => r@ == "type"@,
                Node::Value(..) => r@ == "value"@,
                Node::Memory(..) => r@ == "memory"@,
                Node::NbrSources(..) => r@ == "nbr_sources"@,
            },
    {
        match self {
            Node::Instance(..) => "instance",
            Node::ObjectSlot(..) => "object_slot",
            Node::Signal(..) => "signal",
            Node::Process(..) => "process",
            Node::Driver(..) => "driver",
            Node::Sensitivity(..) => "sensitivity",
            Node::Connection(..) => "connection",
            Node::Disconnect(..) => "disconnect",
            Node::Type(..) => "type",
            Node::Value(..) => "value",
            Node::Memory(..) => "memory",
            Node::NbrSources(..) => "nbr_sources",
        }
    }
}

/// Indexes a packed design table via a 1-based wire ID.
pub trait IdIndex {
    /// The 0-based table index that this entry's ID addresses.
    spec fn table_index(&self) -> int;

    /// The non-zero wire value of the ID by which this entry is indexed.
    spec fn wire_id(&self) -> int;

    /// An entry is indexed at its wire ID minus one.
    proof fn lemma_index_from_wire(&self)
        ensures
            self.table_index() == self.wire_id() - 1,
    ;

    /// Returns the 0-based index into the corresponding packed table (`raw - 1`).
    fn id_index(&self) -> (r: usize)
        ensures
            r == self.table_index(),
    ;
}

/// Elaborated scope in the design hierarchy: an architecture, block, generate
/// iteration, process, subprogram activation, package instance or foreign module.
#[derive(Debug)]
pub struct Instance {
    /// Unique instance index (starts at 1; IDs may skip values).
    pub id: InstanceId,
    /// Statement that created this scope; `None` for root, packages and
    /// verification units.
    pub stmt: Option<InstanceStatementNodeId>,
    /// Source construct that defines the scope.
    pub source: Option<InstanceSourceNodeId>,
    /// Parent scope instance.
    pub parent: Option<InstanceId>,
    /// Configuration bound to this instance, if any.
    pub config: Option<InstanceConfigurationNodeId>,
    /// Head of the verification-unit instance chain for this scope.
    pub extra: Option<InstanceId>,
    /// Block/entity header scope identity.
    pub block: Option<InstanceBlockRefNodeId>,
    /// Uninstantiated package or subprogram specification scope.
    pub uninst: Option<UninstantiatedScopeRefNodeId>,
    /// True when a subprogram has a signal formal associated by individual elements.
    pub has_individual_association_formals: bool,
    /// True when an ancestor instance has individually associated signal formals.
    pub has_ancestor_with_individual_association_formals: bool,
    /// Foreign-module binding id; `0` for ordinary VHDL.
    pub foreign: i32,
}

impl Instance {
    /// This instance carries nothing but its ID: the placeholder for a missing
    /// instance table entry.
    pub open spec fn is_placeholder(&self) -> bool {
        &&& self.stmt is None
        &&& self.source is None
        &&& self.parent is None
        &&& self.config is None
        &&& self.extra is None
        &&& self.block is None
        &&& self.uninst is None
        &&& !self.has_individual_association_formals
        &&& !self.has_ancestor_with_individual_association_formals
        &&& self.foreign == 0
    }

    /// A placeholder refers to nothing: no statement, source, parent,
    /// configuration, verification unit, block or uninstantiated scope, no
    /// flags, and no foreign binding.
    pub proof fn lemma_placeholder_fields(&self)
        requires
            self.is_placeholder(),
        ensures
            self.stmt is None,
            self.source is None,
            self.parent is None,
            self.config is None,
            self.extra is None,
            self.block is None,
            self.uninst is None,
            !self.has_individual_association_formals,
            !self.has_ancestor_with_individual_association_formals,
            self.foreign == 0,
    {
    }

    /// Creates a placeholder for a missing instance table entry.
    pub fn dummy(id: InstanceId) -> (r: Self)
        ensures
            r.id == id,
            r.is_placeholder(),
            r.stmt is None,
            r.source is None,
            r.parent is None,
            r.config is None,
            r.extra is None,
            r.block is None,
            r.uninst is None,
            !r.has_individual_association_formals,
            !r.has_ancestor_with_individual_association_formals,
            r.foreign == 0,
    {
        Self {
            id,
            stmt: None,
            source: None,
            parent: None,
            config: None,
            extra: None,
            block: None,
            uninst: None,
            has_individual_association_formals: false,
            has_ancestor_with_individual_association_formals: false,
            foreign: 0,
        }
    }
}

impl IdIndex for Instance {
    open spec fn table_index(&self) -> int {
        self.id.table_index()
    }

    open spec fn wire_id(&self) -> int {
        self.id.raw() as int
    }

    proof fn lemma_index_from_wire(&self) {
        self.id.lemma_table_index();
    }

    fn id_index(&self) -> usize {
        self.id.index()
    }
}

/// Kind of entry stored in an instance object slot.
#[derive(Clone, Copy, Debug)]
pub enum ObjKind {
    /// Unused slot (wire tag `none`).
    Unused,
    /// Constant, variable, signal, port, generic, file, etc.
    Object,
    /// Subtype indication or interface type generic.
    Subtype,
    /// Interface subprogram generic.
    Subprg,
    /// Nested instance.
    Instance,
}

/// One occupied slot in an instance's object table (slot numbers are 1-based).
#[derive(Debug)]
pub struct ObjectSlot {
    /// Owning instance.
    pub instance: InstanceId,
    /// 1-based slot index within that instance.
    pub slot: u32,
    /// Declaration owning this slot, when found on the source declaration chain.
    pub decl: Option<DesignSlotDeclarationNodeId>,
    /// Run-time contents of the slot.
    pub kind: ObjectSlotKind,
}

impl IdIndex for ObjectSlot {
    open spec fn table_index(&self) -> int {
        self.instance.table_index()
    }

    open spec fn wire_id(&self) -> int {
        self.instance.raw() as int
    }

    proof fn lemma_index_from_wire(&self) {
        self.instance.lemma_table_index();
    }

    fn id_index(&self) -> usize {
        self.instance.index()
    }
}

/// Run-time contents of an [`ObjectSlot`].
#[derive(Debug)]
pub enum ObjectSlotKind {
    /// Unused (wire tag `none`).
    Unused,
    /// Elaborated object with type and value.
    Object { typ: TypeId, value: ValueId },
    /// Elaborated subtype indication; `def` holds the actual definition of an
    /// interface type generic.
    Subtype { typ: TypeId, def: Option<TypeAndSubtypeDefinitionNodeId> },
    /// Interface subprogram generic (the bound subprogram is in [`ObjectSlot::decl`]).
    Subprg,
    /// Nested instance pointer.
    Instance { target_instance: InstanceId },
}

/// Discriminant of a [`Signal`] entry.
#[derive(Clone, Copy, Debug)]
pub enum SignalKind {
    /// Explicit signal or port declaration.
    User,
    /// Implicit signal `S'QUIET(T)`.
    Quiet,
    /// Implicit signal `S'STABLE(T)`.
    Stable,
    /// Implicit signal `S'TRANSACTION`.
    Transaction,
    /// Implicit signal `S'DELAYED(T)`.
    Delayed,
    /// Implicit `GUARD` signal of a guarded block.
    Guard,
    /// Placeholder allocated before the entry is filled (wire tag `none`).
    Unfilled,
}

/// Simulation signal table entry.
#[derive(Debug)]
pub struct Signal {
    /// 1-based index into the signals table.
    pub id: SignalId,
    /// User vs implicit attribute/guard kind.
    pub signal_kind: SignalKind,
    /// Source declaration or implicit attribute for this signal.
    pub decl: Option<SignalDeclNodeId>,
    /// Instance that owns this signal.
    pub instance: InstanceId,
    /// Elaborated type.
    pub typ: TypeId,
    /// Initial-value memory.
    pub val_init: MemoryId,
    /// Current-value memory.
    pub val: MemoryId,
    /// Head of the sensitivity list of processes sensitive to this signal.
    pub sensitivity: Option<SensitivityId>,
    /// Head of the connection list involving this signal.
    pub connect: Option<ConnectionId>,
    /// If set, this formal was collapsed onto that actual signal.
    pub collapsed_by: Option<SignalId>,
    /// Offset of this signal within `collapsed_by`.
    pub collapsed_offs: ValueOffsets,
    /// Whether the declaration needs `'ACTIVE` tracking.
    pub has_active: bool,
    /// Head of the driver list (user signals only).
    pub drivers: Option<DriverId>,
    /// Head of the disconnection-specification list (user signals only).
    pub disconnect: Option<DisconnectId>,
    /// Per-scalar-element source counts (user signals only).
    pub nbr_sources: Option<NbrSourcesId>,
    /// Time parameter of `S'QUIET(T)`, `S'STABLE(T)` or `S'DELAYED(T)`.
    pub time: Option<i64>,
    /// Prefix signal of quiet/stable/delayed/transaction attributes.
    pub pfx: Option<SubSignal>,
}

impl IdIndex for Signal {
    open spec fn table_index(&self) -> int {
        self.id.table_index()
    }

    open spec fn wire_id(&self) -> int {
        self.id.raw() as int
    }

    proof fn lemma_index_from_wire(&self) {
        self.id.lemma_table_index();
    }

    fn id_index(&self) -> usize {
        self.id.index()
    }
}

/// Explicit or implicit process in the elaborated design.
#[derive(Debug)]
pub struct Process {
    /// 1-based index into the processes table.
    pub id: ProcessId,
    /// Process or concurrent statement that owns this process entry.
    pub proc: Option<ProcessStmtNodeId>,
    /// Scope instance.
    pub instance: InstanceId,
    /// Head of the list of signals this process drives (`prev_proc` chain).
    pub drivers: Option<DriverId>,
    /// Head of the sensitivity list (`prev_proc` chain).
    pub sensitivity: Option<SensitivityId>,
}

impl Process {
    /// Walks the drivers of this process (follows [`Driver::prev_proc`] from the head).
    pub fn drivers<'design>(&self, design: &'design Design) -> (r: Drivers<'design>)
        ensures
            r.design() == *design,
            r.pending() == self.drivers,
    {
        Drivers { design, next: self.drivers }
    }

    /// Walks the sensitivity entries of this process (follows [`Sensitivity::prev_proc`]).
    pub fn sensitivity_list<'design>(&self, design: &'design Design) -> (r: SensitivityList<
        'design,
    >)
        ensures
            r.design() == *design,
            r.pending() == self.sensitivity,
    {
        SensitivityList { design, next: self.sensitivity }
    }
}

impl IdIndex for Process {
    open spec fn table_index(&self) -> int {
        self.id.table_index()
    }

    open spec fn wire_id(&self) -> int {
        self.id.raw() as int
    }

    proof fn lemma_index_from_wire(&self) {
        self.id.lemma_table_index();
    }

    fn id_index(&self) -> usize {
        self.id.index()
    }
}

/// One process driving (a part of) a signal.
///
/// `prev_sig` chains all drivers of the same signal (head at [`Signal::drivers`]);
/// `prev_proc` chains all signals driven by the same process (head at [`Process::drivers`]).
#[derive(Debug)]
pub struct Driver {
    /// 1-based index into the drivers table.
    pub id: DriverId,
    /// Signal (or subelement) being driven.
    pub sig: SubSignal,
    /// Driving process.
    pub proc: ProcessId,
    /// Previous driver of the same signal.
    pub prev_sig: Option<DriverId>,
    /// Previous signal driven by the same process.
    pub prev_proc: Option<DriverId>,
}

impl IdIndex for Driver {
    open spec fn table_index(&self) -> int {
        self.id.table_index()
    }

    open spec fn wire_id(&self) -> int {
        self.id.raw() as int
    }

    proof fn lemma_index_from_wire(&self) {
        self.id.lemma_table_index();
    }

    fn id_index(&self) -> usize {
        self.id.index()
    }
}

/// Walk over a process's drivers (follows [`Driver::prev_proc`]).
#[derive(Clone)]
pub struct Drivers<'design> {
    design: &'design Design,
    next: Option<DriverId>,
}

impl<'design> Drivers<'design> {
    /// The design whose drivers table is walked.
    pub closed spec fn design(&self) -> Design {
        *self.design
    }

    /// The ID of the driver that the next step yields, if any.
    pub closed spec fn pending(&self) -> Option<DriverId> {
        self.next
    }

    /// Yields the pending driver and moves on to its `prev_proc`; yields nothing,
    /// and stays put, when no driver is pending or its ID is out of range.
    pub fn next(&mut self) -> (r: Option<&'design Driver>)
        ensures
            final(self).design() == old(self).design(),
            match old(self).pending() {
                Some(id) if 0 <= id.table_index() < old(self).design().drivers@.len() => {
                    &&& r matches Some(d)
                    &&& *d == old(self).design().drivers@[id.table_index()]
                    &&& final(self).pending() == d.prev_proc
                },
                _ => r is None && final(self).pending() == old(self).pending(),
            },
            old(self).pending() matches Some(id) ==> (1 <= id.raw() <= old(self).design().drivers@.len()
                ==> (r matches Some(d) && *d == old(self).design().drivers@[id.raw() - 1])),
            old(self).pending() matches Some(id) ==> (id.raw() > old(self).design().drivers@.len()
                ==> r is None),
            old(self).pending() is None ==> r is None,
            old(self).design().wf() ==> (r matches Some(d) ==> old(self).pending() == Some(d.id)),
    {
        let design: &'design Design = self.design;
        match self.next {
            Some(id) => {
                let index = id.index();
                if index < design.drivers.len() {
                    proof {
                        let e = design.drivers@[index as int];
                        if design.wf() {
                            assert(e.table_index() == index);
                            e.id.lemma_raw_injective(id);
                        }
                    }
                    let driver: &'design Driver = &design.drivers[index];
                    self.next = driver.prev_proc;
                    Some(driver)
                } else {
                    None
                }
            },
            None => None,
        }
    }
}

/// One sensitivity edge: a process resumes on an event on (part of) a signal.
#[derive(Debug)]
pub struct Sensitivity {
    /// 1-based index into the sensitivity table.
    pub id: SensitivityId,
    /// Signal (or subelement) that wakes the process.
    pub sig: SubSignal,
    /// Sensitive process.
    pub proc: ProcessId,
    /// Previous sensitivity entry for the same signal.
    pub prev_sig: Option<SensitivityId>,
    /// Previous sensitivity entry for the same process.
    pub prev_proc: Option<SensitivityId>,
}

impl IdIndex for Sensitivity {
    open spec fn table_index(&self) -> int {
        self.id.table_index()
    }

    open spec fn wire_id(&self) -> int {
        self.id.raw() as int
    }

    proof fn lemma_index_from_wire(&self) {
        self.id.lemma_table_index();
    }

    fn id_index(&self) -> usize {
        self.id.index()
    }
}

/// Walk over a process's sensitivity list (follows [`Sensitivity::prev_proc`]).
#[derive(Clone)]
pub struct SensitivityList<'design> {
    design: &'design Design,
    next: Option<SensitivityId>,
}

impl<'design> SensitivityList<'design> {
    /// The design whose sensitivity table is walked.
    pub closed spec fn design(&self) -> Design {
        *self.design
    }

    /// The ID of the sensitivity entry that the next step yields, if any.
    pub closed spec fn pending(&self) -> Option<SensitivityId> {
        self.next
    }

    /// Yields the pending sensitivity entry and moves on to its `prev_proc`;
    /// yields nothing, and stays put, when no entry is pending or its ID is out of range.
    pub fn next(&mut self) -> (r: Option<&'design Sensitivity>)
        ensures
            final(self).design() == old(self).design(),
            match old(self).pending() {
                Some(id) if 0 <= id.table_index() < old(self).design().sensitivities@.len() => {
                    &&& r matches Some(s)
                    &&& *s == old(self).design().sensitivities@[id.table_index()]
                    &&& final(self).pending() == s.prev_proc
                },
                _ => r is None && final(self).pending() == old(self).pending(),
            },
            old(self).pending() matches Some(id) ==> (1 <= id.raw() <= old(self).design().sensitivities@.len()
                ==> (r matches Some(s) && *s == old(self).design().sensitivities@[id.raw() - 1])),
            old(self).pending() matches Some(id) ==> (id.raw() > old(self).design().sensitivities@.len()
                ==> r is None),
            old(self).pending() is None ==> r is None,
            old(self).design().wf() ==> (r matches Some(s) ==> old(self).pending() == Some(s.id)),
    {
        let design: &'design Design = self.design;
        match self.next {
            Some(id) => {
                let index = id.index();
                if index < design.sensitivities.len() {
                    proof {
                        let e = design.sensitivities@[index as int];
                        if design.wf() {
                            assert(e.table_index() == index);
                            e.id.lemma_raw_injective(id);
                        }
                    }
                    let sensitivity: &'design Sensitivity = &design.sensitivities[index];
                    self.next = sensitivity.prev_proc;
                    Some(sensitivity)
                } else {
                    None
                }
            },
            None => None,
        }
    }
}

/// Association between formal and actual sub-signals (port map entry).
#[derive(Debug)]
pub struct Connection {
    /// 1-based index into the connections table.
    pub id: ConnectionId,
    /// Formal endpoint (port or interface signal).
    pub formal: SubSignal,
    /// Actual endpoint (local signal, or open with `base == None`).
    pub actual: SubSignal,
    /// Next connection sharing the same formal signal.
    pub formal_link: Option<ConnectionId>,
    /// Next connection sharing the same actual signal.
    pub actual_link: Option<ConnectionId>,
    /// True when the formal is elided onto (a slice of) the actual.
    pub collapsed: bool,
    /// Association element that created this connection.
    pub assoc: Option<ConnectionAssociationNodeId>,
    /// Instance in whose context the association was written.
    pub assoc_inst: InstanceId,
}

impl IdIndex for Connection {
    open spec fn table_index(&self) -> int {
        self.id.table_index()
    }

    open spec fn wire_id(&self) -> int {
        self.id.raw() as int
    }

    proof fn lemma_index_from_wire(&self) {
        self.id.lemma_table_index();
    }

    fn id_index(&self) -> usize {
        self.id.index()
    }
}

/// Disconnection specification for a guarded signal.
#[derive(Debug)]
pub struct Disconnect {
    /// 1-based index into the disconnect table.
    pub id: DisconnectId,
    /// Affected signal (or subelement).
    pub sig: SubSignal,
    /// Previous disconnect entry for the same signal.
    pub prev: Option<DisconnectId>,
    /// Disconnection time.
    pub val: i64,
}

impl IdIndex for Disconnect {
    open spec fn table_index(&self) -> int {
        self.id.table_index()
    }

    open spec fn wire_id(&self) -> int {
        self.id.raw() as int
    }

    proof fn lemma_index_from_wire(&self) {
        self.id.lemma_table_index();
    }

    fn id_index(&self) -> usize {
        self.id.index()
    }
}

/// Elaborated type kind.
#[derive(Clone, Copy, Debug)]
pub enum TypeKind {
    /// Predefined `BIT`.
    Bit,
    /// Multi-value logic (`STD_LOGIC` / `STD_ULOGIC` family).
    Logic,
    /// Integer or enumeration subtype.
    Discrete,
    /// Floating-point subtype.
    Float,
    /// Slice of a vector with known width but dynamic bounds.
    Slice,
    /// Bounded 1-D array of a net type.
    Vector,
    /// Unbounded 1-D vector.
    UnboundedVector,
    /// Fully bounded (possibly multi-dimensional) array.
    Array,
    /// Array with known indexes but unbounded element type.
    ArrayUnbounded,
    /// Array without static index bounds.
    UnboundedArray,
    /// Record with at least one unbounded element.
    UnboundedRecord,
    /// Fully bounded record.
    Record,
    /// Access type.
    Access,
    /// File type.
    File,
    /// Protected type.
    Protected,
}

/// Meaning of [`TypeNode::w`].
#[derive(Clone, Copy, Debug)]
pub enum Wkind {
    /// Width not defined.
    Undef,
    /// `w` is the number of synthesis nets / bits.
    Net,
    /// `w` is the number of scalar elements (simulation).
    Sim,
}

/// Interned elaborated type; fields after the common header depend on `type_kind`.
#[derive(Debug)]
pub struct TypeNode {
    /// Interned type id.
    pub id: TypeId,
    /// Structural kind.
    pub type_kind: TypeKind,
    /// Interpretation of `w`.
    pub wkind: Wkind,
    /// Power-of-two byte alignment (0..=3 for 1/2/4/8 bytes).
    pub align: u32,
    /// Memory size in bytes.
    pub sz: i64,
    /// Width: nets/bits or scalar elements.
    pub w: u32,
    /// Left bound of a scalar or array dimension.
    pub left: Option<ScalarBound>,
    /// Right bound of a scalar or array dimension.
    pub right: Option<ScalarBound>,
    /// Direction of a scalar or array range.
    pub dir: Option<Direction>,
    /// Signed vs unsigned net representation for discrete types.
    pub is_signed: Option<bool>,
    /// Base type for slices or records.
    pub base_type: Option<TypeId>,
    /// Length of a vector/array dimension or slice.
    pub len: Option<u32>,
    /// Element type of an array, vector or slice.
    pub element_type: Option<TypeId>,
    /// Index subtype of an unbounded array/vector.
    pub index_type: Option<TypeId>,
    /// True on the last (innermost) array/vector dimension.
    pub is_last: Option<bool>,
    /// Record elements in declaration order.
    pub fields: Option<Vec<RecordField>>,
    /// Designated type of an access type.
    pub designated_type: Option<TypeId>,
    /// Memory size to store an access value's designated object.
    pub acc_type_sz: Option<i64>,
    /// Memory size for bounds when the designated type can be a signal.
    pub acc_bnd_sz: Option<i64>,
    /// Element type of a file type.
    pub file_type: Option<TypeId>,
    /// GHDL file-type signature string.
    pub signature: Option<String>,
}

impl IdIndex for TypeNode {
    open spec fn table_index(&self) -> int {
        self.id.table_index()
    }

    open spec fn wire_id(&self) -> int {
        self.id.raw() as int
    }

    proof fn lemma_index_from_wire(&self) {
        self.id.lemma_table_index();
    }

    fn id_index(&self) -> usize {
        self.id.index()
    }
}

/// Scalar range endpoint.
#[derive(Clone, Copy, Debug)]
pub enum ScalarBound {
    /// Floating-point bound, held as its IEEE-754 binary64 bit pattern.
    Float(u64),
    /// Integer/enumeration bound.
    Discrete(i64),
}

/// One element of an elaborated record type.
#[derive(Debug)]
pub struct RecordField {
    /// Element type.
    pub typ: TypeId,
    /// Offset of this element within the parent record.
    pub offs: ValueOffsets,
    /// Element declaration in the AST, if available.
    pub decl: Option<RecordFieldDeclNodeId>,
}

impl IdIndex for RecordField {
    open spec fn table_index(&self) -> int {
        self.typ.table_index()
    }

    open spec fn wire_id(&self) -> int {
        self.typ.raw() as int
    }

    proof fn lemma_index_from_wire(&self) {
        self.typ.lemma_table_index();
    }

    fn id_index(&self) -> usize {
        self.typ.index()
    }
}

/// Interned value node.
#[derive(Debug)]
pub struct Value {
    /// Interned value id.
    pub id: ValueId,
    /// Kind-specific payload.
    pub kind: ValueKindData,
}

impl IdIndex for Value {
    open spec fn table_index(&self) -> int {
        self.id.table_index()
    }

    open spec fn wire_id(&self) -> int {
        self.id.raw() as int
    }

    proof fn lemma_index_from_wire(&self) {
        self.id.lemma_table_index();
    }

    fn id_index(&self) -> usize {
        self.id.index()
    }
}

/// Kind-specific payload of a [`Value`].
#[derive(Debug)]
pub enum ValueKindData {
    /// User signal: index into the signals table.
    Signal { signal: SignalId },
    /// Raw constant or run-time data blob.
    Memory { memory: MemoryId },
    /// Open file object.
    File { file: u32 },
    /// Named constant wrapping another value; `loc` is the constant declaration.
    Const { value: ValueId, loc: Option<ConstantDeclarationNodeId> },
    /// Static view of another value with a compatible type (slice, field, alias).
    Alias { obj: ValueId, typ: TypeId, offs: ValueOffsets },
    /// Dynamic index into a prefix value.
    DynAlias { obj: ValueId, poff: u32, ptype: TypeId, voff: u32, eoff: u32 },
    /// Bundle for individual signal associations in simulation.
    SigVal { sigs: Option<MemoryId>, vals: Option<MemoryId> },
}

/// Interned raw memory blob (Base64-encoded on the wire).
#[derive(Debug)]
pub struct Memory {
    /// Interned memory id.
    pub id: MemoryId,
    /// Declared byte length of the blob.
    pub size: u32,
    /// Decoded contents.
    pub data: Vec<u8>,
}

impl IdIndex for Memory {
    open spec fn table_index(&self) -> int {
        self.id.table_index()
    }

    open spec fn wire_id(&self) -> int {
        self.id.raw() as int
    }

    proof fn lemma_index_from_wire(&self) {
        self.id.lemma_table_index();
    }

    fn id_index(&self) -> usize {
        self.id.index()
    }
}

/// Per-scalar-element source-count array for a user signal.
#[derive(Debug)]
pub struct NbrSources {
    /// Interned nbr-sources id.
    pub id: NbrSourcesId,
    /// One entry per scalar element.
    pub entries: Vec<NbrSourcesEntry>,
}

impl IdIndex for NbrSources {
    open spec fn table_index(&self) -> int {
        self.id.table_index()
    }

    open spec fn wire_id(&self) -> int {
        self.id.raw() as int
    }

    proof fn lemma_index_from_wire(&self) {
        self.id.lemma_table_index();
    }

    fn id_index(&self) -> usize {
        self.id.index()
    }
}

/// Source counts for one scalar signal element.
#[derive(Debug)]
pub struct NbrSourcesEntry {
    /// Distinct processes driving this element.
    pub nbr_drivers: u32,
    /// Sources from OUT/INOUT/BUFFER/LINKAGE port connections.
    pub nbr_conns: u32,
    /// Final source count after collapse propagation.
    pub total: u32,
}

/// Dual offset into net (scalar-element) and memory (byte) layouts.
#[derive(Debug)]
pub struct ValueOffsets {
    /// Index into scalar-element / net space.
    pub net_off: u32,
    /// Byte offset in memory layout.
    pub mem_off: i64,
}

/// Signal or subelement thereof.
#[derive(Debug)]
pub struct SubSignal {
    /// Base signal; `None` when the endpoint is open / unbound.
    pub base: Option<SignalId>,
    /// Offset within the base signal's value.
    pub offs: ValueOffsets,
    /// Subelement type; omitted when identical to the base signal's type.
    pub typ: Option<TypeId>,
}

} // verus!
