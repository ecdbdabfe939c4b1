//! Design table ID types.

use vstd::prelude::*;
use vstd::std_specs::convert::FromSpec;

verus! {

/// Non-zero primitive that backs every design table ID (1-based on the wire).
#[derive(Clone, Copy, Debug, PartialEq, Eq, Structural, Hash)]
pub struct IdPrimitive(u32);

impl IdPrimitive {
    #[verifier::type_invariant]
    spec fn nonzero(self) -> bool {
        self.0 != 0
    }

    /// The wire value held by this primitive.
    pub closed spec fn value(self) -> u32 {
        self.0
    }

    /// Two primitives with the same value are the same primitive.
    pub proof fn lemma_value_injective(self, other: Self)
        ensures
            self.value() == other.value() <==> self == other,
    {
    }

    /// Creates a primitive from `value`, or `None` when `value` is zero.
    pub fn new(value: u32) -> (r: Option<Self>)
        ensures
            r is Some <==> value != 0,
            r matches Some(p) ==> p.value() == value,
    {
        if value == 0 {
            None
        } else {
            Some(IdPrimitive(value))
        }
    }

    /// Returns the non-zero value.
    pub fn get(self) -> (r: u32)
        ensures
            r == self.value(),
            r != 0,
    {
        proof {
            use_type_invariant(self);
        }
        self.0
    }
}

/// Row ID of the instances table (1-based on the wire, use [`Self::index`]
/// for array access).
#[derive(Clone, Copy, Debug, PartialEq, Eq, Structural, Hash)]
pub struct InstanceId(u32);

impl InstanceId {
    #[verifier::type_invariant]
    spec fn nonzero(self) -> bool {
        self.0 != 0
    }

    /// The non-zero wire value of this ID.
    pub closed spec fn raw(self) -> u32 {
        self.0
    }

    /// The 0-based table index that this ID addresses.
    pub open spec fn table_index(self) -> int {
        self.raw() - 1
    }

    /// Converting a primitive with `From` keeps its wire value.
    pub proof fn lemma_from_keeps_raw(v: IdPrimitive)
        ensures
            <Self as FromSpec<IdPrimitive>>::from_spec(v).raw() == v.value(),
    {
    }

    /// The table index that an ID addresses is its wire value minus one, so the
    /// IDs `1, 2, 3, ..` address the indexes `0, 1, 2, ..`.
    pub proof fn lemma_table_index(self)
        ensures
            self.table_index() == self.raw() - 1,
            self.table_index() + 1 == self.raw(),
    {
    }

    /// IDs with the same wire value are the same ID.
    pub proof fn lemma_raw_injective(self, other: Self)
        ensures
            self.raw() == other.raw() <==> self == other,
    {
    }

    /// Creates an ID from a non-zero raw index.
    pub fn from_raw(id: IdPrimitive) -> (r: Self)
        ensures
            r.raw() == id.value(),
    {
        InstanceId(id.get())
    }

    /// Returns the non-zero wire index.
    pub fn to_raw(self) -> (r: IdPrimitive)
        ensures
            r.value() == self.raw(),
    {
        proof {
            use_type_invariant(self);
        }
        IdPrimitive(self.0)
    }

    /// Returns the 0-based index into the corresponding packed table (`raw - 1`).
    pub fn index(self) -> (r: usize)
        ensures
            r == self.table_index(),
            r + 1 == self.raw(),
    {
        proof {
            use_type_invariant(self);
        }
        self.0 as usize - 1
    }
}

impl From<IdPrimitive> for InstanceId {
    fn from(id: IdPrimitive) -> (r: Self) {
        InstanceId(id.get())
    }
}

impl vstd::std_specs::convert::FromSpecImpl<IdPrimitive> for InstanceId {
    open spec fn obeys_from_spec() -> bool {
        true
    }

    closed spec fn from_spec(v: IdPrimitive) -> Self {
        InstanceId(v.value())
    }
}

/// Row ID of the signals table (1-based on the wire, use [`Self::index`]
/// for array access).
#[derive(Clone, Copy, Debug, PartialEq, Eq, Structural, Hash)]
pub struct SignalId(u32);

impl SignalId {
    #[verifier::type_invariant]
    spec fn nonzero(self) -> bool {
        self.0 != 0
    }

    /// The non-zero wire value of this ID.
    pub closed spec fn raw(self) -> u32 {
        self.0
    }

    /// The 0-based table index that this ID addresses.
    pub open spec fn table_index(self) -> int {
        self.raw() - 1
    }

    /// Converting a primitive with `From` keeps its wire value.
    pub proof fn lemma_from_keeps_raw(v: IdPrimitive)
        ensures
            <Self as FromSpec<IdPrimitive>>::from_spec(v).raw() == v.value(),
    {
    }

    /// The table index that an ID addresses is its wire value minus one, so the
    /// IDs `1, 2, 3, ..` address the indexes `0, 1, 2, ..`.
    pub proof fn lemma_table_index(self)
        ensures
            self.table_index() == self.raw() - 1,
            self.table_index() + 1 == self.raw(),
    {
    }

    /// IDs with the same wire value are the same ID.
    pub proof fn lemma_raw_injective(self, other: Self)
        ensures
            self.raw() == other.raw() <==> self == other,
    {
    }

    /// Creates an ID from a non-zero raw index.
    pub fn from_raw(id: IdPrimitive) -> (r: Self)
        ensures
            r.raw() == id.value(),
    {
        SignalId(id.get())
    }

    /// Returns the non-zero wire index.
    pub fn to_raw(self) -> (r: IdPrimitive)
        ensures
            r.value() == self.raw(),
    {
        proof {
            use_type_invariant(self);
        }
        IdPrimitive(self.0)
    }

    /// Returns the 0-based index into the corresponding packed table (`raw - 1`).
    pub fn index(self) -> (r: usize)
        ensures
            r == self.table_index(),
            r + 1 == self.raw(),
    {
        proof {
            use_type_invariant(self);
        }
        self.0 as usize - 1
    }
}

impl From<IdPrimitive> for SignalId {
    fn from(id: IdPrimitive) -> (r: Self) {
        SignalId(id.get())
    }
}

impl vstd::std_specs::convert::FromSpecImpl<IdPrimitive> for SignalId {
    open spec fn obeys_from_spec() -> bool {
        true
    }

    closed spec fn from_spec(v: IdPrimitive) -> Self {
        SignalId(v.value())
    }
}

/// Row ID of the processes table (1-based on the wire, use [`Self::index`]
/// for array access).
#[derive(Clone, Copy, Debug, PartialEq, Eq, Structural, Hash)]
pub struct ProcessId(u32);

impl ProcessId {
    #[verifier::type_invariant]
    spec fn nonzero(self) -> bool {
        self.0 != 0
    }

    /// The non-zero wire value of this ID.
    pub closed spec fn raw(self) -> u32 {
        self.0
    }

    /// The 0-based table index that this ID addresses.
    pub open spec fn table_index(self) -> int {
        self.raw() - 1
    }

    /// Converting a primitive with `From` keeps its wire value.
    pub proof fn lemma_from_keeps_raw(v: IdPrimitive)
        ensures
            <Self as FromSpec<IdPrimitive>>::from_spec(v).raw() == v.value(),
    {
    }

    /// The table index that an ID addresses is its wire value minus one, so the
    /// IDs `1, 2, 3, ..` address the indexes `0, 1, 2, ..`.
    pub proof fn lemma_table_index(self)
        ensures
            self.table_index() == self.raw() - 1,
            self.table_index() + 1 == self.raw(),
    {
    }

    /// IDs with the same wire value are the same ID.
    pub proof fn lemma_raw_injective(self, other: Self)
        ensures
            self.raw() == other.raw() <==> self == other,
    {
    }

    /// Creates an ID from a non-zero raw index.
    pub fn from_raw(id: IdPrimitive) -> (r: Self)
        ensures
            r.raw() == id.value(),
    {
        ProcessId(id.get())
    }

    /// Returns the non-zero wire index.
    pub fn to_raw(self) -> (r: IdPrimitive)
        ensures
            r.value() == self.raw(),
    {
        proof {
            use_type_invariant(self);
        }
        IdPrimitive(self.0)
    }

    /// Returns the 0-based index into the corresponding packed table (`raw - 1`).
    pub fn index(self) -> (r: usize)
        ensures
            r == self.table_index(),
            r + 1 == self.raw(),
    {
        proof {
            use_type_invariant(self);
        }
        self.0 as usize - 1
    }
}

impl From<IdPrimitive> for ProcessId {
    fn from(id: IdPrimitive) -> (r: Self) {
        ProcessId(id.get())
    }
}

impl vstd::std_specs::convert::FromSpecImpl<IdPrimitive> for ProcessId {
    open spec fn obeys_from_spec() -> bool {
        true
    }

    closed spec fn from_spec(v: IdPrimitive) -> Self {
        ProcessId(v.value())
    }
}

/// Row ID of the drivers table (1-based on the wire, use [`Self::index`]
/// for array access).
#[derive(Clone, Copy, Debug, PartialEq, Eq, Structural, Hash)]
pub struct DriverId(u32);

impl DriverId {
    #[verifier::type_invariant]
    spec fn nonzero(self) -> bool {
        self.0 != 0
    }

    /// The non-zero wire value of this ID.
    pub closed spec fn raw(self) -> u32 {
        self.0
    }

    /// The 0-based table index that this ID addresses.
    pub open spec fn table_index(self) -> int {
        self.raw() - 1
    }

    /// Converting a primitive with `From` keeps its wire value.
    pub proof fn lemma_from_keeps_raw(v: IdPrimitive)
        ensures
            <Self as FromSpec<IdPrimitive>>::from_spec(v).raw() == v.value(),
    {
    }

    /// The table index that an ID addresses is its wire value minus one, so the
    /// IDs `1, 2, 3, ..` address the indexes `0, 1, 2, ..`.
    pub proof fn lemma_table_index(self)
        ensures
            self.table_index() == self.raw() - 1,
            self.table_index() + 1 == self.raw(),
    {
    }

    /// IDs with the same wire value are the same ID.
    pub proof fn lemma_raw_injective(self, other: Self)
        ensures
            self.raw() == other.raw() <==> self == other,
    {
    }

    /// Creates an ID from a non-zero raw index.
    pub fn from_raw(id: IdPrimitive) -> (r: Self)
        ensures
            r.raw() == id.value(),
    {
        DriverId(id.get())
    }

    /// Returns the non-zero wire index.
    pub fn to_raw(self) -> (r: IdPrimitive)
        ensures
            r.value() == self.raw(),
    {
        proof {
            use_type_invariant(self);
        }
        IdPrimitive(self.0)
    }

    /// Returns the 0-based index into the corresponding packed table (`raw - 1`).
    pub fn index(self) -> (r: usize)
        ensures
            r == self.table_index(),
            r + 1 == self.raw(),
    {
        proof {
            use_type_invariant(self);
        }
        self.0 as usize - 1
    }
}

impl From<IdPrimitive> for DriverId {
    fn from(id: IdPrimitive) -> (r: Self) {
        DriverId(id.get())
    }
}

impl vstd::std_specs::convert::FromSpecImpl<IdPrimitive> for DriverId {
    open spec fn obeys_from_spec() -> bool {
        true
    }

    closed spec fn from_spec(v: IdPrimitive) -> Self {
        DriverId(v.value())
    }
}

/// Row ID of the sensitivities table (1-based on the wire, use [`Self::index`]
/// for array access).
#[derive(Clone, Copy, Debug, PartialEq, Eq, Structural, Hash)]
pub struct SensitivityId(u32);

impl SensitivityId {
    #[verifier::type_invariant]
    spec fn nonzero(self) -> bool {
        self.0 != 0
    }

    /// The non-zero wire value of this ID.
    pub closed spec fn raw(self) -> u32 {
        self.0
    }

    /// The 0-based table index that this ID addresses.
    pub open spec fn table_index(self) -> int {
        self.raw() - 1
    }

    /// Converting a primitive with `From` keeps its wire value.
    pub proof fn lemma_from_keeps_raw(v: IdPrimitive)
        ensures
            <Self as FromSpec<IdPrimitive>>::from_spec(v).raw() == v.value(),
    {
    }

    /// The table index that an ID addresses is its wire value minus one, so the
    /// IDs `1, 2, 3, ..` address the indexes `0, 1, 2, ..`.
    pub proof fn lemma_table_index(self)
        ensures
            self.table_index() == self.raw() - 1,
            self.table_index() + 1 == self.raw(),
    {
    }

    /// IDs with the same wire value are the same ID.
    pub proof fn lemma_raw_injective(self, other: Self)
        ensures
            self.raw() == other.raw() <==> self == other,
    {
    }

    /// Creates an ID from a non-zero raw index.
    pub fn from_raw(id: IdPrimitive) -> (r: Self)
        ensures
            r.raw() == id.value(),
    {
        SensitivityId(id.get())
    }

    /// Returns the non-zero wire index.
    pub fn to_raw(self) -> (r: IdPrimitive)
        ensures
            r.value() == self.raw(),
    {
        proof {
            use_type_invariant(self);
        }
        IdPrimitive(self.0)
    }

    /// Returns the 0-based index into the corresponding packed table (`raw - 1`).
    pub fn index(self) -> (r: usize)
        ensures
            r == self.table_index(),
            r + 1 == self.raw(),
    {
        proof {
            use_type_invariant(self);
        }
        self.0 as usize - 1
    }
}

impl From<IdPrimitive> for SensitivityId {
    fn from(id: IdPrimitive) -> (r: Self) {
        SensitivityId(id.get())
    }
}

impl vstd::std_specs::convert::FromSpecImpl<IdPrimitive> for SensitivityId {
    open spec fn obeys_from_spec() -> bool {
        true
    }

    closed spec fn from_spec(v: IdPrimitive) -> Self {
        SensitivityId(v.value())
    }
}

/// Row ID of the connections table (1-based on the wire, use [`Self::index`]
/// for array access).
#[derive(Clone, Copy, Debug, PartialEq, Eq, Structural, Hash)]
pub struct ConnectionId(u32);

impl ConnectionId {
    #[verifier::type_invariant]
    spec fn nonzero(self) -> bool {
        self.0 != 0
    }

    /// The non-zero wire value of this ID.
    pub closed spec fn raw(self) -> u32 {
        self.0
    }

    /// The 0-based table index that this ID addresses.
    pub open spec fn table_index(self) -> int {
        self.raw() - 1
    }

    /// Converting a primitive with `From` keeps its wire value.
    pub proof fn lemma_from_keeps_raw(v: IdPrimitive)
        ensures
            <Self as FromSpec<IdPrimitive>>::from_spec(v).raw() == v.value(),
    {
    }

    /// The table index that an ID addresses is its wire value minus one, so the
    /// IDs `1, 2, 3, ..` address the indexes `0, 1, 2, ..`.
    pub proof fn lemma_table_index(self)
        ensures
            self.table_index() == self.raw() - 1,
            self.table_index() + 1 == self.raw(),
    {
    }

    /// IDs with the same wire value are the same ID.
    pub proof fn lemma_raw_injective(self, other: Self)
        ensures
            self.raw() == other.raw() <==> self == other,
    {
    }

    /// Creates an ID from a non-zero raw index.
    pub fn from_raw(id: IdPrimitive) -> (r: Self)
        ensures
            r.raw() == id.value(),
    {
        ConnectionId(id.get())
    }

    /// Returns the non-zero wire index.
    pub fn to_raw(self) -> (r: IdPrimitive)
        ensures
            r.value() == self.raw(),
    {
        proof {
            use_type_invariant(self);
        }
        IdPrimitive(self.0)
    }

    /// Returns the 0-based index into the corresponding packed table (`raw - 1`).
    pub fn index(self) -> (r: usize)
        ensures
            r == self.table_index(),
            r + 1 == self.raw(),
    {
        proof {
            use_type_invariant(self);
        }
        self.0 as usize - 1
    }
}

impl From<IdPrimitive> for ConnectionId {
    fn from(id: IdPrimitive) -> (r: Self) {
        ConnectionId(id.get())
    }
}

impl vstd::std_specs::convert::FromSpecImpl<IdPrimitive> for ConnectionId {
    open spec fn obeys_from_spec() -> bool {
        true
    }

    closed spec fn from_spec(v: IdPrimitive) -> Self {
        ConnectionId(v.value())
    }
}

/// Row ID of the disconnects table (1-based on the wire, use [`Self::index`]
/// for array access).
#[derive(Clone, Copy, Debug, PartialEq, Eq, Structural, Hash)]
pub struct DisconnectId(u32);

impl DisconnectId {
    #[verifier::type_invariant]
    spec fn nonzero(self) -> bool {
        self.0 != 0
    }

    /// The non-zero wire value of this ID.
    pub closed spec fn raw(self) -> u32 {
        self.0
    }

    /// The 0-based table index that this ID addresses.
    pub open spec fn table_index(self) -> int {
        self.raw() - 1
    }

    /// Converting a primitive with `From` keeps its wire value.
    pub proof fn lemma_from_keeps_raw(v: IdPrimitive)
        ensures
            <Self as FromSpec<IdPrimitive>>::from_spec(v).raw() == v.value(),
    {
    }

    /// The table index that an ID addresses is its wire value minus one, so the
    /// IDs `1, 2, 3, ..` address the indexes `0, 1, 2, ..`.
    pub proof fn lemma_table_index(self)
        ensures
            self.table_index() == self.raw() - 1,
            self.table_index() + 1 == self.raw(),
    {
    }

    /// IDs with the same wire value are the same ID.
    pub proof fn lemma_raw_injective(self, other: Self)
        ensures
            self.raw() == other.raw() <==> self == other,
    {
    }

    /// Creates an ID from a non-zero raw index.
    pub fn from_raw(id: IdPrimitive) -> (r: Self)
        ensures
            r.raw() == id.value(),
    {
        DisconnectId(id.get())
    }

    /// Returns the non-zero wire index.
    pub fn to_raw(self) -> (r: IdPrimitive)
        ensures
            r.value() == self.raw(),
    {
        proof {
            use_type_invariant(self);
        }
        IdPrimitive(self.0)
    }

    /// Returns the 0-based index into the corresponding packed table (`raw - 1`).
    pub fn index(self) -> (r: usize)
        ensures
            r == self.table_index(),
            r + 1 == self.raw(),
    {
        proof {
            use_type_invariant(self);
        }
        self.0 as usize - 1
    }
}

impl From<IdPrimitive> for DisconnectId {
    fn from(id: IdPrimitive) -> (r: Self) {
        DisconnectId(id.get())
    }
}

impl vstd::std_specs::convert::FromSpecImpl<IdPrimitive> for DisconnectId {
    open spec fn obeys_from_spec() -> bool {
        true
    }

    closed spec fn from_spec(v: IdPrimitive) -> Self {
        DisconnectId(v.value())
    }
}

/// Row ID of the types table (1-based on the wire, use [`Self::index`]
/// for array access).
#[derive(Clone, Copy, Debug, PartialEq, Eq, Structural, Hash)]
pub struct TypeId(u32);

impl TypeId {
    #[verifier::type_invariant]
    spec fn nonzero(self) -> bool {
        self.0 != 0
    }

    /// The non-zero wire value of this ID.
    pub closed spec fn raw(self) -> u32 {
        self.0
    }

    /// The 0-based table index that this ID addresses.
    pub open spec fn table_index(self) -> int {
        self.raw() - 1
    }

    /// Converting a primitive with `From` keeps its wire value.
    pub proof fn lemma_from_keeps_raw(v: IdPrimitive)
        ensures
            <Self as FromSpec<IdPrimitive>>::from_spec(v).raw() == v.value(),
    {
    }

    /// The table index that an ID addresses is its wire value minus one, so the
    /// IDs `1, 2, 3, ..` address the indexes `0, 1, 2, ..`.
    pub proof fn lemma_table_index(self)
        ensures
            self.table_index() == self.raw() - 1,
            self.table_index() + 1 == self.raw(),
    {
    }

    /// IDs with the same wire value are the same ID.
    pub proof fn lemma_raw_injective(self, other: Self)
        ensures
            self.raw() == other.raw() <==> self == other,
    {
    }

    /// Creates an ID from a non-zero raw index.
    pub fn from_raw(id: IdPrimitive) -> (r: Self)
        ensures
            r.raw() == id.value(),
    {
        TypeId(id.get())
    }

    /// Returns the non-zero wire index.
    pub fn to_raw(self) -> (r: IdPrimitive)
        ensures
            r.value() == self.raw(),
    {
        proof {
            use_type_invariant(self);
        }
        IdPrimitive(self.0)
    }

    /// Returns the 0-based index into the corresponding packed table (`raw - 1`).
    pub fn index(self) -> (r: usize)
        ensures
            r == self.table_index(),
            r + 1 == self.raw(),
    {
        proof {
            use_type_invariant(self);
        }
        self.0 as usize - 1
    }
}

impl From<IdPrimitive> for TypeId {
    fn from(id: IdPrimitive) -> (r: Self) {
        TypeId(id.get())
    }
}

impl vstd::std_specs::convert::FromSpecImpl<IdPrimitive> for TypeId {
    open spec fn obeys_from_spec() -> bool {
        true
    }

    closed spec fn from_spec(v: IdPrimitive) -> Self {
        TypeId(v.value())
    }
}

/// Row ID of the values table (1-based on the wire, use [`Self::index`]
/// for array access).
#[derive(Clone, Copy, Debug, PartialEq, Eq, Structural, Hash)]
pub struct ValueId(u32);

impl ValueId {
    #[verifier::type_invariant]
    spec fn nonzero(self) -> bool {
        self.0 != 0
    }

    /// The non-zero wire value of this ID.
    pub closed spec fn raw(self) -> u32 {
        self.0
    }

    /// The 0-based table index that this ID addresses.
    pub open spec fn table_index(self) -> int {
        self.raw() - 1
    }

    /// Converting a primitive with `From` keeps its wire value.
    pub proof fn lemma_from_keeps_raw(v: IdPrimitive)
        ensures
            <Self as FromSpec<IdPrimitive>>::from_spec(v).raw() == v.value(),
    {
    }

    /// The table index that an ID addresses is its wire value minus one, so the
    /// IDs `1, 2, 3, ..` address the indexes `0, 1, 2, ..`.
    pub proof fn lemma_table_index(self)
        ensures
            self.table_index() == self.raw() - 1,
            self.table_index() + 1 == self.raw(),
    {
    }

    /// IDs with the same wire value are the same ID.
    pub proof fn lemma_raw_injective(self, other: Self)
        ensures
            self.raw() == other.raw() <==> self == other,
    {
    }

    /// Creates an ID from a non-zero raw index.
    pub fn from_raw(id: IdPrimitive) -> (r: Self)
        ensures
            r.raw() == id.value(),
    {
        ValueId(id.get())
    }

    /// Returns the non-zero wire index.
    pub fn to_raw(self) -> (r: IdPrimitive)
        ensures
            r.value() == self.raw(),
    {
        proof {
            use_type_invariant(self);
        }
        IdPrimitive(self.0)
    }

    /// Returns the 0-based index into the corresponding packed table (`raw - 1`).
    pub fn index(self) -> (r: usize)
        ensures
            r == self.table_index(),
            r + 1 == self.raw(),
    {
        proof {
            use_type_invariant(self);
        }
        self.0 as usize - 1
    }
}

impl From<IdPrimitive> for ValueId {
    fn from(id: IdPrimitive) -> (r: Self) {
        ValueId(id.get())
    }
}

impl vstd::std_specs::convert::FromSpecImpl<IdPrimitive> for ValueId {
    open spec fn obeys_from_spec() -> bool {
        true
    }

    closed spec fn from_spec(v: IdPrimitive) -> Self {
        ValueId(v.value())
    }
}

/// Row ID of the memories table (1-based on the wire, use [`Self::index`]
/// for array access).
#[derive(Clone, Copy, Debug, PartialEq, Eq, Structural, Hash)]
pub struct MemoryId(u32);

impl MemoryId {
    #[verifier::type_invariant]
    spec fn nonzero(self) -> bool {
        self.0 != 0
    }

    /// The non-zero wire value of this ID.
    pub closed spec fn raw(self) -> u32 {
        self.0
    }

    /// The 0-based table index that this ID addresses.
    pub open spec fn table_index(self) -> int {
        self.raw() - 1
    }

    /// Converting a primitive with `From` keeps its wire value.
    pub proof fn lemma_from_keeps_raw(v: IdPrimitive)
        ensures
            <Self as FromSpec<IdPrimitive>>::from_spec(v).raw() == v.value(),
    {
    }

    /// The table index that an ID addresses is its wire value minus one, so the
    /// IDs `1, 2, 3, ..` address the indexes `0, 1, 2, ..`.
    pub proof fn lemma_table_index(self)
        ensures
            self.table_index() == self.raw() - 1,
            self.table_index() + 1 == self.raw(),
    {
    }

    /// IDs with the same wire value are the same ID.
    pub proof fn lemma_raw_injective(self, other: Self)
        ensures
            self.raw() == other.raw() <==> self == other,
    {
    }

    /// Creates an ID from a non-zero raw index.
    pub fn from_raw(id: IdPrimitive) -> (r: Self)
        ensures
            r.raw() == id.value(),
    {
        MemoryId(id.get())
    }

    /// Returns the non-zero wire index.
    pub fn to_raw(self) -> (r: IdPrimitive)
        ensures
            r.value() == self.raw(),
    {
        proof {
            use_type_invariant(self);
        }
        IdPrimitive(self.0)
    }

    /// Returns the 0-based index into the corresponding packed table (`raw - 1`).
    pub fn index(self) -> (r: usize)
        ensures
            r == self.table_index(),
            r + 1 == self.raw(),
    {
        proof {
            use_type_invariant(self);
        }
        self.0 as usize - 1
    }
}

impl From<IdPrimitive> for MemoryId {
    fn from(id: IdPrimitive) -> (r: Self) {
        MemoryId(id.get())
    }
}

impl vstd::std_specs::convert::FromSpecImpl<IdPrimitive> for MemoryId {
    open spec fn obeys_from_spec() -> bool {
        true
    }

    closed spec fn from_spec(v: IdPrimitive) -> Self {
        MemoryId(v.value())
    }
}

/// Row ID of the number-of-sources table (1-based on the wire, use [`Self::index`]
/// for array access).
#[derive(Clone, Copy, Debug, PartialEq, Eq, Structural, Hash)]
pub struct NbrSourcesId(u32);

impl NbrSourcesId {
    #[verifier::type_invariant]
    spec fn nonzero(self) -> bool {
        self.0 != 0
    }

    /// The non-zero wire value of this ID.
    pub closed spec fn raw(self) -> u32 {
        self.0
    }

    /// The 0-based table index that this ID addresses.
    pub open spec fn table_index(self) -> int {
        self.raw() - 1
    }

    /// Converting a primitive with `From` keeps its wire value.
    pub proof fn lemma_from_keeps_raw(v: IdPrimitive)
        ensures
            <Self as FromSpec<IdPrimitive>>::from_spec(v).raw() == v.value(),
    {
    }

    /// The table index that an ID addresses is its wire value minus one, so the
    /// IDs `1, 2, 3, ..` address the indexes `0, 1, 2, ..`.
    pub proof fn lemma_table_index(self)
        ensures
            self.table_index() == self.raw() - 1,
            self.table_index() + 1 == self.raw(),
    {
    }

    /// IDs with the same wire value are the same ID.
    pub proof fn lemma_raw_injective(self, other: Self)
        ensures
            self.raw() == other.raw() <==> self == other,
    {
    }

    /// Creates an ID from a non-zero raw index.
    pub fn from_raw(id: IdPrimitive) -> (r: Self)
        ensures
            r.raw() == id.value(),
    {
        NbrSourcesId(id.get())
    }

    /// Returns the non-zero wire index.
    pub fn to_raw(self) -> (r: IdPrimitive)
        ensures
            r.value() == self.raw(),
    {
        proof {
            use_type_invariant(self);
        }
        IdPrimitive(self.0)
    }

    /// Returns the 0-based index into the corresponding packed table (`raw - 1`).
    pub fn index(self) -> (r: usize)
        ensures
            r == self.table_index(),
            r + 1 == self.raw(),
    {
        proof {
            use_type_invariant(self);
        }
        self.0 as usize - 1
    }
}

impl From<IdPrimitive> for NbrSourcesId {
    fn from(id: IdPrimitive) -> (r: Self) {
        NbrSourcesId(id.get())
    }
}

impl vstd::std_specs::convert::FromSpecImpl<IdPrimitive> for NbrSourcesId {
    open spec fn obeys_from_spec() -> bool {
        true
    }

    closed spec fn from_spec(v: IdPrimitive) -> Self {
        NbrSourcesId(v.value())
    }
}

} // verus!
