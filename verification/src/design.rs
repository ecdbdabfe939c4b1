//! The elaborated design: its metadata and its packed, ID-addressed tables.

use vstd::prelude::*;
use vstd::string::StringExecFns;

use crate::ids::{
    ConnectionId, DisconnectId, DriverId, IdPrimitive, InstanceId, MemoryId, NbrSourcesId,
    ProcessId, SensitivityId, SignalId, TypeId, ValueId,
};
use crate::text::{append_decimal, decimal};
use crate::nodes::{
    Connection, Disconnect, Driver, IdIndex, Instance, Memory, NbrSources, Node, ObjectSlot,
    Process, Sensitivity, Signal, TypeNode, Value,
};

verus! {

/// Elaborated design tables. Each ID-addressed table is packed: the entry for
/// an ID sits at index `raw - 1`.
#[derive(Debug)]
pub struct Design {
    pub metadata: DesignMetadata,
    pub instances: Vec<Instance>,
    pub object_slots: Vec<ObjectSlot>,
    pub signals: Vec<Signal>,
    pub processes: Vec<Process>,
    pub drivers: Vec<Driver>,
    pub sensitivities: Vec<Sensitivity>,
    pub connections: Vec<Connection>,
    pub disconnects: Vec<Disconnect>,
    pub types: Vec<TypeNode>,
    pub values: Vec<Value>,
    pub memories: Vec<Memory>,
    pub nbr_sources: Vec<NbrSources>,
}

/// Error returned when a design table ID is out of range.
#[derive(Clone, Copy, Debug)]
pub struct DesignNodeError {
    /// Design table kind that was looked up.
    pub kind: &'static str,
    /// Wire ID that was not found.
    pub id: u32,
}

/// Error returned when a design node cannot be added to its table.
#[derive(Clone, Copy, Debug)]
pub enum DesignError {
    /// A non-instance ID is not the next contiguous index of its table.
    NotContiguous { kind: &'static str, index: usize, expected: usize },
    /// An instance ID addresses a slot that is already filled.
    InstanceOutOfOrder { id: InstanceId, len: usize },
}

impl DesignNodeError {
    /// The error message, `{kind} #{id} not found in design`.
    pub fn message(&self) -> (r: String)
        ensures
            r@ == self.kind@ + " #"@ + decimal(self.id as nat) + " not found in design"@,
    {
        let mut text = String::new();
        text.append(self.kind);
        text.append(" #");
        append_decimal(&mut text, self.id as u64);
        text.append(" not found in design");
        text
    }
}

impl DesignError {
    /// The error message that names the refused ID and what was expected instead.
    pub fn message(&self) -> (r: String)
        ensures
            match self {
                DesignError::NotContiguous { kind, index, expected } => r@ == kind@
                    + " ID index "@ + decimal(*index as nat) + " is not contiguous (expected "@
                    + decimal(*expected as nat) + ")"@,
                DesignError::InstanceOutOfOrder { id, len } => r@ == "instance ID "@ + decimal(
                    id.raw() as nat,
                ) + " is out of order (expected index >= "@ + decimal(*len as nat) + ")"@,
            },
    {
        let mut text = String::new();
        match self {
            DesignError::NotContiguous { kind, index, expected } => {
                text.append(kind);
                text.append(" ID index ");
                append_decimal(&mut text, *index as u64);
                text.append(" is not contiguous (expected ");
                append_decimal(&mut text, *expected as u64);
                text.append(")");
            },
            DesignError::InstanceOutOfOrder { id, len } => {
                text.append("instance ID ");
                append_decimal(&mut text, id.to_raw().get() as u64);
                text.append(" is out of order (expected index >= ");
                append_decimal(&mut text, *len as u64);
                text.append(")");
            },
        }
        text
    }
}

/// Header line of the design stream.
#[derive(Clone, Debug)]
pub struct DesignMetadata {
    pub schema: u32,
    /// Top-level elaborated instance; absent when the wire value is `0`.
    pub root_instance: Option<InstanceId>,
    pub counts: DesignCounts,
    pub name: Option<String>,
}

/// Number of entries announced for each design table.
#[derive(Clone, Copy, Debug)]
pub struct DesignCounts {
    pub instance: u32,
    pub signal: u32,
    pub process: u32,
    pub driver: u32,
    pub sensitivity: u32,
    pub connection: u32,
    pub disconnect: u32,
    pub typ: u32,
    pub value: u32,
    pub memory: u32,
    pub nbr_sources: u32,
}

/// `table` holds `x` at `index`.
pub open spec fn stored_at<T>(table: Seq<T>, index: int, x: T) -> bool {
    0 <= index < table.len() && table[index] == x
}

/// Every entry of `table` sits at the index that its ID addresses.
pub open spec fn ids_match_positions<T: IdIndex>(table: Seq<T>) -> bool {
    forall|i: int| 0 <= i < table.len() ==> #[trigger] table[i].table_index() == i
}

/// Outcome of appending `node` to a packed table `old`, giving `new` and `r`:
/// the node is appended exactly when its ID addresses the next free index;
/// otherwise the table stays as it was and the error names the kind and both indexes.
pub open spec fn contiguous_push<T: IdIndex>(
    old: Seq<T>,
    new: Seq<T>,
    node: T,
    kind: Seq<char>,
    r: Result<(), DesignError>,
) -> bool {
    if node.table_index() == old.len() {
        r is Ok && new == old.push(node)
    } else {
        &&& new == old
        &&& r matches Err(DesignError::NotContiguous { kind: k, index, expected })
        &&& k@ == kind
        &&& index == node.table_index()
        &&& expected == old.len()
    }
}

/// Outcome of adding instance `node` to the instance table `old`, giving `new`
/// and `r`: an ID at or past the end is accepted, and every skipped slot is
/// filled with a placeholder that carries the ID of its slot.
pub open spec fn instance_push(
    old: Seq<Instance>,
    new: Seq<Instance>,
    node: Instance,
    r: Result<(), DesignError>,
) -> bool {
    if node.id.table_index() < old.len() {
        &&& new == old
        &&& r matches Err(DesignError::InstanceOutOfOrder { id, len })
        &&& id == node.id
        &&& len == old.len()
    } else {
        &&& r is Ok
        &&& new.len() == node.id.table_index() + 1
        &&& new[node.id.table_index()] == node
        &&& forall|k: int| 0 <= k < old.len() ==> #[trigger] new[k] == old[k]
        &&& forall|k: int|
            old.len() <= k < node.id.table_index() ==> (#[trigger] new[k]).is_placeholder()
                && new[k].id.raw() == k + 1
    }
}

impl Design {
    /// Every ID-addressed table is packed: each entry sits at the index its ID addresses.
    pub open spec fn wf(&self) -> bool {
        &&& ids_match_positions(self.instances@)
        &&& ids_match_positions(self.signals@)
        &&& ids_match_positions(self.processes@)
        &&& ids_match_positions(self.drivers@)
        &&& ids_match_positions(self.sensitivities@)
        &&& ids_match_positions(self.connections@)
        &&& ids_match_positions(self.disconnects@)
        &&& ids_match_positions(self.types@)
        &&& ids_match_positions(self.values@)
        &&& ids_match_positions(self.memories@)
        &&& ids_match_positions(self.nbr_sources@)
    }

    /// `self` and `other` have the same metadata, and the same contents in
    /// every table that `node` does not belong to.
    pub open spec fn same_except_table_of(&self, other: &Design, node: &Node) -> bool {
        &&& self.metadata == other.metadata
        &&& !(node is Instance) ==> self.instances@ == other.instances@
        &&& !(node is ObjectSlot) ==> self.object_slots@ == other.object_slots@
        &&& !(node is Signal) ==> self.signals@ == other.signals@
        &&& !(node is Process) ==> self.processes@ == other.processes@
        &&& !(node is Driver) ==> self.drivers@ == other.drivers@
        &&& !(node is Sensitivity) ==> self.sensitivities@ == other.sensitivities@
        &&& !(node is Connection) ==> self.connections@ == other.connections@
        &&& !(node is Disconnect) ==> self.disconnects@ == other.disconnects@
        &&& !(node is Type) ==> self.types@ == other.types@
        &&& !(node is Value) ==> self.values@ == other.values@
        &&& !(node is Memory) ==> self.memories@ == other.memories@
        &&& !(node is NbrSources) ==> self.nbr_sources@ == other.nbr_sources@
    }

    /// Outcome of adding `node` to `self`, giving `new` and `r`: the node's
    /// own table changes as [`instance_push`], [`contiguous_push`] or a plain
    /// append says, and everything else stays as it was.
    pub open spec fn node_added(
        &self,
        new: &Design,
        node: &Node,
        r: Result<(), DesignError>,
    ) -> bool {
        &&& new.same_except_table_of(self, node)
        &&& match node {
            Node::Instance(n) => instance_push(self.instances@, new.instances@, *n, r),
            Node::ObjectSlot(n) => r is Ok && new.object_slots@ == self.object_slots@.push(*n),
            Node::Signal(n) => contiguous_push(self.signals@, new.signals@, *n, "signal"@, r),
            Node::Process(n) => contiguous_push(self.processes@, new.processes@, *n, "process"@, r),
            Node::Driver(n) => contiguous_push(self.drivers@, new.drivers@, *n, "driver"@, r),
            Node::Sensitivity(n) => contiguous_push(
                self.sensitivities@,
                new.sensitivities@,
                *n,
                "sensitivity"@,
                r,
            ),
            Node::Connection(n) => contiguous_push(
                self.connections@,
                new.connections@,
                *n,
                "connection"@,
                r,
            ),
            Node::Disconnect(n) => contiguous_push(
                self.disconnects@,
                new.disconnects@,
                *n,
                "disconnect"@,
                r,
            ),
            Node::Type(n) => contiguous_push(self.types@, new.types@, *n, "type"@, r),
            Node::Value(n) => contiguous_push(self.values@, new.values@, *n, "value"@, r),
            Node::Memory(n) => contiguous_push(self.memories@, new.memories@, *n, "memory"@, r),
            Node::NbrSources(n) => contiguous_push(
                self.nbr_sources@,
                new.nbr_sources@,
                *n,
                "nbr_sources"@,
                r,
            ),
        }
    }

    /// `self` stores `node` at the index that its ID addresses (an object slot,
    /// which has no ID of its own: as the last slot).
    pub open spec fn holds_node_at_its_id(&self, node: &Node) -> bool {
        match node {
            Node::Instance(n) => stored_at(self.instances@, n.id.table_index(), *n),
            Node::ObjectSlot(n) => stored_at(
                self.object_slots@,
                self.object_slots@.len() - 1,
                *n,
            ),
            Node::Signal(n) => stored_at(self.signals@, n.table_index(), *n),
            Node::Process(n) => stored_at(self.processes@, n.table_index(), *n),
            Node::Driver(n) => stored_at(self.drivers@, n.table_index(), *n),
            Node::Sensitivity(n) => stored_at(self.sensitivities@, n.table_index(), *n),
            Node::Connection(n) => stored_at(self.connections@, n.table_index(), *n),
            Node::Disconnect(n) => stored_at(self.disconnects@, n.table_index(), *n),
            Node::Type(n) => stored_at(self.types@, n.table_index(), *n),
            Node::Value(n) => stored_at(self.values@, n.table_index(), *n),
            Node::Memory(n) => stored_at(self.memories@, n.table_index(), *n),
            Node::NbrSources(n) => stored_at(self.nbr_sources@, n.table_index(), *n),
        }
    }

    /// `self` and `other` have the same metadata and the same tables.
    pub open spec fn same_tables(&self, other: &Design) -> bool {
        &&& self.metadata == other.metadata
        &&& self.instances@ == other.instances@
        &&& self.object_slots@ == other.object_slots@
        &&& self.signals@ == other.signals@
        &&& self.processes@ == other.processes@
        &&& self.drivers@ == other.drivers@
        &&& self.sensitivities@ == other.sensitivities@
        &&& self.connections@ == other.connections@
        &&& self.disconnects@ == other.disconnects@
        &&& self.types@ == other.types@
        &&& self.values@ == other.values@
        &&& self.memories@ == other.memories@
        &&& self.nbr_sources@ == other.nbr_sources@
    }

    /// Returns the top-level elaborated instance, if any.
    pub fn root_instance(&self) -> (r: Option<InstanceId>)
        ensures
            r == self.metadata.root_instance,
    {
        self.metadata.root_instance
    }

    /// Returns the instance for `id`, or an error when `id` is out of range for
    /// [`Self::instances`]. In a packed design the entry found carries `id`.
    pub fn instance(&self, id: InstanceId) -> (r: Result<&Instance, DesignNodeError>)
        ensures
            0 <= id.table_index() < self.instances@.len() ==> (r matches Ok(x) && *x
                == self.instances@[id.table_index()]),
            !(0 <= id.table_index() < self.instances@.len()) ==> (r matches Err(e) && e.kind@
                == "instance"@ && e.id == id.raw()),
            1 <= id.raw() <= self.instances@.len() ==> (r matches Ok(x) && *x == self.instances@[id.raw()
                - 1]),
            id.raw() > self.instances@.len() ==> (r matches Err(e) && e.kind@ == "instance"@ && e.id
                == id.raw()),
            self.wf() ==> (r matches Ok(x) ==> x.id == id),
    {
        let r = Self::get_node(
            self.instances.as_slice(),
            id.index(),
            "instance",
            id.to_raw().get(),
        );
        proof {
            if self.wf() && r is Ok {
                let x = self.instances@[id.table_index()];
                assert(x.table_index() == id.table_index());
                x.id.lemma_raw_injective(id);
            }
        }
        r
    }

    /// Returns the signal for `id`, or an error when `id` is out of range for
    /// [`Self::signals`]. In a packed design the entry found carries `id`.
    pub fn signal(&self, id: SignalId) -> (r: Result<&Signal, DesignNodeError>)
        ensures
            0 <= id.table_index() < self.signals@.len() ==> (r matches Ok(x) && *x
                == self.signals@[id.table_index()]),
            !(0 <= id.table_index() < self.signals@.len()) ==> (r matches Err(e) && e.kind@
                == "signal"@ && e.id == id.raw()),
            1 <= id.raw() <= self.signals@.len() ==> (r matches Ok(x) && *x == self.signals@[id.raw()
                - 1]),
            id.raw() > self.signals@.len() ==> (r matches Err(e) && e.kind@ == "signal"@ && e.id
                == id.raw()),
            self.wf() ==> (r matches Ok(x) ==> x.id == id),
    {
        let r = Self::get_node(
            self.signals.as_slice(),
            id.index(),
            "signal",
            id.to_raw().get(),
        );
        proof {
            if self.wf() && r is Ok {
                let x = self.signals@[id.table_index()];
                assert(x.table_index() == id.table_index());
                x.id.lemma_raw_injective(id);
            }
        }
        r
    }

    /// Returns the process for `id`, or an error when `id` is out of range for
    /// [`Self::processes`]. In a packed design the entry found carries `id`.
    pub fn process(&self, id: ProcessId) -> (r: Result<&Process, DesignNodeError>)
        ensures
            0 <= id.table_index() < self.processes@.len() ==> (r matches Ok(x) && *x
                == self.processes@[id.table_index()]),
            !(0 <= id.table_index() < self.processes@.len()) ==> (r matches Err(e) && e.kind@
                == "process"@ && e.id == id.raw()),
            1 <= id.raw() <= self.processes@.len() ==> (r matches Ok(x) && *x == self.processes@[id.raw()
                - 1]),
            id.raw() > self.processes@.len() ==> (r matches Err(e) && e.kind@ == "process"@ && e.id
                == id.raw()),
            self.wf() ==> (r matches Ok(x) ==> x.id == id),
    {
        let r = Self::get_node(
            self.processes.as_slice(),
            id.index(),
            "process",
            id.to_raw().get(),
        );
        proof {
            if self.wf() && r is Ok {
                let x = self.processes@[id.table_index()];
                assert(x.table_index() == id.table_index());
                x.id.lemma_raw_injective(id);
            }
        }
        r
    }

    /// Returns the driver for `id`, or an error when `id` is out of range for
    /// [`Self::drivers`]. In a packed design the entry found carries `id`.
    pub fn driver(&self, id: DriverId) -> (r: Result<&Driver, DesignNodeError>)
        ensures
            0 <= id.table_index() < self.drivers@.len() ==> (r matches Ok(x) && *x
                == self.drivers@[id.table_index()]),
            !(0 <= id.table_index() < self.drivers@.len()) ==> (r matches Err(e) && e.kind@
                == "driver"@ && e.id == id.raw()),
            1 <= id.raw() <= self.drivers@.len() ==> (r matches Ok(x) && *x == self.drivers@[id.raw()
                - 1]),
            id.raw() > self.drivers@.len() ==> (r matches Err(e) && e.kind@ == "driver"@ && e.id
                == id.raw()),
            self.wf() ==> (r matches Ok(x) ==> x.id == id),
    {
        let r = Self::get_node(
            self.drivers.as_slice(),
            id.index(),
            "driver",
            id.to_raw().get(),
        );
        proof {
            if self.wf() && r is Ok {
                let x = self.drivers@[id.table_index()];
                assert(x.table_index() == id.table_index());
                x.id.lemma_raw_injective(id);
            }
        }
        r
    }

    /// Returns the sensitivity for `id`, or an error when `id` is out of range for
    /// [`Self::sensitivities`]. In a packed design the entry found carries `id`.
    pub fn sensitivity(&self, id: SensitivityId) -> (r: Result<&Sensitivity, DesignNodeError>)
        ensures
            0 <= id.table_index() < self.sensitivities@.len() ==> (r matches Ok(x) && *x
                == self.sensitivities@[id.table_index()]),
            !(0 <= id.table_index() < self.sensitivities@.len()) ==> (r matches Err(e) && e.kind@
                == "sensitivity"@ && e.id == id.raw()),
            1 <= id.raw() <= self.sensitivities@.len() ==> (r matches Ok(x) && *x == self.sensitivities@[id.raw()
                - 1]),
            id.raw() > self.sensitivities@.len() ==> (r matches Err(e) && e.kind@ == "sensitivity"@ && e.id
                == id.raw()),
            self.wf() ==> (r matches Ok(x) ==> x.id == id),
    {
        let r = Self::get_node(
            self.sensitivities.as_slice(),
            id.index(),
            "sensitivity",
            id.to_raw().get(),
        );
        proof {
            if self.wf() && r is Ok {
                let x = self.sensitivities@[id.table_index()];
                assert(x.table_index() == id.table_index());
                x.id.lemma_raw_injective(id);
            }
        }
        r
    }

    /// Returns the connection for `id`, or an error when `id` is out of range for
    /// [`Self::connections`]. In a packed design the entry found carries `id`.
    pub fn connection(&self, id: ConnectionId) -> (r: Result<&Connection, DesignNodeError>)
        ensures
            0 <= id.table_index() < self.connections@.len() ==> (r matches Ok(x) && *x
                == self.connections@[id.table_index()]),
            !(0 <= id.table_index() < self.connections@.len()) ==> (r matches Err(e) && e.kind@
                == "connection"@ && e.id == id.raw()),
            1 <= id.raw() <= self.connections@.len() ==> (r matches Ok(x) && *x == self.connections@[id.raw()
                - 1]),
            id.raw() > self.connections@.len() ==> (r matches Err(e) && e.kind@ == "connection"@ && e.id
                == id.raw()),
            self.wf() ==> (r matches Ok(x) ==> x.id == id),
    {
        let r = Self::get_node(
            self.connections.as_slice(),
            id.index(),
            "connection",
            id.to_raw().get(),
        );
        proof {
            if self.wf() && r is Ok {
                let x = self.connections@[id.table_index()];
                assert(x.table_index() == id.table_index());
                x.id.lemma_raw_injective(id);
            }
        }
        r
    }

    /// Returns the disconnect for `id`, or an error when `id` is out of range for
    /// [`Self::disconnects`]. In a packed design the entry found carries `id`.
    pub fn disconnect(&self, id: DisconnectId) -> (r: Result<&Disconnect, DesignNodeError>)
        ensures
            0 <= id.table_index() < self.disconnects@.len() ==> (r matches Ok(x) && *x
                == self.disconnects@[id.table_index()]),
            !(0 <= id.table_index() < self.disconnects@.len()) ==> (r matches Err(e) && e.kind@
                == "disconnect"@ && e.id == id.raw()),
            1 <= id.raw() <= self.disconnects@.len() ==> (r matches Ok(x) && *x == self.disconnects@[id.raw()
                - 1]),
            id.raw() > self.disconnects@.len() ==> (r matches Err(e) && e.kind@ == "disconnect"@ && e.id
                == id.raw()),
            self.wf() ==> (r matches Ok(x) ==> x.id == id),
    {
        let r = Self::get_node(
            self.disconnects.as_slice(),
            id.index(),
            "disconnect",
            id.to_raw().get(),
        );
        proof {
            if self.wf() && r is Ok {
                let x = self.disconnects@[id.table_index()];
                assert(x.table_index() == id.table_index());
                x.id.lemma_raw_injective(id);
            }
        }
        r
    }

    /// Returns the type node for `id`, or an error when `id` is out of range for
    /// [`Self::types`]. In a packed design the entry found carries `id`.
    pub fn typ(&self, id: TypeId) -> (r: Result<&TypeNode, DesignNodeError>)
        ensures
            0 <= id.table_index() < self.types@.len() ==> (r matches Ok(x) && *x
                == self.types@[id.table_index()]),
            !(0 <= id.table_index() < self.types@.len()) ==> (r matches Err(e) && e.kind@
                == "type"@ && e.id == id.raw()),
            1 <= id.raw() <= self.types@.len() ==> (r matches Ok(x) && *x == self.types@[id.raw()
                - 1]),
            id.raw() > self.types@.len() ==> (r matches Err(e) && e.kind@ == "type"@ && e.id
                == id.raw()),
            self.wf() ==> (r matches Ok(x) ==> x.id == id),
    {
        let r = Self::get_node(
            self.types.as_slice(),
            id.index(),
            "type",
            id.to_raw().get(),
        );
        proof {
            if self.wf() && r is Ok {
                let x = self.types@[id.table_index()];
                assert(x.table_index() == id.table_index());
                x.id.lemma_raw_injective(id);
            }
        }
        r
    }

    /// Returns the value for `id`, or an error when `id` is out of range for
    /// [`Self::values`]. In a packed design the entry found carries `id`.
    pub fn value(&self, id: ValueId) -> (r: Result<&Value, DesignNodeError>)
        ensures
            0 <= id.table_index() < self.values@.len() ==> (r matches Ok(x) && *x
                == self.values@[id.table_index()]),
            !(0 <= id.table_index() < self.values@.len()) ==> (r matches Err(e) && e.kind@
                == "value"@ && e.id == id.raw()),
            1 <= id.raw() <= self.values@.len() ==> (r matches Ok(x) && *x == self.values@[id.raw()
                - 1]),
            id.raw() > self.values@.len() ==> (r matches Err(e) && e.kind@ == "value"@ && e.id
                == id.raw()),
            self.wf() ==> (r matches Ok(x) ==> x.id == id),
    {
        let r = Self::get_node(
            self.values.as_slice(),
            id.index(),
            "value",
            id.to_raw().get(),
        );
        proof {
            if self.wf() && r is Ok {
                let x = self.values@[id.table_index()];
                assert(x.table_index() == id.table_index());
                x.id.lemma_raw_injective(id);
            }
        }
        r
    }

    /// Returns the memory for `id`, or an error when `id` is out of range for
    /// [`Self::memories`]. In a packed design the entry found carries `id`.
    pub fn memory(&self, id: MemoryId) -> (r: Result<&Memory, DesignNodeError>)
        ensures
            0 <= id.table_index() < self.memories@.len() ==> (r matches Ok(x) && *x
                == self.memories@[id.table_index()]),
            !(0 <= id.table_index() < self.memories@.len()) ==> (r matches Err(e) && e.kind@
                == "memory"@ && e.id == id.raw()),
            1 <= id.raw() <= self.memories@.len() ==> (r matches Ok(x) && *x == self.memories@[id.raw()
                - 1]),
            id.raw() > self.memories@.len() ==> (r matches Err(e) && e.kind@ == "memory"@ && e.id
                == id.raw()),
            self.wf() ==> (r matches Ok(x) ==> x.id == id),
    {
        let r = Self::get_node(
            self.memories.as_slice(),
            id.index(),
            "memory",
            id.to_raw().get(),
        );
        proof {
            if self.wf() && r is Ok {
                let x = self.memories@[id.table_index()];
                assert(x.table_index() == id.table_index());
                x.id.lemma_raw_injective(id);
            }
        }
        r
    }

    /// Returns the number-of-sources entry for `id`, or an error when `id` is out of range for
    /// [`Self::nbr_sources`]. In a packed design the entry found carries `id`.
    pub fn nbr_sources(&self, id: NbrSourcesId) -> (r: Result<&NbrSources, DesignNodeError>)
        ensures
            0 <= id.table_index() < self.nbr_sources@.len() ==> (r matches Ok(x) && *x
                == self.nbr_sources@[id.table_index()]),
            !(0 <= id.table_index() < self.nbr_sources@.len()) ==> (r matches Err(e) && e.kind@
                == "nbr_sources"@ && e.id == id.raw()),
            1 <= id.raw() <= self.nbr_sources@.len() ==> (r matches Ok(x) && *x == self.nbr_sources@[id.raw()
                - 1]),
            id.raw() > self.nbr_sources@.len() ==> (r matches Err(e) && e.kind@ == "nbr_sources"@ && e.id
                == id.raw()),
            self.wf() ==> (r matches Ok(x) ==> x.id == id),
    {
        let r = Self::get_node(
            self.nbr_sources.as_slice(),
            id.index(),
            "nbr_sources",
            id.to_raw().get(),
        );
        proof {
            if self.wf() && r is Ok {
                let x = self.nbr_sources@[id.table_index()];
                assert(x.table_index() == id.table_index());
                x.id.lemma_raw_injective(id);
            }
        }
        r
    }

    /// Creates an empty design for `metadata`, with room reserved for the
    /// announced number of entries of each table.
    pub fn from_metadata(metadata: DesignMetadata) -> (d: Design)
        ensures
            d.metadata == metadata,
            d.instances@.len() == 0,
            d.object_slots@.len() == 0,
            d.signals@.len() == 0,
            d.processes@.len() == 0,
            d.drivers@.len() == 0,
            d.sensitivities@.len() == 0,
            d.connections@.len() == 0,
            d.disconnects@.len() == 0,
            d.types@.len() == 0,
            d.values@.len() == 0,
            d.memories@.len() == 0,
            d.nbr_sources@.len() == 0,
            d.wf(),
    {
        let counts = metadata.counts;
        Design {
            metadata,
            instances: Vec::with_capacity(counts.instance as usize),
            object_slots: Vec::new(),
            signals: Vec::with_capacity(counts.signal as usize),
            processes: Vec::with_capacity(counts.process as usize),
            drivers: Vec::with_capacity(counts.driver as usize),
            sensitivities: Vec::with_capacity(counts.sensitivity as usize),
            connections: Vec::with_capacity(counts.connection as usize),
            disconnects: Vec::with_capacity(counts.disconnect as usize),
            types: Vec::with_capacity(counts.typ as usize),
            values: Vec::with_capacity(counts.value as usize),
            memories: Vec::with_capacity(counts.memory as usize),
            nbr_sources: Vec::with_capacity(counts.nbr_sources as usize),
        }
    }

    /// Appends a design node to its table, keeping every ID-addressed table packed.
    ///
    /// Instance IDs may skip values; missing slots are filled with
    /// [`Instance::dummy`]. All other ID'd kinds must arrive in order with no gaps.
    /// On an error the design is left as it was.
    pub fn add_node(&mut self, node: Node) -> (r: Result<(), DesignError>)
        ensures
            old(self).node_added(final(self), &node, r),
            old(self).wf() ==> final(self).wf(),
    {
        match node {
            Node::Instance(node) => Self::add_instance(&mut self.instances, node),
            Node::ObjectSlot(node) => {
                self.object_slots.push(node);
                Ok(())
            },
            Node::Signal(node) => push_contiguous(&mut self.signals, node, "signal"),
            Node::Process(node) => push_contiguous(&mut self.processes, node, "process"),
            Node::Driver(node) => push_contiguous(&mut self.drivers, node, "driver"),
            Node::Sensitivity(node) => {
                push_contiguous(&mut self.sensitivities, node, "sensitivity")
            },
            Node::Connection(node) => push_contiguous(&mut self.connections, node, "connection"),
            Node::Disconnect(node) => push_contiguous(&mut self.disconnects, node, "disconnect"),
            Node::Type(node) => push_contiguous(&mut self.types, node, "type"),
            Node::Value(node) => push_contiguous(&mut self.values, node, "value"),
            Node::Memory(node) => push_contiguous(&mut self.memories, node, "memory"),
            Node::NbrSources(node) => push_contiguous(&mut self.nbr_sources, node, "nbr_sources"),
        }
    }

    /// Appends an instance, inserting [`Instance::dummy`] entries for skipped IDs.
    fn add_instance(instances: &mut Vec<Instance>, node: Instance) -> (r: Result<(), DesignError>)
        ensures
            instance_push(old(instances)@, final(instances)@, node, r),
            ids_match_positions(old(instances)@) ==> ids_match_positions(final(instances)@),
    {
        let index = node.id.index();
        if index < instances.len() {
            return Err(DesignError::InstanceOutOfOrder { id: node.id, len: instances.len() });
        }
        let raw_of_node = node.id.to_raw().get();
        while instances.len() < index
            invariant
                index == node.id.table_index(),
                index + 1 == raw_of_node,
                old(instances)@.len() <= instances@.len() <= index,
                forall|k: int|
                    0 <= k < old(instances)@.len() ==> #[trigger] instances@[k] == old(
                        instances,
                    )@[k],
                forall|k: int|
                    old(instances)@.len() <= k < instances@.len() ==> (
                    #[trigger] instances@[k]).is_placeholder() && instances@[k].id.raw() == k + 1,
            decreases index - instances@.len(),
        {
            let raw = (instances.len() + 1) as u32;
            let id = InstanceId::from_raw(IdPrimitive::new(raw).unwrap());
            instances.push(Instance::dummy(id));
        }
        instances.push(node);
        Ok(())
    }

    /// Looks up `index` in `table`, mapping out-of-range IDs to [`DesignNodeError`].
    fn get_node<'a, T>(table: &'a [T], index: usize, kind: &'static str, id: u32) -> (r: Result<
        &'a T,
        DesignNodeError,
    >)
        ensures
            index < table@.len() ==> (r matches Ok(x) && *x == table@[index as int]),
            index >= table@.len() ==> (r matches Err(e) && e.kind == kind && e.id == id),
    {
        if index < table.len() {
            Ok(&table[index])
        } else {
            Err(DesignNodeError { kind, id })
        }
    }
}

/// A node that `add_node` accepts is stored at the index that its ID addresses,
/// so looking it up by that ID finds it; a node that it refuses leaves the
/// design as it was.
pub proof fn lemma_add_node_outcome(
    old: Design,
    new: Design,
    node: Node,
    r: Result<(), DesignError>,
)
    requires
        old.node_added(&new, &node, r),
    ensures
        r is Ok ==> new.holds_node_at_its_id(&node),
        r is Err ==> new.same_tables(&old),
{
}

/// Appending a node whose ID addresses the next free index, and refusing any
/// other, keeps every entry of a packed table at the index its ID addresses.
pub proof fn lemma_contiguous_push_keeps_positions<T: IdIndex>(
    old: Seq<T>,
    new: Seq<T>,
    node: T,
    kind: Seq<char>,
    r: Result<(), DesignError>,
)
    requires
        ids_match_positions(old),
        contiguous_push(old, new, node, kind, r),
    ensures
        ids_match_positions(new),
{
    assert forall|i: int| 0 <= i < new.len() implies #[trigger] new[i].table_index() == i by {
        if i < old.len() {
            assert(new[i] == old[i]);
        }
    }
}

/// Adding an instance, accepted or refused, keeps every entry of a packed
/// instance table at the index its ID addresses; the placeholders do too.
pub proof fn lemma_instance_push_keeps_positions(
    old: Seq<Instance>,
    new: Seq<Instance>,
    node: Instance,
    r: Result<(), DesignError>,
)
    requires
        ids_match_positions(old),
        instance_push(old, new, node, r),
    ensures
        ids_match_positions(new),
{
    assert forall|i: int| 0 <= i < new.len() implies #[trigger] new[i].table_index() == i by {
        if i < old.len() {
            assert(new[i] == old[i]);
        }
    }
}

/// Any outcome of adding a node to a packed design is a packed design.
pub proof fn lemma_node_added_keeps_packed(
    old: Design,
    new: Design,
    node: Node,
    r: Result<(), DesignError>,
)
    requires
        old.wf(),
        old.node_added(&new, &node, r),
    ensures
        new.wf(),
{
    match node {
        Node::Instance(n) => lemma_instance_push_keeps_positions(
            old.instances@,
            new.instances@,
            n,
            r,
        ),
        Node::ObjectSlot(_) => {},
        Node::Signal(n) => lemma_contiguous_push_keeps_positions(
            old.signals@,
            new.signals@,
            n,
            "signal"@,
            r,
        ),
        Node::Process(n) => lemma_contiguous_push_keeps_positions(
            old.processes@,
            new.processes@,
            n,
            "process"@,
            r,
        ),
        Node::Driver(n) => lemma_contiguous_push_keeps_positions(
            old.drivers@,
            new.drivers@,
            n,
            "driver"@,
            r,
        ),
        Node::Sensitivity(n) => lemma_contiguous_push_keeps_positions(
            old.sensitivities@,
            new.sensitivities@,
            n,
            "sensitivity"@,
            r,
        ),
        Node::Connection(n) => lemma_contiguous_push_keeps_positions(
            old.connections@,
            new.connections@,
            n,
            "connection"@,
            r,
        ),
        Node::Disconnect(n) => lemma_contiguous_push_keeps_positions(
            old.disconnects@,
            new.disconnects@,
            n,
            "disconnect"@,
            r,
        ),
        Node::Type(n) => lemma_contiguous_push_keeps_positions(
            old.types@,
            new.types@,
            n,
            "type"@,
            r,
        ),
        Node::Value(n) => lemma_contiguous_push_keeps_positions(
            old.values@,
            new.values@,
            n,
            "value"@,
            r,
        ),
        Node::Memory(n) => lemma_contiguous_push_keeps_positions(
            old.memories@,
            new.memories@,
            n,
            "memory"@,
            r,
        ),
        Node::NbrSources(n) => lemma_contiguous_push_keeps_positions(
            old.nbr_sources@,
            new.nbr_sources@,
            n,
            "nbr_sources"@,
            r,
        ),
    }
}

/// `designs[k + 1]` is what adding `nodes[k]` to `designs[k]` gave, with result
/// `results[k]`, for every step `k` of the run.
pub open spec fn is_loading_run(
    designs: Seq<Design>,
    nodes: Seq<Node>,
    results: Seq<Result<(), DesignError>>,
) -> bool {
    &&& designs.len() == nodes.len() + 1
    &&& results.len() == nodes.len()
    &&& forall|k: int|
        #![trigger nodes[k]]
        0 <= k < nodes.len() ==> designs[k].node_added(&designs[k + 1], &nodes[k], results[k])
}

proof fn lemma_loading_prefix_packed(
    designs: Seq<Design>,
    nodes: Seq<Node>,
    results: Seq<Result<(), DesignError>>,
    k: int,
)
    requires
        is_loading_run(designs, nodes, results),
        designs[0].wf(),
        0 <= k < designs.len(),
    ensures
        designs[k].wf(),
    decreases k,
{
    if k > 0 {
        lemma_loading_prefix_packed(designs, nodes, results, k - 1);
        let _ = nodes[k - 1];
        lemma_node_added_keeps_packed(designs[k - 1], designs[k], nodes[k - 1], results[k - 1]);
    }
}

/// Loading: a packed design, such as the one that [`Design::from_metadata`]
/// makes, stays packed through any run of `add_node` calls, whether each
/// call accepts its node or refuses it.
pub proof fn lemma_loading_keeps_packed(
    designs: Seq<Design>,
    nodes: Seq<Node>,
    results: Seq<Result<(), DesignError>>,
)
    requires
        is_loading_run(designs, nodes, results),
        designs[0].wf(),
    ensures
        forall|k: int| 0 <= k < designs.len() ==> (#[trigger] designs[k]).wf(),
{
    assert forall|k: int| 0 <= k < designs.len() implies (#[trigger] designs[k]).wf() by {
        lemma_loading_prefix_packed(designs, nodes, results, k);
    }
}

/// Once instance `a` has been accepted, instance `b` is refused, leaving the
/// table as it was, exactly when `b`'s wire ID is not greater than `a`'s; in
/// particular a repeated instance ID is always refused.
pub proof fn lemma_instance_after_accepted(
    t0: Seq<Instance>,
    t1: Seq<Instance>,
    t2: Seq<Instance>,
    a: Instance,
    b: Instance,
    ra: Result<(), DesignError>,
    rb: Result<(), DesignError>,
)
    requires
        instance_push(t0, t1, a, ra),
        ra is Ok,
        instance_push(t1, t2, b, rb),
    ensures
        rb is Err <==> b.id.raw() <= a.id.raw(),
        rb is Err ==> t2 == t1,
{
}

/// Every one of the first `n` additions was accepted.
pub open spec fn all_accepted(results: Seq<Result<(), DesignError>>, n: int) -> bool {
    forall|i: int| 0 <= i < n ==> (#[trigger] results[i]) is Ok
}

/// The wire IDs of the first `n` instances strictly increase.
pub open spec fn ids_increase(nodes: Seq<Instance>, n: int) -> bool {
    forall|i: int| 0 <= i < n - 1 ==> (#[trigger] nodes[i]).id.raw() < nodes[i + 1].id.raw()
}

proof fn lemma_instance_run_prefix(
    tables: Seq<Seq<Instance>>,
    nodes: Seq<Instance>,
    results: Seq<Result<(), DesignError>>,
    n: int,
)
    requires
        tables.len() == nodes.len() + 1,
        results.len() == nodes.len(),
        tables[0].len() == 0,
        forall|i: int| 0 <= i < nodes.len() ==> (#[trigger] nodes[i]).id.raw() != 0,
        forall|i: int|
            #![trigger nodes[i]]
            0 <= i < nodes.len() ==> instance_push(tables[i], tables[i + 1], nodes[i], results[i]),
        0 <= n <= nodes.len(),
    ensures
        all_accepted(results, n) <==> ids_increase(nodes, n),
        all_accepted(results, n) && n > 0 ==> tables[n].len() == nodes[n - 1].id.raw(),
    decreases n,
{
    if n > 0 {
        let k = n - 1;
        lemma_instance_run_prefix(tables, nodes, results, k);
        let _ = nodes[k];
        if all_accepted(results, k) {
            if k > 0 {
                let _ = nodes[k - 1];
                assert(ids_increase(nodes, n) <==> ids_increase(nodes, k) && nodes[k - 1].id.raw()
                    < nodes[k].id.raw());
            } else {
                assert(ids_increase(nodes, n));
            }
            assert(all_accepted(results, n) <==> results[k] is Ok);
        } else {
            let j = choose|j: int| 0 <= j < k && !(#[trigger] results[j] is Ok);
            assert(!all_accepted(results, n));
            assert(!ids_increase(nodes, k));
            let i = choose|i: int|
                0 <= i < k - 1 && !((#[trigger] nodes[i]).id.raw() < nodes[i + 1].id.raw());
            assert(!ids_increase(nodes, n));
        }
    }
}

/// A run of instance additions on an empty instance table is accepted
/// throughout exactly when the wire IDs of the instances strictly increase.
pub proof fn lemma_instance_run(
    tables: Seq<Seq<Instance>>,
    nodes: Seq<Instance>,
    results: Seq<Result<(), DesignError>>,
)
    requires
        tables.len() == nodes.len() + 1,
        results.len() == nodes.len(),
        tables[0].len() == 0,
        forall|i: int| 0 <= i < nodes.len() ==> (#[trigger] nodes[i]).id.raw() != 0,
        forall|i: int|
            #![trigger nodes[i]]
            0 <= i < nodes.len() ==> instance_push(tables[i], tables[i + 1], nodes[i], results[i]),
    ensures
        all_accepted(results, nodes.len() as int) <==> ids_increase(nodes, nodes.len() as int),
{
    lemma_instance_run_prefix(tables, nodes, results, nodes.len() as int);
}

/// Adding entries whose wire IDs are `1, 2, .., n`, in that order, to an empty
/// table accepts every one of them, and the table ends up holding them in
/// that order, the entry with wire ID `k` at index `k - 1`.
pub proof fn lemma_in_order_run_accepted<T: IdIndex>(
    tables: Seq<Seq<T>>,
    nodes: Seq<T>,
    results: Seq<Result<(), DesignError>>,
    kind: Seq<char>,
)
    requires
        tables.len() == nodes.len() + 1,
        results.len() == nodes.len(),
        tables[0].len() == 0,
        forall|i: int| 0 <= i < nodes.len() ==> (#[trigger] nodes[i]).wire_id() == i + 1,
        forall|i: int|
            #![trigger nodes[i]]
            0 <= i < nodes.len() ==> contiguous_push(tables[i], tables[i + 1], nodes[i], kind, results[i]),
    ensures
        forall|i: int| 0 <= i < nodes.len() ==> (#[trigger] results[i]) is Ok,
        tables[nodes.len() as int] == nodes,
{
    lemma_in_order_run_prefix(tables, nodes, results, kind, nodes.len() as int);
    assert forall|i: int| 0 <= i < nodes.len() implies (#[trigger] results[i]) is Ok by {
        lemma_in_order_run_prefix(tables, nodes, results, kind, i + 1);
    }
    assert(nodes.take(nodes.len() as int) =~= nodes);
}

proof fn lemma_in_order_run_prefix<T: IdIndex>(
    tables: Seq<Seq<T>>,
    nodes: Seq<T>,
    results: Seq<Result<(), DesignError>>,
    kind: Seq<char>,
    n: int,
)
    requires
        tables.len() == nodes.len() + 1,
        results.len() == nodes.len(),
        tables[0].len() == 0,
        forall|i: int| 0 <= i < nodes.len() ==> (#[trigger] nodes[i]).wire_id() == i + 1,
        forall|i: int|
            #![trigger nodes[i]]
            0 <= i < nodes.len() ==> contiguous_push(tables[i], tables[i + 1], nodes[i], kind, results[i]),
        0 <= n <= nodes.len(),
    ensures
        tables[n] == nodes.take(n),
        n > 0 ==> results[n - 1] is Ok,
    decreases n,
{
    if n == 0 {
        assert(tables[0] =~= nodes.take(0));
    } else {
        lemma_in_order_run_prefix(tables, nodes, results, kind, n - 1);
        let node = nodes[n - 1];
        node.lemma_index_from_wire();
        assert(nodes.take(n - 1).push(node) =~= nodes.take(n));
    }
}

/// Pushes `node` when the index that its ID addresses is the next free slot of `table`.
fn push_contiguous<T: IdIndex>(table: &mut Vec<T>, node: T, kind: &'static str) -> (r: Result<
    (),
    DesignError,
>)
    ensures
        contiguous_push(old(table)@, final(table)@, node, kind@, r),
        ids_match_positions(old(table)@) ==> ids_match_positions(final(table)@),
{
    let index = node.id_index();
    let expected = table.len();
    if index != expected {
        return Err(DesignError::NotContiguous { kind, index, expected });
    }
    table.push(node);
    Ok(())
}

} // verus!
