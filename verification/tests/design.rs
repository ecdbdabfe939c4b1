use ghdl_design::{
    Connection, Design, DesignCounts, DesignError, DesignMetadata, Disconnect, DisconnectId,
    Driver, DriverId, IdIndex, IdPrimitive, Instance, InstanceId, Memory, MemoryId, NbrSources,
    NbrSourcesEntry, NbrSourcesId, Node, ObjectSlot, ObjectSlotKind, Process, ProcessId,
    Sensitivity, SensitivityId, Signal, SignalId, SignalKind, SubSignal, TypeId, TypeKind,
    TypeNode, Value, ValueId, ValueKindData, ValueOffsets, Wkind, ConnectionId,
};

fn prim(raw: u32) -> IdPrimitive {
    IdPrimitive::new(raw).expect("non-zero")
}

fn counts() -> DesignCounts {
    DesignCounts {
        instance: 4,
        signal: 2,
        process: 1,
        driver: 2,
        sensitivity: 1,
        connection: 0,
        disconnect: 0,
        typ: 1,
        value: 1,
        memory: 1,
        nbr_sources: 0,
    }
}

fn metadata() -> DesignMetadata {
    DesignMetadata {
        schema: 1,
        root_instance: Some(InstanceId::from_raw(prim(1))),
        counts: counts(),
        name: Some("top".to_string()),
    }
}

fn offs() -> ValueOffsets {
    ValueOffsets { net_off: 0, mem_off: 0 }
}

fn sub_signal(raw: u32) -> SubSignal {
    SubSignal { base: Some(SignalId::from_raw(prim(raw))), offs: offs(), typ: None }
}

fn signal(raw: u32) -> Signal {
    Signal {
        id: SignalId::from_raw(prim(raw)),
        signal_kind: SignalKind::User,
        decl: None,
        instance: InstanceId::from_raw(prim(1)),
        typ: TypeId::from_raw(prim(1)),
        val_init: MemoryId::from_raw(prim(1)),
        val: MemoryId::from_raw(prim(1)),
        sensitivity: None,
        connect: None,
        collapsed_by: None,
        collapsed_offs: offs(),
        has_active: false,
        drivers: None,
        disconnect: None,
        nbr_sources: None,
        time: None,
        pfx: None,
    }
}

fn instance(raw: u32, parent: Option<u32>) -> Instance {
    let mut i = Instance::dummy(InstanceId::from_raw(prim(raw)));
    i.parent = parent.map(|p| InstanceId::from_raw(prim(p)));
    i.foreign = 7;
    i
}

fn driver(raw: u32, prev_proc: Option<u32>) -> Driver {
    Driver {
        id: DriverId::from_raw(prim(raw)),
        sig: sub_signal(1),
        proc: ProcessId::from_raw(prim(1)),
        prev_sig: None,
        prev_proc: prev_proc.map(|p| DriverId::from_raw(prim(p))),
    }
}

fn sensitivity(raw: u32, prev_proc: Option<u32>) -> Sensitivity {
    Sensitivity {
        id: SensitivityId::from_raw(prim(raw)),
        sig: sub_signal(1),
        proc: ProcessId::from_raw(prim(1)),
        prev_sig: None,
        prev_proc: prev_proc.map(|p| SensitivityId::from_raw(prim(p))),
    }
}

fn process(raw: u32, drivers: Option<u32>, sens: Option<u32>) -> Process {
    Process {
        id: ProcessId::from_raw(prim(raw)),
        proc: None,
        instance: InstanceId::from_raw(prim(1)),
        drivers: drivers.map(|d| DriverId::from_raw(prim(d))),
        sensitivity: sens.map(|s| SensitivityId::from_raw(prim(s))),
    }
}

fn type_node(raw: u32) -> TypeNode {
    TypeNode {
        id: TypeId::from_raw(prim(raw)),
        type_kind: TypeKind::Bit,
        wkind: Wkind::Sim,
        align: 0,
        sz: 1,
        w: 1,
        left: None,
        right: None,
        dir: None,
        is_signed: None,
        base_type: None,
        len: None,
        element_type: None,
        index_type: None,
        is_last: None,
        fields: None,
        designated_type: None,
        acc_type_sz: None,
        acc_bnd_sz: None,
        file_type: None,
        signature: None,
    }
}

#[test]
fn id_primitive_rejects_zero() {
    assert!(IdPrimitive::new(0).is_none());
    assert_eq!(IdPrimitive::new(5).map(IdPrimitive::get), Some(5));
}

#[test]
fn id_index_is_raw_minus_one() {
    let id = InstanceId::from_raw(prim(5));
    assert_eq!(id.index(), 4);
    assert_eq!(id.to_raw().get(), 5);
    assert_eq!(SignalId::from_raw(prim(1)).index(), 0);
    assert_eq!(NbrSourcesId::from_raw(prim(u32::MAX)).index(), (u32::MAX - 1) as usize);
    assert_eq!(signal(3).id_index(), 2);
}

#[test]
fn from_metadata_starts_empty() {
    let design = Design::from_metadata(metadata());
    assert_eq!(design.metadata.schema, 1);
    assert_eq!(design.root_instance(), Some(InstanceId::from_raw(prim(1))));
    assert!(design.instances.is_empty());
    assert!(design.signals.is_empty());
    assert!(design.object_slots.is_empty());
    assert!(design.nbr_sources.is_empty());
}

#[test]
fn root_instance_may_be_absent() {
    let mut meta = metadata();
    meta.root_instance = None;
    let design = Design::from_metadata(meta);
    assert_eq!(design.root_instance(), None);
}

#[test]
fn contiguous_signals_are_added_and_found() {
    let mut design = Design::from_metadata(metadata());
    assert!(design.add_node(Node::Signal(signal(1))).is_ok());
    assert!(design.add_node(Node::Signal(signal(2))).is_ok());
    let found = design.signal(SignalId::from_raw(prim(2))).expect("signal 2");
    assert_eq!(found.id, SignalId::from_raw(prim(2)));
    assert_eq!(design.signals.len(), 2);
}

#[test]
fn non_contiguous_signal_is_refused() {
    let mut design = Design::from_metadata(metadata());
    design.add_node(Node::Signal(signal(1))).expect("first");
    let err = design.add_node(Node::Signal(signal(3))).expect_err("gap");
    match err {
        DesignError::NotContiguous { kind, index, expected } => {
            assert_eq!(kind, "signal");
            assert_eq!(index, 2);
            assert_eq!(expected, 1);
        }
        other => panic!("unexpected {other:?}"),
    }
    assert_eq!(design.signals.len(), 1);
    let err = design.add_node(Node::Signal(signal(1))).expect_err("repeat");
    assert!(matches!(err, DesignError::NotContiguous { index: 0, expected: 1, .. }));
}

#[test]
fn each_table_reports_its_kind() {
    let mut design = Design::from_metadata(metadata());
    let cases: Vec<(Node, &str)> = vec![
        (Node::Process(process(2, None, None)), "process"),
        (Node::Driver(driver(2, None)), "driver"),
        (Node::Sensitivity(sensitivity(2, None)), "sensitivity"),
        (Node::Type(type_node(2)), "type"),
        (
            Node::Value(Value {
                id: ValueId::from_raw(prim(2)),
                kind: ValueKindData::File { file: 3 },
            }),
            "value",
        ),
        (
            Node::Memory(Memory { id: MemoryId::from_raw(prim(2)), size: 0, data: vec![] }),
            "memory",
        ),
        (
            Node::NbrSources(NbrSources { id: NbrSourcesId::from_raw(prim(2)), entries: vec![] }),
            "nbr_sources",
        ),
        (
            Node::Disconnect(Disconnect {
                id: DisconnectId::from_raw(prim(2)),
                sig: sub_signal(1),
                prev: None,
                val: 5,
            }),
            "disconnect",
        ),
        (
            Node::Connection(Connection {
                id: ConnectionId::from_raw(prim(2)),
                formal: sub_signal(1),
                actual: sub_signal(2),
                formal_link: None,
                actual_link: None,
                collapsed: false,
                assoc: None,
                assoc_inst: InstanceId::from_raw(prim(1)),
            }),
            "connection",
        ),
    ];
    for (node, expected_kind) in cases {
        assert_eq!(node.type_str(), expected_kind);
        match design.add_node(node) {
            Err(DesignError::NotContiguous { kind, index: 1, expected: 0 }) => {
                assert_eq!(kind, expected_kind)
            }
            other => panic!("unexpected {other:?}"),
        }
    }
}

#[test]
fn skipped_instance_ids_get_placeholders() {
    let mut design = Design::from_metadata(metadata());
    design.add_node(Node::Instance(instance(3, Some(1)))).expect("instance 3");
    assert_eq!(design.instances.len(), 3);
    for (k, inst) in design.instances.iter().take(2).enumerate() {
        assert_eq!(inst.id.to_raw().get() as usize, k + 1);
        assert!(inst.parent.is_none() && inst.stmt.is_none() && inst.foreign == 0);
        assert!(!inst.has_individual_association_formals);
    }
    let third = design.instance(InstanceId::from_raw(prim(3))).expect("instance 3");
    assert_eq!(third.foreign, 7);
    assert_eq!(third.parent, Some(InstanceId::from_raw(prim(1))));
    design.add_node(Node::Instance(instance(4, None))).expect("instance 4");
    assert_eq!(design.instances.len(), 4);
}

#[test]
fn instance_out_of_order_is_refused() {
    let mut design = Design::from_metadata(metadata());
    design.add_node(Node::Instance(instance(2, None))).expect("instance 2");
    let err = design.add_node(Node::Instance(instance(1, None))).expect_err("out of order");
    match err {
        DesignError::InstanceOutOfOrder { id, len } => {
            assert_eq!(id, InstanceId::from_raw(prim(1)));
            assert_eq!(len, 2);
        }
        other => panic!("unexpected {other:?}"),
    }
    assert_eq!(design.instances.len(), 2);
}

#[test]
fn object_slots_are_appended_without_id_check() {
    let mut design = Design::from_metadata(metadata());
    let slot = ObjectSlot {
        instance: InstanceId::from_raw(prim(9)),
        slot: 1,
        decl: None,
        kind: ObjectSlotKind::Instance { target_instance: InstanceId::from_raw(prim(2)) },
    };
    assert_eq!(slot.id_index(), 8);
    design.add_node(Node::ObjectSlot(slot)).expect("slot");
    assert_eq!(design.object_slots.len(), 1);
    assert_eq!(design.object_slots[0].slot, 1);
}

#[test]
fn out_of_range_lookup_names_table_and_id() {
    let design = Design::from_metadata(metadata());
    let err = design.instance(InstanceId::from_raw(prim(7))).expect_err("empty");
    assert_eq!(err.kind, "instance");
    assert_eq!(err.id, 7);
    assert_eq!(design.typ(TypeId::from_raw(prim(2))).expect_err("empty").kind, "type");
    assert_eq!(design.value(ValueId::from_raw(prim(2))).expect_err("empty").kind, "value");
    assert_eq!(design.memory(MemoryId::from_raw(prim(2))).expect_err("empty").kind, "memory");
    assert_eq!(
        design.nbr_sources(NbrSourcesId::from_raw(prim(2))).expect_err("empty").kind,
        "nbr_sources"
    );
    assert_eq!(design.process(ProcessId::from_raw(prim(2))).expect_err("empty").kind, "process");
    assert_eq!(design.driver(DriverId::from_raw(prim(2))).expect_err("empty").kind, "driver");
    assert_eq!(
        design.sensitivity(SensitivityId::from_raw(prim(2))).expect_err("empty").kind,
        "sensitivity"
    );
    assert_eq!(
        design.connection(ConnectionId::from_raw(prim(2))).expect_err("empty").kind,
        "connection"
    );
    assert_eq!(
        design.disconnect(DisconnectId::from_raw(prim(2))).expect_err("empty").kind,
        "disconnect"
    );
    assert_eq!(design.signal(SignalId::from_raw(prim(1))).expect_err("empty").id, 1);
}

#[test]
fn process_drivers_follow_prev_proc() {
    let mut design = Design::from_metadata(metadata());
    design.add_node(Node::Driver(driver(1, None))).expect("driver 1");
    design.add_node(Node::Driver(driver(2, Some(1)))).expect("driver 2");
    let proc = process(1, Some(2), None);
    let mut walk = proc.drivers(&design);
    assert_eq!(walk.next().map(|d| d.id.to_raw().get()), Some(2));
    assert_eq!(walk.next().map(|d| d.id.to_raw().get()), Some(1));
    assert!(walk.next().is_none());
    assert!(walk.next().is_none());
}

#[test]
fn process_drivers_stop_at_out_of_range_id() {
    let design = Design::from_metadata(metadata());
    let proc = process(1, Some(5), None);
    let mut walk = proc.drivers(&design);
    assert!(walk.next().is_none());
}

#[test]
fn process_sensitivity_follows_prev_proc() {
    let mut design = Design::from_metadata(metadata());
    design.add_node(Node::Sensitivity(sensitivity(1, None))).expect("sens 1");
    design.add_node(Node::Sensitivity(sensitivity(2, Some(1)))).expect("sens 2");
    let proc = process(1, None, Some(2));
    let mut walk = proc.sensitivity_list(&design);
    assert_eq!(walk.next().map(|s| s.id.to_raw().get()), Some(2));
    assert_eq!(walk.next().map(|s| s.id.to_raw().get()), Some(1));
    assert!(walk.next().is_none());
    let empty = process(2, None, None);
    assert!(empty.sensitivity_list(&design).next().is_none());
}

#[test]
fn type_str_names_every_kind() {
    let slot = ObjectSlot {
        instance: InstanceId::from_raw(prim(1)),
        slot: 1,
        decl: None,
        kind: ObjectSlotKind::Subprg,
    };
    assert_eq!(Node::ObjectSlot(slot).type_str(), "object_slot");
    assert_eq!(Node::Instance(instance(1, None)).type_str(), "instance");
    assert_eq!(Node::Signal(signal(1)).type_str(), "signal");
    let entries = vec![NbrSourcesEntry { nbr_drivers: 1, nbr_conns: 0, total: 1 }];
    let nbr = NbrSources { id: NbrSourcesId::from_raw(prim(1)), entries };
    assert_eq!(Node::NbrSources(nbr).type_str(), "nbr_sources");
}

#[test]
fn added_nodes_are_found_by_their_id() {
    let mut design = Design::from_metadata(metadata());
    design.add_node(Node::Type(type_node(1))).expect("type 1");
    design
        .add_node(Node::Memory(Memory { id: MemoryId::from_raw(prim(1)), size: 3, data: b"foo".to_vec() }))
        .expect("memory 1");
    let memory = design.memory(MemoryId::from_raw(prim(1))).expect("memory");
    assert_eq!(memory.data, b"foo");
    assert_eq!(memory.size, 3);
    assert_eq!(design.typ(TypeId::from_raw(prim(1))).expect("type").w, 1);
}

#[test]
fn id_from_primitive_keeps_raw() {
    let id: InstanceId = InstanceId::from(prim(6));
    assert_eq!(id, InstanceId::from_raw(prim(6)));
    assert_eq!(id.index(), 5);
    let id: ValueId = prim(2).into();
    assert_eq!(id.to_raw().get(), 2);
}

#[test]
fn id_debug_shows_wire_value() {
    assert_eq!(format!("{:?}", InstanceId::from_raw(prim(5))), "InstanceId(5)");
    assert_eq!(format!("{:?}", NbrSourcesId::from_raw(prim(12))), "NbrSourcesId(12)");
}

#[test]
fn instance_ids_must_strictly_increase() {
    let mut design = Design::from_metadata(metadata());
    assert!(design.add_node(Node::Instance(instance(1, None))).is_ok());
    assert!(design.add_node(Node::Instance(instance(4, None))).is_ok());
    // A repeated ID and a smaller ID are refused and change nothing.
    assert!(design.add_node(Node::Instance(instance(4, None))).is_err());
    assert!(design.add_node(Node::Instance(instance(2, None))).is_err());
    assert_eq!(design.instances.len(), 4);
    assert!(design.add_node(Node::Instance(instance(5, None))).is_ok());
    assert_eq!(design.instances.len(), 5);
}

#[test]
fn loading_run_keeps_tables_packed() {
    let mut design = Design::from_metadata(metadata());
    let nodes = vec![
        Node::Instance(instance(2, None)),
        Node::Signal(signal(1)),
        Node::Signal(signal(3)),
        Node::Driver(driver(1, None)),
        Node::Instance(instance(1, None)),
        Node::Signal(signal(2)),
        Node::Instance(instance(5, Some(2))),
    ];
    let accepted: Vec<bool> = nodes.into_iter().map(|n| design.add_node(n).is_ok()).collect();
    assert_eq!(accepted, vec![true, true, false, true, false, true, true]);
    for (k, inst) in design.instances.iter().enumerate() {
        assert_eq!(inst.id_index(), k);
    }
    for (k, sig) in design.signals.iter().enumerate() {
        assert_eq!(sig.id_index(), k);
    }
    assert_eq!(design.instances.len(), 5);
    assert_eq!(design.signals.len(), 2);
}

#[test]
fn error_messages_name_kind_and_ids() {
    let design = Design::from_metadata(metadata());
    let err = design.signal(SignalId::from_raw(prim(42))).expect_err("empty");
    assert_eq!(err.message(), "signal #42 not found in design");
    let err = design.instance(InstanceId::from_raw(prim(u32::MAX))).expect_err("empty");
    assert_eq!(err.message(), "instance #4294967295 not found in design");

    let mut design = Design::from_metadata(metadata());
    let err = design.add_node(Node::Signal(signal(13))).expect_err("gap");
    assert_eq!(err.message(), "signal ID index 12 is not contiguous (expected 0)");
    design.add_node(Node::Instance(instance(10, None))).expect("instance 10");
    let err = design.add_node(Node::Instance(instance(3, None))).expect_err("order");
    assert_eq!(err.message(), "instance ID 3 is out of order (expected index >= 10)");
    let err = design.add_node(Node::Type(type_node(1))).map(|_| ()).and_then(|_| {
        design.add_node(Node::Type(type_node(1)))
    });
    assert_eq!(
        err.expect_err("repeat").message(),
        "type ID index 0 is not contiguous (expected 1)"
    );
}
