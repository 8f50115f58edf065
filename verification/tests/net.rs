use interaction_net::Net;
use interaction_net::Port;
use interaction_net::Symbol;

#[test]
fn connect_is_symmetric() {
    let mut net = Net::new(2);
    net.connect(Port::Free(0), Port::Principal(7));
    assert_eq!(net.connected_port(&Port::Free(0)), Some(Port::Principal(7)));
    assert_eq!(net.connected_port(&Port::Principal(7)), Some(Port::Free(0)));
}

#[test]
fn connect_port_to_itself() {
    let mut net = Net::new(1);
    net.connect(Port::Free(0), Port::Free(0));
    assert_eq!(net.connected_port(&Port::Free(0)), Some(Port::Free(0)));
}

#[test]
fn connect_accepts_dangling_ports() {
    // No validation: ports naming nonexistent cells or out-of-range indices
    // are stored as opaque addresses.
    let mut net = Net::new(0);
    net.connect(Port::Auxiliary(41, 99), Port::Principal(12));
    assert_eq!(
        net.connected_port(&Port::Auxiliary(41, 99)),
        Some(Port::Principal(12))
    );
    assert_eq!(
        net.connected_port(&Port::Principal(12)),
        Some(Port::Auxiliary(41, 99))
    );
}

#[test]
fn free_ports_match_arity() {
    let mut net = Net::new(4);
    let expected = vec![
        Port::Free(0),
        Port::Free(1),
        Port::Free(2),
        Port::Free(3),
    ];
    assert_eq!(net.free_ports(), expected);
    // Unchanged by connections, and restartable: a later call yields the same
    // full sequence from the start.
    net.connect(Port::Free(1), Port::Free(2));
    assert_eq!(net.free_ports(), expected);
    assert_eq!(net.free_ports(), expected);
}

#[test]
fn free_ports_of_arity_zero_net() {
    let net = Net::new(0);
    assert_eq!(net.free_ports(), Vec::<Port>::new());
}

#[test]
fn cell_ports_complete() {
    let mut net = Net::new(0);
    let id = net.add_cell(Symbol { name: "dup".to_string(), arity: 2 });
    let (symbol, ports) = net.get_cell(id).unwrap();
    assert_eq!(symbol.name, "dup");
    assert_eq!(symbol.arity, 2);
    assert_eq!(
        ports,
        vec![
            Port::Principal(id),
            Port::Auxiliary(id, 0),
            Port::Auxiliary(id, 1),
        ]
    );
}

#[test]
fn cell_of_arity_zero_has_only_principal() {
    let mut net = Net::new(0);
    let id = net.add_cell(Symbol { name: "eps".to_string(), arity: 0 });
    let (symbol, ports) = net.get_cell(id).unwrap();
    assert_eq!(symbol.arity, 0);
    assert_eq!(ports, vec![Port::Principal(id)]);
}

#[test]
fn cell_identifiers_are_dense() {
    let mut net = Net::new(0);
    assert_eq!(net.add_cell(Symbol { name: "a".to_string(), arity: 1 }), 0);
    assert_eq!(net.add_cell(Symbol { name: "b".to_string(), arity: 0 }), 1);
    assert_eq!(net.add_cell(Symbol { name: "a".to_string(), arity: 1 }), 2);
}

#[test]
fn get_cell_absent_iff_out_of_range() {
    let mut net = Net::new(0);
    assert!(net.get_cell(0).is_none());
    net.add_cell(Symbol { name: "a".to_string(), arity: 1 });
    net.add_cell(Symbol { name: "b".to_string(), arity: 3 });
    assert!(net.get_cell(0).is_some());
    assert!(net.get_cell(1).is_some());
    assert!(net.get_cell(2).is_none());
    assert!(net.get_cell(usize::MAX).is_none());
}

#[test]
fn unconnected_port_absent() {
    let mut net = Net::new(3);
    assert_eq!(net.connected_port(&Port::Free(0)), None);
    net.connect(Port::Free(0), Port::Free(1));
    // Ports never passed to connect stay absent, even after other wires.
    assert_eq!(net.connected_port(&Port::Free(2)), None);
    assert_eq!(net.connected_port(&Port::Principal(0)), None);
    assert_eq!(net.connected_port(&Port::Auxiliary(0, 0)), None);
}

#[test]
fn overwrite_keeps_stale_partner() {
    let a = Port::Free(0);
    let b = Port::Free(1);
    let c = Port::Free(2);
    let mut net = Net::new(3);
    net.connect(a, b);
    net.connect(a, c);
    assert_eq!(net.connected_port(&a), Some(c));
    // The former partner keeps its own, now stale, entry: no cleanup.
    assert_eq!(net.connected_port(&b), Some(a));
    assert_eq!(net.connected_port(&c), Some(a));
}

#[test]
fn plus_cell_scenario() {
    let plus = Symbol { name: "+".to_string(), arity: 2 };
    let mut net = Net::new(3);
    let id = net.add_cell(plus);
    assert_eq!(id, 0);
    net.connect(Port::Free(0), Port::Principal(id));
    net.connect(Port::Free(1), Port::Auxiliary(id, 0));
    net.connect(Port::Free(2), Port::Auxiliary(id, 1));
    assert_eq!(net.connected_port(&Port::Free(0)), Some(Port::Principal(0)));
    assert_eq!(
        net.connected_port(&Port::Free(1)),
        Some(Port::Auxiliary(0, 0))
    );
    assert_eq!(
        net.connected_port(&Port::Free(2)),
        Some(Port::Auxiliary(0, 1))
    );
    let resolved: Vec<(Port, Option<Port>)> = net
        .free_ports()
        .into_iter()
        .map(|p| (p, net.connected_port(&p)))
        .collect();
    assert_eq!(
        resolved,
        vec![
            (Port::Free(0), Some(Port::Principal(0))),
            (Port::Free(1), Some(Port::Auxiliary(0, 0))),
            (Port::Free(2), Some(Port::Auxiliary(0, 1))),
        ]
    );
}

#[test]
fn symbols_are_copied_per_cell() {
    let shared = Symbol { name: "cons".to_string(), arity: 2 };
    let mut net = Net::new(0);
    let first = net.add_cell(shared.clone());
    let second = net.add_cell(shared);
    let (a, _) = net.get_cell(first).unwrap();
    let (b, _) = net.get_cell(second).unwrap();
    assert_eq!(a.name, b.name);
    assert_eq!(a.arity, b.arity);
}
