use vstd::prelude::*;

use crate::port::Port;
use crate::port::Symbol;
use crate::wiring::distinct_keys;
use crate::wiring::lookup_wire;
use crate::wiring::set_wire;
use crate::wiring::wire_map;

verus! {

/// The mathematical value of a net: its external arity, its cells in
/// insertion order, and the wiring relation as a mapping from port to
/// connected port.
pub struct NetModel {
    pub arity: nat,
    pub cells: Seq<Symbol>,
    pub wires: Map<Port, Port>,
}

/// What connecting two ports does to the wiring relation: each endpoint is
/// bound to the other, unconditionally, whatever either was bound to before.
/// When both endpoints are the same port, that port is bound to itself.
pub open spec fn connect_spec(wires: Map<Port, Port>, a: Port, b: Port) -> Map<Port, Port> {
    wires.insert(a, b).insert(b, a)
}

/// An interaction net. It owns an append-only sequence of cells, each
/// labelled by a [`Symbol`], and a wiring relation between [`Port`] values.
/// Cell identifiers are assigned densely from zero in insertion order and are
/// never reused; the external arity is fixed at construction.
///
/// Connections are stored without validation: a port naming a nonexistent
/// cell or an out-of-range index is accepted and kept as an opaque address.
pub struct Net {
    arity: usize,
    cells: Vec<Symbol>,
    wires: Vec<(Port, Port)>,
}

impl View for Net {
    type V = NetModel;

    closed spec fn view(&self) -> NetModel {
        NetModel { arity: self.arity as nat, cells: self.cells@, wires: wire_map(self.wires@) }
    }
}

impl Net {
    #[verifier::type_invariant]
    spec fn wf(&self) -> bool {
        distinct_keys(self.wires@)
    }

    /// A net with the given external arity, no cells and no wires.
    pub fn new(arity: usize) -> (net: Net)
        ensures
            net@.arity == arity,
            net@.cells == Seq::<Symbol>::empty(),
            net@.wires == Map::<Port, Port>::empty(),
    {
        Net { arity, cells: Vec::new(), wires: Vec::new() }
    }

    /// Appends a cell labelled by `symbol` and returns its identifier: the
    /// number of cells the net held before the call. Never fails; the wiring
    /// relation and the external arity are untouched.
    pub fn add_cell(&mut self, symbol: Symbol) -> (id: usize)
        ensures
            id == old(self)@.cells.len(),
            final(self)@.arity == old(self)@.arity,
            final(self)@.cells == old(self)@.cells.push(symbol),
            final(self)@.wires == old(self)@.wires,
    {
        proof {
            use_type_invariant(&*self);
        }
        let id = self.cells.len();
        let mut cells: Vec<Symbol> = Vec::new();
        std::mem::swap(&mut cells, &mut self.cells);
        cells.push(symbol);
        self.cells = cells;
        id
    }

    /// Wires `a` to `b` and `b` to `a`, unconditionally: no check that either
    /// port names an existing cell or an in-range index, and any previous
    /// connection of either port is overwritten. The former partner of an
    /// overwritten port keeps its own, now stale, entry.
    pub fn connect(&mut self, a: Port, b: Port)
        ensures
            final(self)@.arity == old(self)@.arity,
            final(self)@.cells == old(self)@.cells,
            final(self)@.wires == connect_spec(old(self)@.wires, a, b),
    {
        proof {
            use_type_invariant(&*self);
        }
        let mut wires: Vec<(Port, Port)> = Vec::new();
        std::mem::swap(&mut wires, &mut self.wires);
        set_wire(&mut wires, a, b);
        set_wire(&mut wires, b, a);
        self.wires = wires;
    }

    /// The net's external connection points `Free(0), ..., Free(arity - 1)`,
    /// in ascending index order. The result depends only on the arity, never
    /// on the cells or the wiring.
    pub fn free_ports(&self) -> (ports: Vec<Port>)
        ensures
            ports@.len() == self@.arity,
            forall|i: int| 0 <= i < ports@.len() ==> ports@[i] == Port::Free(i as usize),
    {
        let mut ports: Vec<Port> = Vec::new();
        for i in 0..self.arity
            invariant
                ports@.len() == i,
                forall|j: int| 0 <= j < i ==> ports@[j] == Port::Free(j as usize),
        {
            ports.push(Port::Free(i));
        }
        ports
    }

    /// The symbol of the cell with identifier `cell_id`, together with that
    /// cell's ports in the fixed order `Principal(cell_id),
    /// Auxiliary(cell_id, 0), ..., Auxiliary(cell_id, arity - 1)`, where
    /// `arity` is the symbol's. Absent, with no error, exactly when `cell_id`
    /// is not an identifier the net has assigned.
    pub fn get_cell(&self, cell_id: usize) -> (r: Option<(Symbol, Vec<Port>)>)
        ensures
            (r is Some) <==> cell_id < self@.cells.len(),
            r matches Some(cell) ==> {
                &&& cell.0 == self@.cells[cell_id as int]
                &&& cell.1@.len() == cell.0.arity + 1
                &&& cell.1@[0] == Port::Principal(cell_id)
                &&& forall|i: int|
                    1 <= i < cell.1@.len() ==> cell.1@[i] == Port::Auxiliary(
                        cell_id,
                        (i - 1) as usize,
                    )
            },
    {
        if cell_id < self.cells.len() {
            let symbol = self.cells[cell_id].clone();
            let mut ports: Vec<Port> = Vec::new();
            ports.push(Port::Principal(cell_id));
            for i in 0..symbol.arity
                invariant
                    ports@.len() == i + 1,
                    ports@[0] == Port::Principal(cell_id),
                    forall|j: int|
                        1 <= j < ports@.len() ==> ports@[j] == Port::Auxiliary(
                            cell_id,
                            (j - 1) as usize,
                        ),
            {
                ports.push(Port::Auxiliary(cell_id, i));
            }
            Some((symbol, ports))
        } else {
            None
        }
    }

    /// The port wired to `port`, or absent when `port` has never been
    /// connected (or the net has no entry for it). A pure lookup: the net is
    /// not changed.
    pub fn connected_port(&self, port: &Port) -> (r: Option<Port>)
        ensures
            (r is Some) <==> self@.wires.contains_key(*port),
            r matches Some(q) ==> q == self@.wires[*port],
    {
        proof {
            use_type_invariant(&*self);
        }
        lookup_wire(&self.wires, port)
    }
}

/// After `connect(a, b)`, each endpoint is wired to the other: the wiring
/// entries of `a` and `b` read `b` and `a` respectively, whatever the
/// relation held before. This holds for `a == b` as well, where the port ends
/// up wired to itself.
pub proof fn lemma_connect_symmetric(wires: Map<Port, Port>, a: Port, b: Port)
    ensures
        connect_spec(wires, a, b).contains_key(a),
        connect_spec(wires, a, b).contains_key(b),
        connect_spec(wires, a, b)[a] == b,
        connect_spec(wires, a, b)[b] == a,
{
}

/// A connection touches no port besides its two endpoints: any other port is
/// in the relation afterwards exactly as it was before. Together with a fresh
/// net's empty relation, this gives that a port never passed to `connect`
/// always looks up as absent.
pub proof fn lemma_connect_preserves_others(wires: Map<Port, Port>, a: Port, b: Port, p: Port)
    requires
        p != a,
        p != b,
    ensures
        connect_spec(wires, a, b).contains_key(p) == wires.contains_key(p),
        wires.contains_key(p) ==> connect_spec(wires, a, b)[p] == wires[p],
{
}

/// Overwrite behaviour: after `connect(a, b)` and then `connect(a, c)`, the
/// port `a` is wired to `c`, while `b` — the former partner, when it is a
/// port other than `a` — still carries its stale entry wiring it to `a`. No
/// cleanup of the stale side takes place.
pub proof fn lemma_connect_overwrite(wires: Map<Port, Port>, a: Port, b: Port, c: Port)
    requires
        a != b,
    ensures
        connect_spec(connect_spec(wires, a, b), a, c).contains_key(a),
        connect_spec(connect_spec(wires, a, b), a, c).contains_key(b),
        connect_spec(connect_spec(wires, a, b), a, c)[a] == c,
        connect_spec(connect_spec(wires, a, b), a, c)[b] == a,
{
}

} // verus!
