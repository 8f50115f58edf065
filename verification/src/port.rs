use vstd::prelude::*;

verus! {

/// Descriptor of a cell's kind: a display name and the cell's arity, the
/// number of auxiliary ports a cell of this kind owns. Immutable once built;
/// two cells may carry equal symbols, each owning its own copy.
pub struct Symbol {
    pub name: String,
    pub arity: usize,
}

impl Clone for Symbol {
    fn clone(&self) -> (r: Self)
        ensures
            r == *self,
    {
        Symbol { name: self.name.clone(), arity: self.arity }
    }
}

/// One connection point of a net, addressed as a pure value. A port is either
/// one of the net's own external connection points (`Free`, by index), the
/// single distinguished port of a cell (`Principal`, by cell identifier), or
/// one of a cell's ordinary ports (`Auxiliary`, by cell identifier and index).
///
/// Ports compare by variant and fields; they address positions in a net but
/// are owned by nothing.
#[derive(Clone, Copy, Debug, PartialEq, Eq, Hash, Structural)]
pub enum Port {
    Free(usize),
    Principal(usize),
    Auxiliary(usize, usize),
}

} // verus!
