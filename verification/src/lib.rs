//! An in-memory representation of an interaction net: cells labelled by
//! symbols, addressable ports, and a symmetric wiring relation between ports.
//!
//! A net owns an append-only sequence of cells and a mapping from port to
//! connected port. Each cell exposes one principal port and a fixed number of
//! auxiliary ports; the net itself exposes a fixed number of free ports that
//! form its external boundary.

mod net;
mod port;
mod wiring;

pub use net::Net;
pub use net::NetModel;
pub use net::connect_spec;
pub use net::lemma_connect_overwrite;
pub use net::lemma_connect_preserves_others;
pub use net::lemma_connect_symmetric;
pub use port::Port;
pub use port::Symbol;
