use vstd::prelude::*;

use crate::port::Port;

verus! {

/// The mapping that a list of wire entries denotes: each entry binds its
/// first port to its second, and a later entry overrides an earlier one with
/// the same first port.
pub open spec fn wire_map(entries: Seq<(Port, Port)>) -> Map<Port, Port>
    decreases entries.len(),
{
    if entries.len() == 0 {
        Map::empty()
    } else {
        wire_map(entries.drop_last()).insert(entries.last().0, entries.last().1)
    }
}

/// No two entries bind the same port.
pub open spec fn distinct_keys(entries: Seq<(Port, Port)>) -> bool {
    forall|i: int, j: int|
        0 <= i < j < entries.len() ==> (#[trigger] entries[i]).0 != (#[trigger] entries[j]).0
}

/// With distinct keys, the entry at any position gives the mapping's value at
/// its first port.
proof fn lemma_wire_map_entry(entries: Seq<(Port, Port)>, i: int)
    requires
        distinct_keys(entries),
        0 <= i < entries.len(),
    ensures
        wire_map(entries).contains_key(entries[i].0),
        wire_map(entries)[entries[i].0] == entries[i].1,
    decreases entries.len(),
{
    if i < entries.len() - 1 {
        assert(entries.drop_last()[i] == entries[i]);
        lemma_wire_map_entry(entries.drop_last(), i);
    }
}

/// A port bound by no entry is absent from the mapping.
proof fn lemma_wire_map_absent(entries: Seq<(Port, Port)>, port: Port)
    requires
        forall|i: int| 0 <= i < entries.len() ==> (#[trigger] entries[i]).0 != port,
    ensures
        !wire_map(entries).contains_key(port),
    decreases entries.len(),
{
    if entries.len() > 0 {
        lemma_wire_map_absent(entries.drop_last(), port);
    }
}

/// With distinct keys, replacing the value of the entry at position `i`
/// denotes exactly an insertion into the mapping.
proof fn lemma_wire_map_update(entries: Seq<(Port, Port)>, i: int, to: Port)
    requires
        distinct_keys(entries),
        0 <= i < entries.len(),
    ensures
        wire_map(entries.update(i, (entries[i].0, to)))
            == wire_map(entries).insert(entries[i].0, to),
    decreases entries.len(),
{
    let updated = entries.update(i, (entries[i].0, to));
    if i == entries.len() - 1 {
        assert(updated.drop_last() =~= entries.drop_last());
        assert(wire_map(updated) =~= wire_map(entries).insert(entries[i].0, to));
    } else {
        assert(updated.drop_last() =~= entries.drop_last().update(i, (entries[i].0, to)));
        assert(entries.drop_last()[i] == entries[i]);
        lemma_wire_map_update(entries.drop_last(), i, to);
        // The final entry binds a port other than entries[i].0, so the two
        // insertions commute.
        assert(wire_map(updated) =~= wire_map(entries).insert(entries[i].0, to));
    }
}

/// Binds `from` to `to` in the entry list, replacing the entry that already
/// binds `from` if there is one.
pub fn set_wire(entries: &mut Vec<(Port, Port)>, from: Port, to: Port)
    requires
        distinct_keys(old(entries)@),
    ensures
        distinct_keys(final(entries)@),
        wire_map(final(entries)@) == wire_map(old(entries)@).insert(from, to),
{
    let n = entries.len();
    for i in 0..n
        invariant
            n == entries@.len(),
            entries@ == old(entries)@,
            distinct_keys(entries@),
            forall|j: int| 0 <= j < i ==> (#[trigger] entries@[j]).0 != from,
    {
        if entries[i].0 == from {
            proof {
                lemma_wire_map_update(entries@, i as int, to);
            }
            entries.set(i, (from, to));
            proof {
                assert forall|p: int, q: int| 0 <= p < q < entries@.len()
                    implies (#[trigger] entries@[p]).0 != (#[trigger] entries@[q]).0
                by {
                    assert(old(entries)@[p].0 != old(entries)@[q].0);
                }
            }
            return;
        }
    }
    entries.push((from, to));
    proof {
        assert(entries@.drop_last() =~= old(entries)@);
        lemma_wire_map_absent(old(entries)@, from);
        assert forall|p: int, q: int| 0 <= p < q < entries@.len()
            implies (#[trigger] entries@[p]).0 != (#[trigger] entries@[q]).0
        by {
            if q < entries@.len() - 1 {
                assert(old(entries)@[p].0 != old(entries)@[q].0);
            } else {
                assert(entries@[p] == old(entries)@[p]);
            }
        }
    }
}

/// Looks `port` up in the entry list, returning the port it is bound to.
pub fn lookup_wire(entries: &Vec<(Port, Port)>, port: &Port) -> (r: Option<Port>)
    requires
        distinct_keys(entries@),
    ensures
        (r is Some) <==> wire_map(entries@).contains_key(*port),
        r matches Some(q) ==> q == wire_map(entries@)[*port],
{
    let n = entries.len();
    for i in 0..n
        invariant
            n == entries@.len(),
            distinct_keys(entries@),
            forall|j: int| 0 <= j < i ==> (#[trigger] entries@[j]).0 != *port,
    {
        if entries[i].0 == *port {
            proof {
                lemma_wire_map_entry(entries@, i as int);
            }
            return Some(entries[i].1);
        }
    }
    proof {
        lemma_wire_map_absent(entries@, *port);
    }
    None
}

} // verus!
