//! Capabilities: a type, an optional badge and the host resource behind it.
use vstd::prelude::*;
use std::collections::HashMap;

verus! {

/// The kinds of kernel object that a capability can name.
#[derive(Clone, Copy, Debug, PartialEq, Eq, Structural)]
pub enum CapType {
    Empty,
    Untyped,
    CNode,
    TCB,
    Endpoint,
    Reply,
    Frame,
    VSpace,
    IrqHandler,
    Console,
}

/// The host resource that backs a capability: nothing, or a host file descriptor.
#[derive(Clone, Copy, Debug, PartialEq, Eq, Structural)]
pub enum CapData {
    Empty,
    Untyped(i32),
    Frame(i32),
}

/// The data cells that capabilities point into. A capability and every copy of it
/// (a clone, a badged mint, a copy into another slot) name the same cell, so data set
/// through one of them is seen through all of them. A cell that was never set holds
/// `CapData::Empty`.
pub struct CapDataStore {
    pub cells: HashMap<usize, CapData>,
    pub next_cell: usize,
}

impl CapDataStore {
    /// Every cell that holds data was handed out already.
    pub open spec fn wf(&self) -> bool {
        forall|c: usize| #[trigger] self.cells@.contains_key(c) ==> c < self.next_cell
    }

    /// What cell `cell` holds.
    pub open spec fn value(&self, cell: usize) -> CapData {
        cell_value(self.cells@, cell)
    }

    /// A store that has handed out no cell.
    pub fn new() -> (s: Self)
        ensures
            s.wf(),
            s.cells@ == Map::<usize, CapData>::empty(),
            s.next_cell == 0,
    {
        CapDataStore { cells: HashMap::new(), next_cell: 0 }
    }
}

/// A capability held in a slot of the capability space: its type, its badge, and the
/// data cell that it shares with the capability it was copied from.
#[derive(Clone, Copy, Debug, PartialEq, Eq, Structural)]
pub struct Capability {
    pub cap_type: CapType,
    pub badge: Option<usize>,
    pub data: usize,
}

impl Capability {
    /// A fresh capability of the given type, without badge, with a data cell of its own
    /// that holds no data.
    pub fn new(cap_type: CapType, store: &mut CapDataStore) -> (cap: Self)
        requires
            old(store).wf(),
            old(store).next_cell < usize::MAX,
        ensures
            cap.cap_type == cap_type,
            cap.badge == None::<usize>,
            cap.data == old(store).next_cell,
            final(store).next_cell == old(store).next_cell + 1,
            final(store).cells@ == old(store).cells@,
            final(store).wf(),
            final(store).value(cap.data) == CapData::Empty,
    {
        let cell = store.next_cell;
        store.next_cell = cell + 1;
        Capability { cap_type, badge: None, data: cell }
    }

    /// The same capability, badged with `badge`; it keeps sharing its data cell.
    pub fn with_badge(self, badge: usize) -> (cap: Self)
        ensures
            cap == (Capability { badge: Some(badge), ..self }),
    {
        let mut c = self;
        c.badge = Some(badge);
        c
    }

    /// Replaces the data of this capability's cell, and so of every copy of it.
    pub fn set_data(&self, store: &mut CapDataStore, data: CapData)
        requires
            old(store).wf(),
            self.data < old(store).next_cell,
        ensures
            final(store).cells@ == old(store).cells@.insert(self.data, data),
            final(store).next_cell == old(store).next_cell,
            final(store).wf(),
    {
        broadcast use vstd::std_specs::hash::group_hash_axioms;

        store.cells.insert(self.data, data);
    }

    /// The data of this capability's cell.
    pub fn get_data(&self, store: &CapDataStore) -> (data: CapData)
        ensures
            data == store.value(self.data),
    {
        broadcast use vstd::std_specs::hash::group_hash_axioms;

        match store.cells.get(&self.data) {
            Some(d) => *d,
            None => CapData::Empty,
        }
    }
}

/// What cell `cell` holds in `cells`: its data, or `CapData::Empty` if it was never set.
pub open spec fn cell_value(cells: Map<usize, CapData>, cell: usize) -> CapData {
    if cells.contains_key(cell) {
        cells[cell]
    } else {
        CapData::Empty
    }
}

/// Data set through one capability is what every capability that shares its cell sees,
/// a badged copy among them, and no other cell changes.
pub proof fn law_copies_share_data(cells: Map<usize, CapData>, c: Capability, other: Capability, badge: usize, d: CapData)
    ensures
        (Capability { badge: Some(badge), ..c }).data == c.data,
        other.data == c.data ==> cell_value(cells.insert(c.data, d), other.data) == d,
        other.data != c.data ==> cell_value(cells.insert(c.data, d), other.data) == cell_value(cells, other.data),
{
}

} // verus!
