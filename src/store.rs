//! Widget state that outlives a frame: a map from a caller-chosen 64-bit
//! identifier to a tagged cell, with typed accessors that refuse a cell of
//! another kind.

use std::collections::HashMap;
use vstd::prelude::*;

verus! {

/// One persisted value.
#[derive(Clone, Copy, Debug, PartialEq, Eq, Structural)]
pub enum Cell {
    /// A boolean, such as whether a popup is open.
    Flag(bool),
    /// An optional index, such as the knot under a drag.
    Index(Option<usize>),
    /// A count or a selection.
    Count(usize),
}

/// The cell under `id` holds another kind of value than the one asked for.
#[derive(Clone, Copy, Debug, PartialEq, Eq, Structural)]
pub struct Mismatch {
    pub id: u64,
}

pub open spec fn same_kind(a: Cell, b: Cell) -> bool {
    match (a, b) {
        (Cell::Flag(_), Cell::Flag(_)) => true,
        (Cell::Index(_), Cell::Index(_)) => true,
        (Cell::Count(_), Cell::Count(_)) => true,
        _ => false,
    }
}

/// What reading `id`, with `init` for a missing cell, returns.
pub open spec fn read_result(m: Map<u64, Cell>, id: u64, init: Cell) -> Result<Cell, Mismatch> {
    if !m.contains_key(id) {
        Ok(init)
    } else if same_kind(m[id], init) {
        Ok(m[id])
    } else {
        Err(Mismatch { id })
    }
}

/// The cells after reading `id`: a missing cell is created with `init`.
pub open spec fn after_read(m: Map<u64, Cell>, id: u64, init: Cell) -> Map<u64, Cell> {
    if !m.contains_key(id) {
        m.insert(id, init)
    } else {
        m
    }
}

/// Whether `value` may be written under `id`: the cell is missing or of the
/// same kind.
pub open spec fn writable(m: Map<u64, Cell>, id: u64, value: Cell) -> bool {
    !m.contains_key(id) || same_kind(m[id], value)
}

pub struct WidgetStore {
    cells: HashMap<u64, Cell>,
}

impl View for WidgetStore {
    type V = Map<u64, Cell>;

    closed spec fn view(&self) -> Map<u64, Cell> {
        self.cells@
    }
}

impl WidgetStore {
    pub fn new() -> (r: WidgetStore)
        ensures
            r@ == Map::<u64, Cell>::empty(),
    {
        WidgetStore { cells: HashMap::new() }
    }

    /// The cell under `id`, created with `init` where there is none; an
    /// error, and no change, where it holds another kind of value.
    pub fn get_or_init(&mut self, id: u64, init: Cell) -> (r: Result<Cell, Mismatch>)
        ensures
            r == read_result(old(self)@, id, init),
            final(self)@ == after_read(old(self)@, id, init),
    {
        broadcast use vstd::std_specs::hash::group_hash_axioms;

        match self.cells.get(&id) {
            Some(c) => {
                let c = *c;
                if cell_kind_matches(c, init) {
                    Ok(c)
                } else {
                    Err(Mismatch { id })
                }
            },
            None => {
                self.cells.insert(id, init);
                Ok(init)
            },
        }
    }

    /// Writes `value` under `id`, unless the cell there holds another kind.
    pub fn set(&mut self, id: u64, value: Cell) -> (r: Result<(), Mismatch>)
        ensures
            writable(old(self)@, id, value) ==> r is Ok && final(self)@ == old(self)@.insert(id, value),
            !writable(old(self)@, id, value) ==> r == Err::<(), Mismatch>(Mismatch { id })
                && final(self)@ == old(self)@,
    {
        broadcast use vstd::std_specs::hash::group_hash_axioms;

        let ok = match self.cells.get(&id) {
            Some(c) => cell_kind_matches(*c, value),
            None => true,
        };
        if ok {
            self.cells.insert(id, value);
            Ok(())
        } else {
            Err(Mismatch { id })
        }
    }

    /// The flag under `id`, false where there is none yet.
    pub fn flag(&mut self, id: u64) -> (r: Result<bool, Mismatch>)
        ensures
            final(self)@ == after_read(old(self)@, id, Cell::Flag(false)),
            r == (match read_result(old(self)@, id, Cell::Flag(false)) {
                Ok(Cell::Flag(b)) => Ok(b),
                _ => Err(Mismatch { id }),
            }),
    {
        match self.get_or_init(id, Cell::Flag(false)) {
            Ok(Cell::Flag(b)) => Ok(b),
            _ => Err(Mismatch { id }),
        }
    }

    pub fn set_flag(&mut self, id: u64, b: bool) -> (r: Result<(), Mismatch>)
        ensures
            writable(old(self)@, id, Cell::Flag(b)) ==> r is Ok && final(self)@ == old(self)@.insert(id, Cell::Flag(b)),
            !writable(old(self)@, id, Cell::Flag(b)) ==> r is Err && final(self)@ == old(self)@,
    {
        self.set(id, Cell::Flag(b))
    }

    /// The optional index under `id`, none where there is no cell yet.
    pub fn index(&mut self, id: u64) -> (r: Result<Option<usize>, Mismatch>)
        ensures
            final(self)@ == after_read(old(self)@, id, Cell::Index(None)),
            r == (match read_result(old(self)@, id, Cell::Index(None)) {
                Ok(Cell::Index(i)) => Ok(i),
                _ => Err(Mismatch { id }),
            }),
    {
        match self.get_or_init(id, Cell::Index(None)) {
            Ok(Cell::Index(i)) => Ok(i),
            _ => Err(Mismatch { id }),
        }
    }

    pub fn set_index(&mut self, id: u64, i: Option<usize>) -> (r: Result<(), Mismatch>)
        ensures
            writable(old(self)@, id, Cell::Index(i)) ==> r is Ok && final(self)@ == old(self)@.insert(id, Cell::Index(i)),
            !writable(old(self)@, id, Cell::Index(i)) ==> r is Err && final(self)@ == old(self)@,
    {
        self.set(id, Cell::Index(i))
    }

    /// The count under `id`, zero where there is no cell yet.
    pub fn count(&mut self, id: u64) -> (r: Result<usize, Mismatch>)
        ensures
            final(self)@ == after_read(old(self)@, id, Cell::Count(0)),
            r == (match read_result(old(self)@, id, Cell::Count(0)) {
                Ok(Cell::Count(n)) => Ok(n),
                _ => Err(Mismatch { id }),
            }),
    {
        match self.get_or_init(id, Cell::Count(0)) {
            Ok(Cell::Count(n)) => Ok(n),
            _ => Err(Mismatch { id }),
        }
    }

    pub fn set_count(&mut self, id: u64, n: usize) -> (r: Result<(), Mismatch>)
        ensures
            writable(old(self)@, id, Cell::Count(n)) ==> r is Ok && final(self)@ == old(self)@.insert(id, Cell::Count(n)),
            !writable(old(self)@, id, Cell::Count(n)) ==> r is Err && final(self)@ == old(self)@,
    {
        self.set(id, Cell::Count(n))
    }
}

fn cell_kind_matches(a: Cell, b: Cell) -> (r: bool)
    ensures
        r == same_kind(a, b),
{
    match (a, b) {
        (Cell::Flag(_), Cell::Flag(_)) => true,
        (Cell::Index(_), Cell::Index(_)) => true,
        (Cell::Count(_), Cell::Count(_)) => true,
        _ => false,
    }
}

} // verus!
