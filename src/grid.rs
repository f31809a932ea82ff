use vstd::prelude::*;
use crate::geometry::{Point, CELLS, WIDTH};

verus! {

/// The cells of a level in row order.
#[derive(Clone)]
pub struct Grid<T> {
    pub grid: Vec<T>,
}

impl<T> Grid<T> {
    /// A full grid: one entry per cell.
    pub open spec fn wf(&self) -> bool {
        self.grid@.len() == CELLS
    }

    pub open spec fn at(&self, p: Point) -> T {
        self.grid@[p.index_spec()]
    }

    pub fn empty() -> (r: Grid<T>)
        ensures
            r.grid@.len() == 0,
    {
        Grid { grid: Vec::with_capacity(CELLS) }
    }

    pub fn get(&self, p: Point) -> (r: &T)
        requires
            self.wf(),
            p.on_board(),
        ensures
            *r == self.at(p),
    {
        &self.grid[p.1 as usize * WIDTH + p.0 as usize]
    }

    pub fn set(&mut self, p: Point, value: T)
        requires
            old(self).wf(),
            p.on_board(),
        ensures
            final(self).grid@ == old(self).grid@.update(p.index_spec(), value),
    {
        let i = p.1 as usize * WIDTH + p.0 as usize;
        self.grid.set(i, value);
    }
}

} // verus!
