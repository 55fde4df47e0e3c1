//! The pointer state that the producer publishes for any thread to read.
//!
//! Each field lives in an atomic cell of its own, so a reader never blocks
//! the writer and may see the position and the buttons of slightly
//! different instants. There is one writer, [`AtomicCursorState`]: it alone
//! stores into the cells, and it remembers what it stored, so that what it
//! reports of the state is exact. Any number of [`CursorStateReader`]s load
//! from the cells on other threads; what a load returns depends on when it
//! runs, and nothing is promised of it.

use vstd::prelude::*;
use std::sync::Arc;
use std::sync::atomic::AtomicBool;
use std::sync::atomic::AtomicU64;
use std::sync::atomic::Ordering;

verus! {

/// The pointer's position and buttons at one instant.
#[derive(Debug, Clone, Copy, PartialEq, Eq)]
pub struct CursorSnapshot {
    /// Bit patterns of the x and y coordinates.
    pub position: (u64, u64),
    /// Whether the left button is down.
    pub left_down: bool,
    /// Whether the right button is down.
    pub right_down: bool,
}

impl CursorSnapshot {
    /// The pointer at the origin with no button down.
    pub fn new() -> (snapshot: Self)
        ensures
            snapshot == (CursorSnapshot { position: (0u64, 0u64), left_down: false, right_down: false }),
    {
        CursorSnapshot { position: (0, 0), left_down: false, right_down: false }
    }
}

/// The cells themselves.
#[derive(Debug)]
struct SharedCells {
    position_x: AtomicU64,
    position_y: AtomicU64,
    left_click: AtomicBool,
    right_click: AtomicBool,
}

/// The writing end of the shared pointer state. Its view is what it stored
/// last.
#[derive(Debug)]
pub struct AtomicCursorState {
    cells: Arc<SharedCells>,
    stored: CursorSnapshot,
}

/// A reading end of the shared pointer state.
#[derive(Debug, Clone)]
pub struct CursorStateReader {
    cells: Arc<SharedCells>,
}

impl View for AtomicCursorState {
    type V = CursorSnapshot;

    closed spec fn view(&self) -> CursorSnapshot {
        self.stored
    }
}

impl AtomicCursorState {
    /// A state at the origin with no button down.
    pub fn new() -> (state: Self)
        ensures
            state@ == (CursorSnapshot { position: (0u64, 0u64), left_down: false, right_down: false }),
    {
        AtomicCursorState {
            cells: Arc::new(
                SharedCells {
                    position_x: AtomicU64::new(0),
                    position_y: AtomicU64::new(0),
                    left_click: AtomicBool::new(false),
                    right_click: AtomicBool::new(false),
                },
            ),
            stored: CursorSnapshot::new(),
        }
    }

    /// Stores the bit patterns of a new position, x first.
    pub fn update_position(&mut self, x: u64, y: u64)
        ensures
            final(self)@ == (CursorSnapshot { position: (x, y), ..old(self)@ }),
    {
        self.cells.position_x.store(x, Ordering::Relaxed);
        self.cells.position_y.store(y, Ordering::Relaxed);
        self.stored.position = (x, y);
    }

    /// The bit patterns of the position that was stored last.
    pub fn get_position(&self) -> (position: (u64, u64))
        ensures
            position == self@.position,
    {
        self.stored.position
    }

    /// Stores whether the left button is down.
    pub fn set_left_click(&mut self, clicked: bool)
        ensures
            final(self)@ == (CursorSnapshot { left_down: clicked, ..old(self)@ }),
    {
        self.cells.left_click.store(clicked, Ordering::Relaxed);
        self.stored.left_down = clicked;
    }

    /// Stores whether the right button is down.
    pub fn set_right_click(&mut self, clicked: bool)
        ensures
            final(self)@ == (CursorSnapshot { right_down: clicked, ..old(self)@ }),
    {
        self.cells.right_click.store(clicked, Ordering::Relaxed);
        self.stored.right_down = clicked;
    }

    /// Whether the left button was down when last stored.
    pub fn get_left_click(&self) -> (clicked: bool)
        ensures
            clicked == self@.left_down,
    {
        self.stored.left_down
    }

    /// Whether the right button was down when last stored.
    pub fn get_right_click(&self) -> (clicked: bool)
        ensures
            clicked == self@.right_down,
    {
        self.stored.right_down
    }

    /// Everything that was stored last.
    pub fn snapshot(&self) -> (snapshot: CursorSnapshot)
        ensures
            snapshot == self@,
    {
        self.stored
    }

    /// A reading end on the same cells, for another thread.
    pub fn reader(&self) -> (reader: CursorStateReader)
        ensures
            reader.reads_from(self),
    {
        CursorStateReader { cells: Arc::clone(&self.cells) }
    }
}

impl CursorStateReader {
    /// Whether this reader loads from the very cells that `writer` stores
    /// into.
    pub closed spec fn reads_from(&self, writer: &AtomicCursorState) -> bool {
        self.cells == writer.cells
    }

    /// Loads the bit patterns of the position, x first.
    pub fn get_position(&self) -> (u64, u64) {
        let x = self.cells.position_x.load(Ordering::Relaxed);
        let y = self.cells.position_y.load(Ordering::Relaxed);
        (x, y)
    }

    /// Loads whether the left button is down.
    pub fn get_left_click(&self) -> bool {
        self.cells.left_click.load(Ordering::Relaxed)
    }

    /// Loads whether the right button is down.
    pub fn get_right_click(&self) -> bool {
        self.cells.right_click.load(Ordering::Relaxed)
    }

    /// Loads every field, one cell after the other.
    pub fn snapshot(&self) -> CursorSnapshot {
        let position = self.get_position();
        CursorSnapshot {
            position,
            left_down: self.get_left_click(),
            right_down: self.get_right_click(),
        }
    }
}

} // verus!
