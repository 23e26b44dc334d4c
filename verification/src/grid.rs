use vstd::prelude::*;

verus! {

/// A cell of the grid: horizontal index `x`, vertical index `y`.
#[derive(Clone, Copy, PartialEq, Eq, Structural, Debug)]
pub struct Coordinates {
    pub x: u16,
    pub y: u16,
}

/// The direction in which the head moves on the next tick.
#[derive(Clone, Copy, PartialEq, Eq, Structural, Debug)]
pub enum Direction {
    Up,
    Down,
    Left,
    Right,
}

/// Whether a session still accepts ticks.
#[derive(Clone, Copy, PartialEq, Eq, Structural, Debug)]
pub enum State {
    Running,
    GameOver,
}

/// The rectangular play area, border cells included.
#[derive(Clone, Copy, PartialEq, Eq, Structural, Debug)]
pub struct Arena {
    pub width: u16,
    pub height: u16,
}

/// Why a session could not be created.
#[derive(Clone, Copy, PartialEq, Eq, Structural, Debug)]
pub enum GameError {
    /// The arena has no cell strictly inside its border.
    ArenaTooSmall,
}

impl Coordinates {
    /// True when one step in `direction` stays within `u16`.
    pub open spec fn can_step(self, direction: Direction) -> bool {
        match direction {
            Direction::Up => self.y > 0,
            Direction::Down => self.y < u16::MAX,
            Direction::Left => self.x > 0,
            Direction::Right => self.x < u16::MAX,
        }
    }

    /// The neighbouring cell one step away in `direction`.
    pub open spec fn stepped(self, direction: Direction) -> Coordinates {
        match direction {
            Direction::Up => Coordinates { x: self.x, y: (self.y - 1) as u16 },
            Direction::Down => Coordinates { x: self.x, y: (self.y + 1) as u16 },
            Direction::Left => Coordinates { x: (self.x - 1) as u16, y: self.y },
            Direction::Right => Coordinates { x: (self.x + 1) as u16, y: self.y },
        }
    }

    pub fn new(x: u16, y: u16) -> (cell: Coordinates)
        ensures
            cell.x == x,
            cell.y == y,
    {
        Coordinates { x, y }
    }
}

impl Arena {
    /// An arena is playable when at least one cell lies strictly inside the
    /// border.
    pub open spec fn playable(self) -> bool {
        self.width >= 3 && self.height >= 3
    }

    /// Cells strictly inside the border.
    pub open spec fn interior(self, cell: Coordinates) -> bool {
        1 <= cell.x && cell.x + 2 <= self.width && 1 <= cell.y && cell.y + 2 <= self.height
    }

    /// Cells on the outer border.
    pub open spec fn on_border(self, cell: Coordinates) -> bool {
        cell.x == 0 || cell.y == 0 || cell.x == self.width - 1 || cell.y == self.height - 1
    }

    /// The cell in the middle of the interior, where a new snake starts.
    pub open spec fn center(self) -> Coordinates {
        Coordinates {
            x: ((self.width - 2) / 2 + 1) as u16,
            y: ((self.height - 2) / 2 + 1) as u16,
        }
    }

    /// The interior cell that a pair of raw draws selects: each axis is
    /// reduced modulo the interior extent and shifted past the border.
    pub open spec fn cell_for(self, raw_x: u16, raw_y: u16) -> Coordinates {
        Coordinates {
            x: (raw_x as int % (self.width - 2) + 1) as u16,
            y: (raw_y as int % (self.height - 2) + 1) as u16,
        }
    }

    pub fn new(width: u16, height: u16) -> (arena: Arena)
        ensures
            arena.width == width,
            arena.height == height,
    {
        Arena { width, height }
    }

    /// Tells whether the arena has an interior.
    pub fn is_playable(&self) -> (ok: bool)
        ensures
            ok == self.playable(),
    {
        self.width >= 3 && self.height >= 3
    }
}

} // verus!
