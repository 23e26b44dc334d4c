use std::collections::VecDeque;
use vstd::prelude::*;
use crate::grid::{Arena, Coordinates, Direction, GameError, State};
use crate::keys::Key;
use crate::random::random_u16;

verus! {

/// How many random draws a respawn makes before it scans the interior.
pub const SPAWN_ATTEMPTS: u32 = 4096;

/// One game session: the snake, the food, the score and the arena.
pub struct Game {
    state: State,
    score: u64,
    head: Coordinates,
    tail: VecDeque<Coordinates>,
    food: Vec<Coordinates>,
    direction: Direction,
    size: Arena,
}

/// The mathematical value of a session. `body` runs from neck to tail end.
pub struct GameView {
    pub state: State,
    pub score: nat,
    pub head: Coordinates,
    pub body: Seq<Coordinates>,
    pub food: Seq<Coordinates>,
    pub direction: Direction,
    pub arena: Arena,
}

/// The predicate that keeps every cell but `cell`.
pub open spec fn other_than(cell: Coordinates) -> spec_fn(Coordinates) -> bool {
    |c: Coordinates| c != cell
}

impl GameView {
    /// A session as it starts: centred, heading up, nothing eaten.
    pub open spec fn fresh(arena: Arena) -> GameView {
        GameView {
            state: State::Running,
            score: 0,
            head: arena.center(),
            body: Seq::empty(),
            food: Seq::empty(),
            direction: Direction::Up,
            arena: arena,
        }
    }

    /// The cell holds the head or a body segment.
    pub open spec fn occupied(self, cell: Coordinates) -> bool {
        cell == self.head || self.body.contains(cell)
    }

    /// The cell lies inside the border and the snake is not on it.
    pub open spec fn free_cell(self, cell: Coordinates) -> bool {
        self.arena.interior(cell) && !self.occupied(cell)
    }

    /// Some interior cell is not covered by the snake.
    pub open spec fn has_free_cell(self) -> bool {
        exists|cell: Coordinates| #[trigger] self.free_cell(cell)
    }

    /// Head plus body segments.
    pub open spec fn length(self) -> nat {
        1 + self.body.len()
    }

    /// What holds of every session between two commands: the arena has an
    /// interior, and while the session runs the head is inside the border and
    /// off the body, there is at most one food item, it lies on a free cell,
    /// and the score counts the body segments.
    pub open spec fn wf(self) -> bool {
        &&& self.arena.playable()
        &&& self.state == State::Running ==> {
            &&& self.arena.interior(self.head)
            &&& !self.body.contains(self.head)
            &&& self.food.len() <= 1
            &&& forall|i: int| 0 <= i < self.food.len() ==> self.free_cell(#[trigger] self.food[i])
            &&& self.score == self.body.len()
        }
    }

    /// Movement: the old head becomes the neck and the head goes one cell on.
    pub open spec fn moved(self) -> GameView {
        GameView {
            head: self.head.stepped(self.direction),
            body: seq![self.head] + self.body,
            ..self
        }
    }

    /// The head lies on a body segment.
    pub open spec fn hits_tail(self) -> bool {
        self.body.contains(self.head)
    }

    /// The head lies on the arena's border.
    pub open spec fn hits_border(self) -> bool {
        self.arena.on_border(self.head)
    }

    /// The same session, ended.
    pub open spec fn ended(self) -> GameView {
        GameView { state: State::GameOver, ..self }
    }

    /// Food lies under the head.
    pub open spec fn eats(self) -> bool {
        self.food.contains(self.head)
    }

    /// Growth: on food the food under the head goes and the score rises by
    /// one; otherwise the tail-most segment is dropped.
    pub open spec fn fed(self) -> GameView {
        if self.eats() {
            GameView {
                food: self.food.filter(other_than(self.head)),
                score: self.score + 1,
                ..self
            }
        } else if self.body.len() > 0 {
            GameView { body: self.body.drop_last(), ..self }
        } else {
            self
        }
    }

    /// A tick up to, and without, the respawn of food.
    pub open spec fn advanced(self) -> GameView {
        if self.state == State::GameOver {
            self
        } else if self.moved().hits_tail() || self.moved().hits_border() {
            self.moved().ended()
        } else {
            self.moved().fed()
        }
    }

    /// The session with `cell` as its only food.
    pub open spec fn with_food(self, cell: Coordinates) -> GameView {
        GameView { food: seq![cell], ..self }
    }

    /// `after` is a legal outcome of a respawn on `self`: food that is there
    /// stays; an empty food set gets one free cell, whichever, as long as one
    /// exists.
    pub open spec fn refilled(self, after: GameView) -> bool {
        if self.food.len() > 0 {
            after == self
        } else if self.has_free_cell() {
            exists|cell: Coordinates| #[trigger] self.free_cell(cell) && after == self.with_food(cell)
        } else {
            after == self
        }
    }

    /// `after` is a legal outcome of one tick on `self`.
    pub open spec fn ticks_to(self, after: GameView) -> bool {
        if self.advanced().state == State::Running {
            self.advanced().refilled(after)
        } else {
            after == self.advanced()
        }
    }
}

impl View for Game {
    type V = GameView;

    closed spec fn view(&self) -> GameView {
        GameView {
            state: self.state,
            score: self.score as nat,
            head: self.head,
            body: self.tail@,
            food: self.food@,
            direction: self.direction,
            arena: self.size,
        }
    }
}

fn deque_contains(cells: &VecDeque<Coordinates>, cell: Coordinates) -> (found: bool)
    ensures
        found == cells@.contains(cell),
{
    let mut i: usize = 0;
    while i < cells.len()
        invariant
            i <= cells@.len(),
            forall|j: int| 0 <= j < i ==> cells@[j] != cell,
        decreases cells@.len() - i,
    {
        if cells[i] == cell {
            return true;
        }
        i += 1;
    }
    false
}

fn vec_contains(cells: &Vec<Coordinates>, cell: Coordinates) -> (found: bool)
    ensures
        found == cells@.contains(cell),
{
    let mut i: usize = 0;
    while i < cells.len()
        invariant
            i <= cells@.len(),
            forall|j: int| 0 <= j < i ==> cells@[j] != cell,
        decreases cells@.len() - i,
    {
        if cells[i] == cell {
            return true;
        }
        i += 1;
    }
    false
}

/// What is left of `cells` once every copy of `cell` is taken out.
fn without(cells: &Vec<Coordinates>, cell: Coordinates) -> (kept: Vec<Coordinates>)
    ensures
        kept@ == cells@.filter(other_than(cell)),
{
    let mut kept: Vec<Coordinates> = Vec::new();
    let mut i: usize = 0;
    proof {
        reveal(Seq::filter);
        assert(cells@.take(0) =~= Seq::<Coordinates>::empty());
    }
    while i < cells.len()
        invariant
            i <= cells@.len(),
            kept@ == cells@.take(i as int).filter(other_than(cell)),
        decreases cells@.len() - i,
    {
        let c = cells[i];
        proof {
            reveal(Seq::filter);
            assert(cells@.take(i + 1).drop_last() =~= cells@.take(i as int));
            assert(cells@.take(i + 1).last() == c);
        }
        if c != cell {
            kept.push(c);
        }
        i += 1;
    }
    proof {
        assert(cells@.take(cells@.len() as int) =~= cells@);
    }
    kept
}

/// Every cell that survives the removal of `cell` differs from it and was
/// there before.
pub proof fn lemma_filter_other_than(cells: Seq<Coordinates>, cell: Coordinates)
    ensures
        forall|i: int|
            0 <= i < cells.filter(other_than(cell)).len() ==> {
                &&& (#[trigger] cells.filter(other_than(cell))[i]) != cell
                &&& cells.contains(cells.filter(other_than(cell))[i])
            },
    decreases cells.len(),
{
    reveal(Seq::filter);
    if cells.len() > 0 {
        lemma_filter_other_than(cells.drop_last(), cell);
        let rest = cells.drop_last().filter(other_than(cell));
        assert forall|i: int| 0 <= i < cells.filter(other_than(cell)).len() implies {
            &&& (#[trigger] cells.filter(other_than(cell))[i]) != cell
            &&& cells.contains(cells.filter(other_than(cell))[i])
        } by {
            if i < rest.len() {
                let k = choose|k: int| 0 <= k < cells.drop_last().len() && cells.drop_last()[k] == rest[i];
                assert(cells[k] == rest[i]);
            } else {
                assert(cells[cells.len() - 1] == cells.last());
            }
        }
    }
}

impl Game {
    /// Starts a session in the middle of `arena`, heading up, with no body,
    /// no food and score 0. An arena without an interior is refused.
    pub fn new(arena: Arena) -> (made: Result<Game, GameError>)
        ensures
            made is Ok <==> arena.playable(),
            made is Err ==> made == Err::<Game, GameError>(GameError::ArenaTooSmall),
            made is Ok ==> made->Ok_0@ == GameView::fresh(arena),
            made is Ok ==> made->Ok_0@.wf(),
    {
        if arena.width < 3 || arena.height < 3 {
            return Err(GameError::ArenaTooSmall);
        }
        let middle = Coordinates { x: (arena.width - 2) / 2 + 1, y: (arena.height - 2) / 2 + 1 };
        let game = Game {
            state: State::Running,
            score: 0,
            head: middle,
            tail: VecDeque::new(),
            food: Vec::new(),
            direction: Direction::Up,
            size: arena,
        };
        Ok(game)
    }

    /// Has the session ended?
    pub fn over(&self) -> (ended: bool)
        ensures
            ended == (self@.state == State::GameOver),
    {
        match self.state {
            State::GameOver => true,
            State::Running => false,
        }
    }

    /// Replaces the direction of a running session; an ended one stays as it
    /// is.
    pub fn set_direction(&mut self, direction: Direction)
        ensures
            old(self)@.state == State::Running ==> final(self)@ == (GameView {
                direction: direction,
                ..old(self)@
            }),
            old(self)@.state == State::GameOver ==> final(self)@ == old(self)@,
            old(self)@.wf() ==> final(self)@.wf(),
    {
        match self.state {
            State::Running => {
                self.direction = direction;
            },
            State::GameOver => {},
        }
    }

    /// The direction that a key asks for, if it is an arrow key.
    pub open spec fn key_direction(key: Key) -> Option<Direction> {
        match key {
            Key::Up => Some(Direction::Up),
            Key::Down => Some(Direction::Down),
            Key::Left => Some(Direction::Left),
            Key::Right => Some(Direction::Right),
            _ => None,
        }
    }

    /// An arrow key sets the direction of a running session; any other key, and
    /// any key once the session has ended, changes nothing.
    pub fn handle_input(&mut self, key: Key)
        ensures
            final(self)@ == (GameView {
                direction: if old(self)@.state == State::Running && Self::key_direction(key) is Some {
                    Self::key_direction(key)->Some_0
                } else {
                    old(self)@.direction
                },
                ..old(self)@
            }),
            old(self)@.wf() ==> final(self)@.wf(),
    {
        match key {
            Key::Up => self.set_direction(Direction::Up),
            Key::Down => self.set_direction(Direction::Down),
            Key::Left => self.set_direction(Direction::Left),
            Key::Right => self.set_direction(Direction::Right),
            _ => {},
        }
    }

    /// Pushes the head onto the front of the body and moves it one cell in
    /// the current direction.
    pub fn handle_movement(&mut self)
        requires
            old(self)@.head.can_step(old(self)@.direction),
        ensures
            final(self)@ == old(self)@.moved(),
            final(self)@.body.len() <= usize::MAX,
    {
        self.tail.push_front(self.head);
        proof {
            assert(self.tail@.len() == self.tail.len());
        }
        match self.direction {
            Direction::Up => {
                self.head.y -= 1;
            },
            Direction::Down => {
                self.head.y += 1;
            },
            Direction::Left => {
                self.head.x -= 1;
            },
            Direction::Right => {
                self.head.x += 1;
            },
        }
    }

    /// Ends the session when the head lies on a body segment.
    pub fn handle_collision_tail(&mut self)
        ensures
            final(self)@ == if old(self)@.hits_tail() {
                old(self)@.ended()
            } else {
                old(self)@
            },
    {
        if deque_contains(&self.tail, self.head) {
            self.state = State::GameOver;
        }
    }

    /// Ends the session when the head lies on the arena's border.
    pub fn handle_collision_border(&mut self)
        requires
            old(self)@.arena.width >= 1,
            old(self)@.arena.height >= 1,
        ensures
            final(self)@ == if old(self)@.hits_border() {
                old(self)@.ended()
            } else {
                old(self)@
            },
    {
        if self.head.x == 0 || self.head.y == 0 || self.head.x == self.size.width - 1 || self.head.y
            == self.size.height - 1 {
            self.state = State::GameOver;
        }
    }

    /// Eats the food under the head, or else drops the tail-most segment.
    pub fn handle_collision_food(&mut self)
        requires
            old(self)@.score < u64::MAX,
        ensures
            final(self)@ == old(self)@.fed(),
    {
        if vec_contains(&self.food, self.head) {
            self.food = without(&self.food, self.head);
            self.score += 1;
        } else {
            let dropped = self.tail.pop_back();
            proof {
                if old(self)@.body.len() > 0 {
                    assert(self.tail@ =~= old(self)@.body.drop_last());
                }
            }
        }
    }
}


impl Game {
    /// Offers the cell that a pair of raw draws selects as food. It is taken
    /// when the food set is empty and the snake is not on that cell.
    pub fn place_food(&mut self, raw_x: u16, raw_y: u16) -> (placed: bool)
        requires
            old(self)@.arena.playable(),
        ensures
            placed == (old(self)@.food.len() == 0 && !old(self)@.occupied(
                old(self)@.arena.cell_for(raw_x, raw_y),
            )),
            final(self)@ == if placed {
                old(self)@.with_food(old(self)@.arena.cell_for(raw_x, raw_y))
            } else {
                old(self)@
            },
            old(self)@.wf() ==> final(self)@.wf(),
    {
        if self.food.len() > 0 {
            return false;
        }
        let candidate = Coordinates {
            x: raw_x % (self.size.width - 2) + 1,
            y: raw_y % (self.size.height - 2) + 1,
        };
        if deque_contains(&self.tail, candidate) || candidate == self.head {
            return false;
        }
        self.food.push(candidate);
        proof {
            assert(self.food@ =~= seq![candidate]);
        }
        true
    }

    /// Scans the interior row by row for a cell that the snake is not on.
    fn first_free(&self) -> (found: Option<Coordinates>)
        requires
            self@.arena.playable(),
        ensures
            found is Some ==> self@.free_cell(found->Some_0),
            found is None ==> !self@.has_free_cell(),
    {
        let mut y: u16 = 1;
        while y < self.size.height - 1
            invariant
                self@.arena.playable(),
                1 <= y <= self@.arena.height - 1,
                forall|c: Coordinates|
                    self@.arena.interior(c) && c.y < y ==> #[trigger] self@.occupied(c),
            decreases self@.arena.height - y,
        {
            let mut x: u16 = 1;
            while x < self.size.width - 1
                invariant
                    self@.arena.playable(),
                    1 <= y < self@.arena.height - 1,
                    1 <= x <= self@.arena.width - 1,
                    forall|c: Coordinates|
                        self@.arena.interior(c) && c.y < y ==> #[trigger] self@.occupied(c),
                    forall|c: Coordinates|
                        self@.arena.interior(c) && c.y == y && c.x < x ==> #[trigger] self@.occupied(
                            c,
                        ),
                decreases self@.arena.width - x,
            {
                let candidate = Coordinates { x, y };
                if !(deque_contains(&self.tail, candidate) || candidate == self.head) {
                    return Some(candidate);
                }
                x += 1;
            }
            y += 1;
        }
        proof {
            assert forall|c: Coordinates| !#[trigger] self@.free_cell(c) by {
                if self@.arena.interior(c) {
                    assert(self@.occupied(c));
                }
            }
        }
        None
    }

    /// Refills an empty food set with one free interior cell. Cells are drawn
    /// at random, each axis on its own, until one is free; after
    /// `SPAWN_ATTEMPTS` rejected draws the interior is scanned instead, so the
    /// food set stays empty only when the snake covers the whole interior.
    pub fn spawn_food(&mut self)
        requires
            old(self)@.arena.playable(),
        ensures
            old(self)@.refilled(final(self)@),
    {
        let ghost before = self@;
        let mut attempts: u32 = SPAWN_ATTEMPTS;
        while self.food.len() == 0 && attempts > 0
            invariant
                before.arena.playable(),
                before.food.len() > 0 ==> self@ == before,
                before.food.len() == 0 ==> self@ == before || exists|cell: Coordinates|
                    #[trigger] before.free_cell(cell) && self@ == before.with_food(cell),
            decreases attempts,
        {
            let raw_x = random_u16();
            let raw_y = random_u16();
            let placed = self.place_food(raw_x, raw_y);
            proof {
                if placed {
                    let cell = before.arena.cell_for(raw_x, raw_y);
                    assert(before.free_cell(cell));
                }
            }
            attempts -= 1;
        }
        if self.food.len() == 0 {
            match self.first_free() {
                Some(cell) => {
                    self.food.push(cell);
                    proof {
                        assert(self.food@ =~= seq![cell]);
                        assert(before.free_cell(cell));
                    }
                },
                None => {},
            }
        }
    }

    /// A tick up to the respawn of food. A running session moves, then ends
    /// if the head met the body or the border, else eats or trims. An ended
    /// session stays as it is.
    pub fn advance(&mut self)
        requires
            old(self)@.wf(),
        ensures
            final(self)@ == old(self)@.advanced(),
            final(self)@.wf(),
    {
        if self.over() {
            return ;
        }
        self.handle_movement();
        self.handle_collision_tail();
        if self.over() {
            return ;
        }
        self.handle_collision_border();
        if self.over() {
            return ;
        }
        self.handle_collision_food();
        proof {
            lemma_fed_keeps_order(old(self)@);
        }
    }

    /// One step of the game: `advance`, and then, while the session runs, the
    /// respawn of food.
    pub fn tick(&mut self)
        requires
            old(self)@.wf(),
        ensures
            old(self)@.ticks_to(final(self)@),
            final(self)@.wf(),
    {
        self.advance();
        if !self.over() {
            self.spawn_food();
        }
    }
}

/// After a tick without collision the session is in order again, whatever
/// the respawn then adds.
pub proof fn lemma_fed_keeps_order(before: GameView)
    requires
        before.wf(),
        before.state == State::Running,
        !before.moved().hits_tail(),
        !before.moved().hits_border(),
    ensures
        before.moved().fed().wf(),
{
    let m = before.moved();
    let f = m.fed();
    lemma_filter_other_than(m.food, m.head);
    assert forall|c: Coordinates| f.body.contains(c) implies m.body.contains(c) by {
        let k = choose|k: int| 0 <= k < f.body.len() && f.body[k] == c;
        assert(m.body[k] == c);
    }
    assert forall|c: Coordinates| m.body.contains(c) implies before.occupied(c) by {
        let k = choose|k: int| 0 <= k < m.body.len() && m.body[k] == c;
        if k > 0 {
            assert(before.body[k - 1] == c);
        }
    }
    m.food.lemma_filter_len(other_than(m.head));
    assert forall|i: int| 0 <= i < f.food.len() implies f.free_cell(#[trigger] f.food[i]) by {
        let c = f.food[i];
        assert(m.food.contains(c));
        let k = choose|k: int| 0 <= k < m.food.len() && m.food[k] == c;
        assert(before.free_cell(before.food[k]));
    }
}


/// What a renderer needs of a session, as plain values.
pub struct Snapshot {
    pub state: State,
    pub score: u64,
    pub head: Coordinates,
    pub body: Vec<Coordinates>,
    pub food: Vec<Coordinates>,
    pub arena: Arena,
}

impl Game {
    pub fn state(&self) -> (state: State)
        ensures
            state == self@.state,
    {
        self.state
    }

    pub fn score(&self) -> (score: u64)
        ensures
            score == self@.score,
    {
        self.score
    }

    pub fn head(&self) -> (head: Coordinates)
        ensures
            head == self@.head,
    {
        self.head
    }

    pub fn direction(&self) -> (direction: Direction)
        ensures
            direction == self@.direction,
    {
        self.direction
    }

    pub fn arena(&self) -> (arena: Arena)
        ensures
            arena == self@.arena,
    {
        self.size
    }

    /// The body segments, neck first.
    pub fn body(&self) -> (cells: Vec<Coordinates>)
        ensures
            cells@ == self@.body,
    {
        let mut cells: Vec<Coordinates> = Vec::new();
        let mut i: usize = 0;
        while i < self.tail.len()
            invariant
                i <= self.tail@.len(),
                cells@ == self.tail@.take(i as int),
            decreases self.tail@.len() - i,
        {
            cells.push(self.tail[i]);
            proof {
                assert(cells@ =~= self.tail@.take(i + 1));
            }
            i += 1;
        }
        proof {
            assert(self.tail@.take(self.tail@.len() as int) =~= self.tail@);
        }
        cells
    }

    /// The food cells, in the order in which they were placed.
    pub fn food(&self) -> (cells: Vec<Coordinates>)
        ensures
            cells@ == self@.food,
    {
        let mut cells: Vec<Coordinates> = Vec::new();
        let mut i: usize = 0;
        while i < self.food.len()
            invariant
                i <= self.food@.len(),
                cells@ == self.food@.take(i as int),
            decreases self.food@.len() - i,
        {
            cells.push(self.food[i]);
            proof {
                assert(cells@ =~= self.food@.take(i + 1));
            }
            i += 1;
        }
        proof {
            assert(self.food@.take(self.food@.len() as int) =~= self.food@);
        }
        cells
    }

    /// Tests at run time what `wf` states of the session.
    pub fn in_order(&self) -> (ok: bool)
        ensures
            ok == self@.wf(),
    {
        if self.size.width < 3 || self.size.height < 3 {
            return false;
        }
        if self.over() {
            return true;
        }
        let inside = 1 <= self.head.x && self.head.x <= self.size.width - 2 && 1 <= self.head.y
            && self.head.y <= self.size.height - 2;
        if !inside || deque_contains(&self.tail, self.head) {
            return false;
        }
        if self.food.len() > 1 {
            return false;
        }
        if self.food.len() == 1 {
            let cell = self.food[0];
            let cell_inside = 1 <= cell.x && cell.x <= self.size.width - 2 && 1 <= cell.y && cell.y
                <= self.size.height - 2;
            if !cell_inside || cell == self.head || deque_contains(&self.tail, cell) {
                proof {
                    assert(!self@.free_cell(self@.food[0]));
                }
                return false;
            }
        }
        let segments = self.tail.len();
        self.score == segments as u64
    }

    /// Everything a renderer draws, copied out of the session.
    pub fn snapshot(&self) -> (shot: Snapshot)
        ensures
            shot.state == self@.state,
            shot.score == self@.score,
            shot.head == self@.head,
            shot.body@ == self@.body,
            shot.food@ == self@.food,
            shot.arena == self@.arena,
    {
        Snapshot {
            state: self.state,
            score: self.score,
            head: self.head,
            body: self.body(),
            food: self.food(),
            arena: self.size,
        }
    }
}

} // verus!
