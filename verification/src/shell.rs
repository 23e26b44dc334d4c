use vstd::prelude::*;
use crate::game::{Game, GameView};
use crate::grid::{Arena, Direction, State};
use crate::keys::{Key, KeyPress};

verus! {

/// The application around at most one session: it remembers the viewport,
/// starts a session on demand and hands ticks and arrow keys on to it.
pub struct App {
    pub running: bool,
    size: Option<Arena>,
    game: Option<Game>,
}

/// The mathematical value of the application.
pub struct AppView {
    pub running: bool,
    pub size: Option<Arena>,
    pub game: Option<GameView>,
}

impl AppView {
    /// The session, if there is one, is in order.
    pub open spec fn wf(self) -> bool {
        self.game is Some ==> self.game->Some_0.wf()
    }

    /// No session is being played: none exists, or the one that does has
    /// ended.
    pub open spec fn idle(self) -> bool {
        self.game is None || self.game->Some_0.state == State::GameOver
    }

    pub open spec fn stopped(self) -> AppView {
        AppView { running: false, ..self }
    }

    /// The application after an arrow key that asks for `direction`.
    pub open spec fn steered(self, direction: Direction) -> AppView {
        match self.game {
            Some(game) => if game.state == State::Running {
                AppView { game: Some(GameView { direction: direction, ..game }), ..self }
            } else {
                self
            },
            None => self,
        }
    }

    /// The application after the start key: an idle application whose viewport
    /// has an interior gets a fresh session.
    pub open spec fn started(self) -> AppView {
        if self.size is Some && self.idle() && self.size->Some_0.playable() {
            AppView { game: Some(GameView::fresh(self.size->Some_0)), ..self }
        } else {
            self
        }
    }

    /// The application after a key press. Until the viewport is known every
    /// key is passed over.
    pub open spec fn keyed(self, press: KeyPress) -> AppView {
        if self.size is None {
            self
        } else {
            match press.key {
                Key::Esc => self.stopped(),
                Key::Char(c) => if c == 'q' {
                    self.stopped()
                } else if c == 'c' || c == 'C' {
                    if press.control {
                        self.stopped()
                    } else {
                        self
                    }
                } else if c == ' ' {
                    self.started()
                } else {
                    self
                },
                Key::Up => self.steered(Direction::Up),
                Key::Down => self.steered(Direction::Down),
                Key::Left => self.steered(Direction::Left),
                Key::Right => self.steered(Direction::Right),
                Key::Other => self,
            }
        }
    }

    /// `after` is a legal outcome of one tick pulse: a session, if there is
    /// one, takes a tick, and nothing else changes.
    pub open spec fn ticks_to(self, after: AppView) -> bool {
        &&& after.running == self.running
        &&& after.size == self.size
        &&& match self.game {
            Some(game) => after.game is Some && game.ticks_to(after.game->Some_0),
            None => after.game is None,
        }
    }
}

impl View for App {
    type V = AppView;

    closed spec fn view(&self) -> AppView {
        AppView {
            running: self.running,
            size: self.size,
            game: match self.game {
                Some(game) => Some(game@),
                None => None,
            },
        }
    }
}

impl App {
    /// A running application that knows no viewport and holds no session.
    pub fn new() -> (app: App)
        ensures
            app@ == (AppView { running: true, size: None, game: None }),
            app@.wf(),
    {
        App { running: true, size: None, game: None }
    }

    /// Hands one tick pulse to the session, if there is one.
    pub fn tick(&mut self)
        requires
            old(self)@.wf(),
        ensures
            old(self)@.ticks_to(final(self)@),
            final(self)@.wf(),
    {
        let held = self.game.take();
        match held {
            Some(mut game) => {
                if !game.over() {
                    game.tick();
                }
                self.game = Some(game);
            },
            None => {},
        }
    }

    /// Asks the application to stop.
    pub fn quit(&mut self)
        ensures
            final(self)@ == old(self)@.stopped(),
    {
        self.running = false;
    }

    /// Forgets the viewport and the session: the next frame measures anew.
    pub fn handle_resize(&mut self)
        ensures
            final(self)@ == (AppView { running: old(self)@.running, size: None, game: None }),
            final(self)@.wf(),
    {
        self.size = None;
        self.game = None;
    }

    /// Records the viewport that a frame was drawn on, unless one is known
    /// already.
    pub fn observe_size(&mut self, viewport: Arena)
        ensures
            final(self)@ == (AppView {
                size: if old(self)@.size is None {
                    Some(viewport)
                } else {
                    old(self)@.size
                },
                ..old(self)@
            }),
    {
        if self.size.is_none() {
            self.size = Some(viewport);
        }
    }

    /// Acts on a key press: Esc, `q` and Control-C stop the application,
    /// space starts a session when none is being played, and the arrow keys
    /// steer the session.
    pub fn handle_input(&mut self, press: KeyPress)
        ensures
            final(self)@ == old(self)@.keyed(press),
            old(self)@.wf() ==> final(self)@.wf(),
    {
        let viewport = match self.size {
            Some(arena) => arena,
            None => {
                return ;
            },
        };
        match press.key {
            Key::Esc => self.quit(),
            Key::Char(c) => {
                if c == 'q' {
                    self.quit();
                } else if c == 'c' || c == 'C' {
                    if press.control {
                        self.quit();
                    }
                } else if c == ' ' {
                    if self.wants_prompt() {
                        match Game::new(viewport) {
                            Ok(game) => {
                                self.game = Some(game);
                            },
                            Err(_) => {},
                        }
                    }
                }
            },
            Key::Up | Key::Down | Key::Left | Key::Right => {
                let held = self.game.take();
                match held {
                    Some(mut game) => {
                        game.handle_input(press.key);
                        self.game = Some(game);
                    },
                    None => {},
                }
            },
            Key::Other => {},
        }
    }

    /// True when no session is being played, so that the start prompt is due.
    pub fn wants_prompt(&self) -> (idle: bool)
        ensures
            idle == self@.idle(),
    {
        match &self.game {
            Some(game) => game.over(),
            None => true,
        }
    }

    /// Tests at run time what `wf` states of the application.
    pub fn in_order(&self) -> (ok: bool)
        ensures
            ok == self@.wf(),
    {
        match &self.game {
            Some(game) => game.in_order(),
            None => true,
        }
    }

    /// The viewport, once a frame has been measured.
    pub fn size(&self) -> (size: Option<Arena>)
        ensures
            size == self@.size,
    {
        self.size
    }

    /// The session, if there is one.
    pub fn game(&self) -> (game: Option<&Game>)
        ensures
            game is Some <==> self@.game is Some,
            game is Some ==> game->Some_0@ == self@.game->Some_0,
    {
        self.game.as_ref()
    }
}

} // verus!
