use vstd::prelude::*;
use crate::input::Action;
use crate::render::{frame_text, home_text, render, render_home, render_teardown, teardown_text};
use crate::world::{coins_fit, draw_coins, Grid, World};

verus! {

/// What the terminal front end has to do after a tick.
#[derive(PartialEq, Eq, Debug)]
pub enum Output {
    /// Nothing to draw.
    Nothing,
    /// Draw this frame of the advanced world.
    Frame(String),
    /// Draw this idle screen.
    Home(String),
    /// Write this teardown sequence and stop.
    Quit(String),
}

/// Whether the session runs after `a` when it was running as given.
pub open spec fn next_running(running: bool, a: Action) -> bool {
    match a {
        Action::ToggleRun => !running,
        Action::GoHome => false,
        _ => running,
    }
}

/// The world after action `a` on `g`, before any advance: a randomize sets
/// every cell from `coins`; no other action touches the cells.
pub open spec fn world_after_action(g: Grid, a: Action, coins: Seq<Seq<bool>>) -> Grid {
    if a == Action::Randomize { Grid::from_coins(g.width, g.height, coins) } else { g }
}

/// `g` advanced one generation where `running`, else `g` itself.
pub open spec fn advanced_if(g: Grid, running: bool) -> Grid {
    if running { g.successor() } else { g }
}

/// The session: the world, whether it is running, and the terminal size.
pub struct Session {
    world: World,
    running: bool,
    width: usize,
    height: usize,
}

impl Session {
    pub closed spec fn world_view(&self) -> Grid {
        self.world@
    }

    pub closed spec fn running_view(&self) -> bool {
        self.running
    }

    pub closed spec fn width_view(&self) -> nat {
        self.width as nat
    }

    pub closed spec fn height_view(&self) -> nat {
        self.height as nat
    }

    pub closed spec fn wf(&self) -> bool {
        &&& self.world.wf()
        &&& self.world@.width == self.width
        &&& self.world@.height == self.height
        &&& self.height < u16::MAX
    }

    /// A session for a `width` by `height` terminal: the world is created,
    /// randomized once, and the session starts idle.
    pub fn new(width: usize, height: usize) -> (r: Session)
        requires
            height < u16::MAX,
        ensures
            r.wf(),
            !r.running_view(),
            r.width_view() == width,
            r.height_view() == height,
            r.world_view().width == width,
            r.world_view().height == height,
            exists|c: Seq<Seq<bool>>|
                coins_fit(c, width as nat, height as nat)
                && r.world_view() == #[trigger] Grid::from_coins(width as nat, height as nat, c),
    {
        let mut world = World::new(width, height);
        world.randomize();
        Session { world, running: false, width, height }
    }

    /// The idle screen for this session's terminal.
    pub fn home_screen(&self) -> (r: String)
        ensures
            r@ == home_text(self.width_view(), self.height_view()),
    {
        render_home(self.width, self.height)
    }

    pub fn is_running(&self) -> (r: bool)
        ensures
            r == self.running_view(),
    {
        self.running
    }

    pub fn world(&self) -> (r: &World)
        ensures
            r@ == self.world_view(),
            self.wf() ==> r.wf(),
    {
        &self.world
    }

    /// One tick with the coin draws given: applies `action` (a randomize
    /// sets every cell from `coins`), then, if running, advances the world
    /// one generation and draws it.
    pub fn tick_with_coins(&mut self, action: Action, coins: &Vec<Vec<bool>>) -> (out: Output)
        requires
            old(self).wf(),
            action == Action::Randomize ==> coins_fit(
                coins@.map_values(|row: Vec<bool>| row@),
                old(self).world_view().width,
                old(self).world_view().height,
            ),
        ensures
            final(self).wf(),
            final(self).width_view() == old(self).width_view(),
            final(self).height_view() == old(self).height_view(),
            final(self).world_view().width == old(self).world_view().width,
            final(self).world_view().height == old(self).world_view().height,
            action == Action::Quit ==> {
                &&& final(self).running_view() == old(self).running_view()
                &&& final(self).world_view() == old(self).world_view()
                &&& out matches Output::Quit(s) && s@ == teardown_text()
            },
            action != Action::Quit ==> final(self).running_view() == next_running(old(self).running_view(), action),
            action != Action::Quit ==> final(self).world_view() == advanced_if(
                world_after_action(old(self).world_view(), action, coins@.map_values(|row: Vec<bool>| row@)),
                final(self).running_view(),
            ),
            action != Action::Quit && final(self).running_view() ==> (out matches Output::Frame(s) && s@ == frame_text(final(self).world_view())),
            action == Action::GoHome ==> (out matches Output::Home(s) && s@ == home_text(old(self).width_view(), old(self).height_view())),
            action != Action::Quit && action != Action::GoHome && !final(self).running_view() ==> out == Output::Nothing,
    {
        match action {
            Action::Quit => {
                return Output::Quit(render_teardown());
            },
            Action::Randomize => self.world.fill_from_coins(coins),
            Action::ToggleRun => self.running = !self.running,
            Action::GoHome => self.running = false,
            Action::NoOp => {},
        }
        if self.running {
            let ghost before = self.world@;
            self.world.next_generation();
            assert(before.successor() == self.world@);
            Output::Frame(render(&self.world))
        } else if action == Action::GoHome {
            Output::Home(render_home(self.width, self.height))
        } else {
            Output::Nothing
        }
    }

    /// One tick: applies `action`, drawing a fair coin for every cell on a
    /// randomize, then, if running, advances the world one generation and
    /// draws it. Whatever the draws were, the outcome is that of
    /// `tick_with_coins` on some draw for each cell.
    pub fn tick(&mut self, action: Action) -> (out: Output)
        requires
            old(self).wf(),
        ensures
            final(self).wf(),
            final(self).width_view() == old(self).width_view(),
            final(self).height_view() == old(self).height_view(),
            final(self).world_view().width == old(self).world_view().width,
            final(self).world_view().height == old(self).world_view().height,
            action == Action::Quit ==> {
                &&& final(self).running_view() == old(self).running_view()
                &&& final(self).world_view() == old(self).world_view()
                &&& out matches Output::Quit(s) && s@ == teardown_text()
            },
            action != Action::Quit ==> final(self).running_view() == next_running(old(self).running_view(), action),
            action != Action::Quit && action != Action::Randomize ==> final(self).world_view() == advanced_if(
                old(self).world_view(),
                final(self).running_view(),
            ),
            action == Action::Randomize ==> exists|c: Seq<Seq<bool>>|
                coins_fit(c, old(self).world_view().width, old(self).world_view().height)
                && final(self).world_view() == advanced_if(
                    #[trigger] Grid::from_coins(old(self).world_view().width, old(self).world_view().height, c),
                    final(self).running_view(),
                ),
            action != Action::Quit && final(self).running_view() ==> (out matches Output::Frame(s) && s@ == frame_text(final(self).world_view())),
            action == Action::GoHome ==> (out matches Output::Home(s) && s@ == home_text(old(self).width_view(), old(self).height_view())),
            action != Action::Quit && action != Action::GoHome && !final(self).running_view() ==> out == Output::Nothing,
    {
        let coins = if action == Action::Randomize {
            draw_coins(self.width, self.height)
        } else {
            Vec::new()
        };
        self.tick_with_coins(action, &coins)
    }
}

} // verus!
