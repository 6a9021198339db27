//! The frontend of an automaton over a dense grid of fixed size.

use crate::engine::grid_size;
use crate::geometry::{Geometry, GeometryError, Layout, DEFAULT_CELL_MARGIN};
use crate::input::{after_key, apply_key, Key, RATE_STEP};
use crate::render::{dense_frame, grid_shaped, is_dense_frame, Color, Frame};
use crate::timer::{RepeatingTimer, TimerState, TimerView, DEFAULT_UPDATE_RATE};
use lifers::engine::generic::Automaton;
use vstd::prelude::*;

verus! {

/// The mathematical state of a [`RaylibFrontend`].
#[verifier::reject_recursive_types(S)]
#[verifier::reject_recursive_types(D)]
pub struct FrontendView<S, D> {
    /// The automaton that is shown.
    pub automaton: Automaton<S, D>,
    /// The timer that paces the generations.
    pub timer: TimerView,
    /// The layout of the grid in the window.
    pub layout: Layout,
}

/// The state of a frontend: the automaton, the timer that paces it and the
/// geometry of its grid in the window. The window itself is the caller's.
#[verifier::reject_recursive_types(S)]
#[verifier::reject_recursive_types(D)]
pub struct RaylibFrontend<S, D> {
    automaton: Automaton<S, D>,
    timer: RepeatingTimer,
    geometry: Geometry,
}

impl<S, D> View for RaylibFrontend<S, D> {
    type V = FrontendView<S, D>;

    closed spec fn view(&self) -> FrontendView<S, D> {
        FrontendView { automaton: self.automaton, timer: self.timer@, layout: self.geometry@ }
    }
}

impl<S, D> RaylibFrontend<S, D> {
    /// Whether `result` is what making a frontend comes to for an
    /// automaton whose grid has `grid` cells (columns, rows): a frontend
    /// with a new timer and the layout of that grid, or the reason why
    /// there is no such layout.
    pub open spec fn assembled(
        result: Result<Self, GeometryError>,
        automaton: Automaton<S, D>,
        grid: (usize, usize),
        update_rate: u128,
        cell_margin: u32,
        window_size: (u32, u32),
    ) -> bool {
        let layout = Layout::of(window_size, grid, cell_margin);
        match result {
            Ok(frontend) => {
                &&& layout.valid()
                &&& frontend@ == (FrontendView {
                    automaton,
                    timer: TimerView::fresh(update_rate as nat, frontend@.timer.origin),
                    layout,
                })
            },
            Err(GeometryError::EmptyGrid) => grid.0 == 0 || grid.1 == 0,
            Err(GeometryError::GridExceedsWindow) => grid.0 > 0 && grid.1 > 0 && !layout.valid(),
        }
    }

    /// Makes the frontend of `automaton`, whose grid has `grid` cells
    /// (columns, rows), for a window of `window_size` pixels. The timer
    /// starts with a period of `update_rate` nanoseconds.
    pub fn with_grid_size(
        automaton: Automaton<S, D>,
        grid: (usize, usize),
        update_rate: u128,
        cell_margin: u32,
        window_size: (u32, u32),
    ) -> (result: Result<Self, GeometryError>)
        ensures
            Self::assembled(result, automaton, grid, update_rate, cell_margin, window_size),
            result.is_ok() <==> Layout::of(window_size, grid, cell_margin).valid(),
    {
        match Geometry::new(window_size, grid, cell_margin) {
            Ok(geometry) => Ok(
                RaylibFrontend { automaton, timer: RepeatingTimer::new(update_rate), geometry },
            ),
            Err(error) => Err(error),
        }
    }

    /// Makes the frontend of `automaton` for a window of `window_size`
    /// pixels. The timer starts with a period of `update_rate`
    /// nanoseconds.
    ///
    /// The automaton says how large its grid is; the outcome is that of
    /// [`with_grid_size`](Self::with_grid_size) for that size.
    pub fn new(
        automaton: Automaton<S, D>,
        update_rate: u128,
        cell_margin: u32,
        window_size: (u32, u32),
    ) -> (result: Result<Self, GeometryError>)
        ensures
            exists|grid: (usize, usize)| #[trigger]
                Self::assembled(result, automaton, grid, update_rate, cell_margin, window_size),
            match result {
                Ok(frontend) => {
                    &&& frontend@.automaton == automaton
                    &&& frontend@.timer == TimerView::fresh(
                        update_rate as nat,
                        frontend@.timer.origin,
                    )
                    &&& frontend@.layout.valid()
                    &&& frontend@.layout.window_width == window_size.0
                    &&& frontend@.layout.window_height == window_size.1
                    &&& frontend@.layout.margin == cell_margin
                },
                Err(_) => true,
            },
            window_size.0 <= 2 * cell_margin || window_size.1 <= 2 * cell_margin
                ==> result.is_err(),
    {
        let grid = grid_size(&automaton);
        proof {
            if grid.0 >= 1 && grid.1 >= 1 {
                assert((grid.0 + 1) * cell_margin >= 2 * cell_margin) by (nonlinear_arith)
                    requires
                        grid.0 >= 1,
                ;
                assert((grid.1 + 1) * cell_margin >= 2 * cell_margin) by (nonlinear_arith)
                    requires
                        grid.1 >= 1,
                ;
            }
        }
        Self::with_grid_size(automaton, grid, update_rate, cell_margin, window_size)
    }

    /// Updates the timer with the current time and says whether the next
    /// generation is due: whether this update finished a cycle. The
    /// outcome is that of [`tick_at`](Self::tick_at) for the clock reading
    /// taken.
    pub fn tick(&mut self) -> (due: bool)
        ensures
            exists|now: nat|
                {
                    &&& final(self)@ == (FrontendView {
                        timer: #[trigger] old(self)@.timer.update_at(now),
                        ..old(self)@
                    })
                    &&& due <==> old(self)@.timer.update_state_at(now) == TimerState::Finished
                },
            old(self)@.timer.paused ==> !due,
    {
        let now = self.timer.read_clock();
        self.tick_at(now)
    }

    /// Updates the timer with the clock reading `now` and says whether the
    /// next generation is due: whether this update finished a cycle. The
    /// caller then asks the automaton for one generation, however long
    /// ago the cycle ended.
    pub fn tick_at(&mut self, now: u128) -> (due: bool)
        ensures
            final(self)@ == (FrontendView {
                timer: old(self)@.timer.update_at(now as nat),
                ..old(self)@
            }),
            due <==> old(self)@.timer.update_state_at(now as nat) == TimerState::Finished,
    {
        match self.timer.update_at(now) {
            TimerState::Finished => true,
            _ => false,
        }
    }

    /// Acts on the most recent key press of a frame, if there was one:
    /// space pauses or resumes, minus sets a period one step longer, equals
    /// one that is a step shorter. Setting a period starts the timer over.
    pub fn default_key_actions(&mut self, key: Option<Key>)
        ensures
            final(self)@ == (FrontendView {
                timer: after_key(old(self)@.timer, key, final(self)@.timer.origin),
                ..old(self)@
            }),
            key == Some(Key::Minus) && old(self)@.timer.period + RATE_STEP <= u128::MAX ==> {
                &&& final(self)@.timer.period == old(self)@.timer.period + RATE_STEP
                &&& final(self)@.timer.time_left == final(self)@.timer.period
            },
            key == Some(Key::Equal) && old(self)@.timer.period >= RATE_STEP ==> {
                &&& final(self)@.timer.period == old(self)@.timer.period - RATE_STEP
                &&& final(self)@.timer.time_left == final(self)@.timer.period
            },
    {
        apply_key(&mut self.timer, key);
    }

    /// Lays out the frame that shows the grid: the canvas colour, then
    /// every cell once, row by row, in the colour that `colors` gives for
    /// it (`colors[y][x]` for column `x` of row `y`).
    ///
    /// There is a frame exactly if `colors` has the shape of the grid.
    pub fn display_grid(&self, colors: &Vec<Vec<Color>>) -> (frame: Option<Frame>)
        ensures
            frame.is_some() <==> grid_shaped(colors@, self@.layout),
            match frame {
                Some(frame) => {
                    &&& frame.background == Color::gray()
                    &&& is_dense_frame(frame.cells@, self@.layout, colors@)
                    &&& frame.cells@.len() == self@.layout.cols * self@.layout.rows
                },
                None => true,
            },
    {
        dense_frame(&self.geometry, colors)
    }

    /// The automaton that is shown.
    pub fn automaton(&self) -> (automaton: &Automaton<S, D>)
        ensures
            *automaton == self@.automaton,
    {
        &self.automaton
    }

    /// The automaton that is shown, to compute its generations. Whatever
    /// the caller makes of it is the automaton of the frontend afterwards;
    /// the timer and the geometry stay as they are.
    pub fn automaton_mut(&mut self) -> (automaton: &mut Automaton<S, D>)
        ensures
            *automaton == old(self)@.automaton,
            final(self)@ == (FrontendView { automaton: *final(automaton), ..old(self)@ }),
    {
        &mut self.automaton
    }

    /// The timer that paces the generations.
    pub fn timer(&self) -> (timer: &RepeatingTimer)
        ensures
            timer@ == self@.timer,
    {
        &self.timer
    }

    /// The geometry of the grid in the window.
    pub fn geometry(&self) -> (geometry: &Geometry)
        ensures
            geometry@ == self@.layout,
    {
        &self.geometry
    }
}

/// What a [`FrontendBuilder`] has been told so far.
pub struct Settings {
    /// Size of the window in pixels (width, height).
    pub window_size: (u32, u32),
    /// Margin between and around cells in pixels.
    pub cell_margin: u32,
    /// Period of the timer in nanoseconds.
    pub update_rate: u128,
}

/// A helper to make a [`RaylibFrontend`] step by step.
pub struct FrontendBuilder {
    window_size: (u32, u32),
    cell_margin: u32,
    update_rate: u128,
}

impl View for FrontendBuilder {
    type V = Settings;

    closed spec fn view(&self) -> Settings {
        Settings {
            window_size: self.window_size,
            cell_margin: self.cell_margin,
            update_rate: self.update_rate,
        }
    }
}

impl FrontendBuilder {
    /// Creates a builder for a window of the given size, with the default
    /// margin and update rate.
    #[must_use]
    pub fn new(window_size: (u32, u32)) -> (builder: Self)
        ensures
            builder@ == (Settings {
                window_size,
                cell_margin: DEFAULT_CELL_MARGIN,
                update_rate: DEFAULT_UPDATE_RATE,
            }),
    {
        Self { window_size, cell_margin: DEFAULT_CELL_MARGIN, update_rate: DEFAULT_UPDATE_RATE }
    }

    /// Sets the cell margin in pixels.
    #[must_use]
    pub fn cell_margin(self, cell_margin: u32) -> (builder: Self)
        ensures
            builder@ == (Settings { cell_margin, ..self@ }),
    {
        Self { cell_margin, ..self }
    }

    /// Sets the update rate: the nanoseconds that pass from one
    /// generation to the next.
    #[must_use]
    pub fn update_rate(self, update_rate: u128) -> (builder: Self)
        ensures
            builder@ == (Settings { update_rate, ..self@ }),
    {
        Self { update_rate, ..self }
    }

    /// Makes the frontend of `automaton` with what the builder was told.
    /// The outcome is that of [`RaylibFrontend::new`].
    pub fn finish<S, D>(self, automaton: Automaton<S, D>) -> (result: Result<
        RaylibFrontend<S, D>,
        GeometryError,
    >)
        ensures
            exists|grid: (usize, usize)| #[trigger]
                RaylibFrontend::assembled(
                    result,
                    automaton,
                    grid,
                    self@.update_rate,
                    self@.cell_margin,
                    self@.window_size,
                ),
    {
        let result = RaylibFrontend::new(
            automaton,
            self.update_rate,
            self.cell_margin,
            self.window_size,
        );
        proof {
            let grid = choose|grid: (usize, usize)| #[trigger]
                RaylibFrontend::assembled(
                    result,
                    automaton,
                    grid,
                    self.update_rate,
                    self.cell_margin,
                    self.window_size,
                );
            assert(RaylibFrontend::assembled(
                result,
                automaton,
                grid,
                self@.update_rate,
                self@.cell_margin,
                self@.window_size,
            ));
        }
        result
    }
}

} // verus!
