//! The frontend of a life-like automaton: cells live at populated
//! positions of an unbounded grid, of which a bounding box is shown.

use crate::engine::is_finished;
use crate::geometry::{Geometry, GeometryError, Layout, DEFAULT_CELL_MARGIN};
use crate::input::{after_key, apply_key, Key, RATE_STEP};
use crate::render::{is_sparse_frame, sparse_frame, Color, Frame, PopulatedCell};
use crate::timer::{RepeatingTimer, TimerState, TimerView, DEFAULT_UPDATE_RATE};
use lifers::engine::life_like::Automaton;
use vstd::prelude::*;

verus! {

/// The mathematical state of a [`RaylibFrontend`].
#[verifier::reject_recursive_types(S)]
#[verifier::reject_recursive_types(D)]
pub struct FrontendView<S, D> {
    /// The automaton that is shown.
    pub automaton: Automaton<S, D>,
    /// The timer that paces the generations.
    pub timer: TimerView,
    /// The layout of the bounding box in the window.
    pub layout: Layout,
    /// The colour of the positions that hold no cell.
    pub default_color: Color,
}

/// The state of a frontend: the automaton, the timer that paces it, the
/// geometry of the bounding box in the window and the colour of empty
/// positions. The window itself is the caller's.
#[verifier::reject_recursive_types(S)]
#[verifier::reject_recursive_types(D)]
pub struct RaylibFrontend<S, D> {
    automaton: Automaton<S, D>,
    timer: RepeatingTimer,
    geometry: Geometry,
    default_color: Color,
}

impl<S, D> View for RaylibFrontend<S, D> {
    type V = FrontendView<S, D>;

    closed spec fn view(&self) -> FrontendView<S, D> {
        FrontendView {
            automaton: self.automaton,
            timer: self.timer@,
            layout: self.geometry@,
            default_color: self.default_color,
        }
    }
}

impl<S, D> RaylibFrontend<S, D> {
    /// Whether `result` is what making a frontend comes to: a frontend
    /// with a new timer and the layout of the bounding box, or the reason
    /// why there is no such layout.
    pub open spec fn assembled(
        result: Result<Self, GeometryError>,
        automaton: Automaton<S, D>,
        init_grid_size: (usize, usize),
        default_color: Color,
        update_rate: u128,
        cell_margin: u32,
        window_size: (u32, u32),
    ) -> bool {
        let layout = Layout::of(window_size, init_grid_size, cell_margin);
        match result {
            Ok(frontend) => {
                &&& layout.valid()
                &&& frontend@ == (FrontendView {
                    automaton,
                    timer: TimerView::fresh(update_rate as nat, frontend@.timer.origin),
                    layout,
                    default_color,
                })
            },
            Err(GeometryError::EmptyGrid) => init_grid_size.0 == 0 || init_grid_size.1 == 0,
            Err(GeometryError::GridExceedsWindow) => init_grid_size.0 > 0 && init_grid_size.1 > 0
                && !layout.valid(),
        }
    }

    /// Makes the frontend of `automaton` for a window of `window_size`
    /// pixels that shows a bounding box of `init_grid_size` cells
    /// (columns, rows). Positions without a cell are drawn in
    /// `default_color`. The timer starts with a period of `update_rate`
    /// nanoseconds.
    pub fn new(
        automaton: Automaton<S, D>,
        init_grid_size: (usize, usize),
        default_color: Color,
        update_rate: u128,
        cell_margin: u32,
        window_size: (u32, u32),
    ) -> (result: Result<Self, GeometryError>)
        ensures
            Self::assembled(
                result,
                automaton,
                init_grid_size,
                default_color,
                update_rate,
                cell_margin,
                window_size,
            ),
            result.is_ok() <==> Layout::of(window_size, init_grid_size, cell_margin).valid(),
    {
        match Geometry::new(window_size, init_grid_size, cell_margin) {
            Ok(geometry) => Ok(
                RaylibFrontend {
                    automaton,
                    timer: RepeatingTimer::new(update_rate),
                    geometry,
                    default_color,
                },
            ),
            Err(error) => Err(error),
        }
    }

    /// Shows another bounding box of `grid_size` cells (columns, rows) in
    /// the same window: the geometry is computed anew. Where there is no
    /// layout for that box, the frontend stays as it is.
    pub fn set_grid_size(&mut self, grid_size: (usize, usize)) -> (result: Result<
        (),
        GeometryError,
    >)
        ensures
            result.is_ok() <==> old(self)@.layout.resized(grid_size).valid(),
            match result {
                Ok(_) => final(self)@ == (FrontendView {
                    layout: old(self)@.layout.resized(grid_size),
                    ..old(self)@
                }),
                Err(error) => {
                    &&& final(self)@ == old(self)@
                    &&& error == GeometryError::EmptyGrid <==> grid_size.0 == 0 || grid_size.1 == 0
                },
            },
    {
        let window_size = self.geometry.window_size();
        let cell_margin = self.geometry.cell_margin();
        match Geometry::new(window_size, grid_size, cell_margin) {
            Ok(geometry) => {
                self.geometry = geometry;
                Ok(())
            },
            Err(error) => Err(error),
        }
    }

    /// Whether the event loop is to end, given whether the automaton has
    /// `finished` and whether the window is `window_closing`.
    pub fn should_close(finished: bool, window_closing: bool) -> (close: bool)
        ensures
            close == (finished || window_closing),
    {
        finished || window_closing
    }

    /// Whether the event loop is to end: the window is closing, or the
    /// automaton says that it has finished.
    pub fn window_should_close(&self, window_closing: bool) -> (close: bool)
        ensures
            window_closing ==> close,
    {
        Self::should_close(is_finished(&self.automaton), window_closing)
    }

    /// Updates the timer with the current time and says whether the next
    /// generation is due: whether this update finished a cycle. The
    /// outcome is that of [`tick_at`](Self::tick_at) for the clock reading
    /// taken.
    pub fn tick(&mut self) -> (due: bool)
        ensures
            exists|now: nat|
                {
                    &&& final(self)@ == (FrontendView {
                        timer: #[trigger] old(self)@.timer.update_at(now),
                        ..old(self)@
                    })
                    &&& due <==> old(self)@.timer.update_state_at(now) == TimerState::Finished
                },
            old(self)@.timer.paused ==> !due,
    {
        let now = self.timer.read_clock();
        self.tick_at(now)
    }

    /// Updates the timer with the clock reading `now` and says whether the
    /// next generation is due: whether this update finished a cycle. The
    /// caller then asks the automaton for one generation, however long
    /// ago the cycle ended.
    pub fn tick_at(&mut self, now: u128) -> (due: bool)
        ensures
            final(self)@ == (FrontendView {
                timer: old(self)@.timer.update_at(now as nat),
                ..old(self)@
            }),
            due <==> old(self)@.timer.update_state_at(now as nat) == TimerState::Finished,
    {
        match self.timer.update_at(now) {
            TimerState::Finished => true,
            _ => false,
        }
    }

    /// Acts on the most recent key press of a frame, if there was one:
    /// space pauses or resumes, minus sets a period one step longer, equals
    /// one that is a step shorter. Setting a period starts the timer over.
    pub fn default_key_actions(&mut self, key: Option<Key>)
        ensures
            final(self)@ == (FrontendView {
                timer: after_key(old(self)@.timer, key, final(self)@.timer.origin),
                ..old(self)@
            }),
            key == Some(Key::Minus) && old(self)@.timer.period + RATE_STEP <= u128::MAX ==> {
                &&& final(self)@.timer.period == old(self)@.timer.period + RATE_STEP
                &&& final(self)@.timer.time_left == final(self)@.timer.period
            },
            key == Some(Key::Equal) && old(self)@.timer.period >= RATE_STEP ==> {
                &&& final(self)@.timer.period == old(self)@.timer.period - RATE_STEP
                &&& final(self)@.timer.time_left == final(self)@.timer.period
            },
    {
        apply_key(&mut self.timer, key);
    }

    /// Lays out the frame that shows the bounding box: the canvas colour,
    /// then every position once, column by column. A position that
    /// `populated` lists is drawn in its colour, every other position in
    /// the default colour.
    pub fn display_grid(&self, populated: &Vec<PopulatedCell>) -> (frame: Frame)
        ensures
            frame.background == Color::gray(),
            is_sparse_frame(frame.cells@, self@.layout, populated@, self@.default_color),
            frame.cells@.len() == self@.layout.cols * self@.layout.rows,
    {
        sparse_frame(&self.geometry, populated, self.default_color)
    }

    /// The automaton that is shown.
    pub fn automaton(&self) -> (automaton: &Automaton<S, D>)
        ensures
            *automaton == self@.automaton,
    {
        &self.automaton
    }

    /// The automaton that is shown, to compute its generations. Whatever
    /// the caller makes of it is the automaton of the frontend afterwards;
    /// the timer and the geometry stay as they are.
    pub fn automaton_mut(&mut self) -> (automaton: &mut Automaton<S, D>)
        ensures
            *automaton == old(self)@.automaton,
            final(self)@ == (FrontendView { automaton: *final(automaton), ..old(self)@ }),
    {
        &mut self.automaton
    }

    /// The timer that paces the generations.
    pub fn timer(&self) -> (timer: &RepeatingTimer)
        ensures
            timer@ == self@.timer,
    {
        &self.timer
    }

    /// The geometry of the bounding box in the window.
    pub fn geometry(&self) -> (geometry: &Geometry)
        ensures
            geometry@ == self@.layout,
    {
        &self.geometry
    }

    /// The colour of the positions that hold no cell.
    pub fn default_color(&self) -> (color: Color)
        ensures
            color == self@.default_color,
    {
        self.default_color
    }
}

/// What a [`FrontendBuilder`] has been told so far.
pub struct Settings {
    /// Size of the window in pixels (width, height).
    pub window_size: (u32, u32),
    /// Margin between and around cells in pixels.
    pub cell_margin: u32,
    /// Period of the timer in nanoseconds.
    pub update_rate: u128,
    /// The bounding box to show (columns, rows).
    pub init_grid_size: (usize, usize),
    /// The colour of the positions that hold no cell.
    pub default_color: Color,
}

impl Settings {
    /// A window of 1024 by 768 pixels that shows 10 by 10 positions, empty
    /// ones in black, with the default margin and update rate.
    pub open spec fn initial() -> Settings {
        Settings {
            window_size: (1024, 768),
            cell_margin: DEFAULT_CELL_MARGIN,
            update_rate: DEFAULT_UPDATE_RATE,
            init_grid_size: (10, 10),
            default_color: Color::black(),
        }
    }
}

/// A helper to make a [`RaylibFrontend`] step by step.
pub struct FrontendBuilder {
    window_size: (u32, u32),
    cell_margin: u32,
    update_rate: u128,
    init_grid_size: (usize, usize),
    default_color: Color,
}

impl View for FrontendBuilder {
    type V = Settings;

    closed spec fn view(&self) -> Settings {
        Settings {
            window_size: self.window_size,
            cell_margin: self.cell_margin,
            update_rate: self.update_rate,
            init_grid_size: self.init_grid_size,
            default_color: self.default_color,
        }
    }
}

impl Default for FrontendBuilder {
    fn default() -> (builder: Self)
        ensures
            builder@ == Settings::initial(),
    {
        Self {
            window_size: (1024, 768),
            cell_margin: DEFAULT_CELL_MARGIN,
            update_rate: DEFAULT_UPDATE_RATE,
            init_grid_size: (10, 10),
            default_color: Color::black(),
        }
    }
}

impl FrontendBuilder {
    /// Sets the window size in pixels (width, height).
    pub fn window_size(self, window_size: (u32, u32)) -> (builder: Self)
        ensures
            builder@ == (Settings { window_size, ..self@ }),
    {
        Self { window_size, ..self }
    }

    /// Sets the cell margin in pixels.
    #[must_use]
    pub fn cell_margin(self, cell_margin: u32) -> (builder: Self)
        ensures
            builder@ == (Settings { cell_margin, ..self@ }),
    {
        Self { cell_margin, ..self }
    }

    /// Sets the update rate: the nanoseconds that pass from one
    /// generation to the next.
    #[must_use]
    pub fn update_rate(self, update_rate: u128) -> (builder: Self)
        ensures
            builder@ == (Settings { update_rate, ..self@ }),
    {
        Self { update_rate, ..self }
    }

    /// Sets the bounding box to show (columns, rows).
    pub fn grid_size(self, init_grid_size: (usize, usize)) -> (builder: Self)
        ensures
            builder@ == (Settings { init_grid_size, ..self@ }),
    {
        Self { init_grid_size, ..self }
    }

    /// Sets the colour of the positions that hold no cell.
    pub fn default_color(self, default_color: Color) -> (builder: Self)
        ensures
            builder@ == (Settings { default_color, ..self@ }),
    {
        Self { default_color, ..self }
    }

    /// Makes the frontend of `automaton` with what the builder was told.
    pub fn finish<S, D>(self, automaton: Automaton<S, D>) -> (result: Result<
        RaylibFrontend<S, D>,
        GeometryError,
    >)
        ensures
            RaylibFrontend::assembled(
                result,
                automaton,
                self@.init_grid_size,
                self@.default_color,
                self@.update_rate,
                self@.cell_margin,
                self@.window_size,
            ),
            result.is_ok() <==> Layout::of(
                self@.window_size,
                self@.init_grid_size,
                self@.cell_margin,
            ).valid(),
    {
        RaylibFrontend::new(
            automaton,
            self.init_grid_size,
            self.default_color,
            self.update_rate,
            self.cell_margin,
            self.window_size,
        )
    }
}

} // verus!
