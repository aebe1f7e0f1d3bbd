use vstd::prelude::*;
use crate::component::{Component, InitError, Line, Rect};
use crate::dispatch::{outcome_of, settle, step, Outcome, CHAIN_LIMIT};
use crate::event::{Event, EventHandler, Stream};
use crate::home::Home;
use crate::tui::{screen, setup_error, Display, Entered, Restore, SetupError, Tui};

verus! {

/// The two states of the loop. There is no way back from `Stopped`.
#[derive(Clone, Copy, Debug, PartialEq, Eq, Structural)]
pub enum Phase {
    Running,
    Stopped,
}

/// Why a call of `run` came back.
#[derive(Clone, Copy, Debug, PartialEq, Eq, Structural)]
pub enum Status {
    /// The current state is drawn and no event waits: the caller has to
    /// wait for a producer and call again.
    Suspended,
    /// The loop has ended in good order.
    Stopped,
    /// A chain of actions reached the limit; the loop has ended in failure.
    ChainOverflow,
}

/// What one call of `run` did.
#[derive(Clone, Copy, Debug, PartialEq, Eq, Structural)]
pub struct Report {
    /// How many events were taken from the stream.
    pub events: usize,
    /// How many times the component was drawn.
    pub renders: usize,
    pub status: Status,
}

/// The fatal failures of the application.
#[derive(Clone, Copy, Debug, PartialEq, Eq, Structural)]
pub enum AppError {
    /// The terminal could not be switched to interactive mode.
    Setup(SetupError),
    /// The root component could not be set up; the terminal had been
    /// switched and the second field says what to undo.
    Init(InitError, Restore),
    /// The host could not draw the frame on the terminal.
    Render,
    /// The host could not give the terminal back.
    Teardown,
    /// A chain of actions reached the limit.
    ChainOverflow,
}

/// The exit code of a clean stop.
pub const EXIT_SUCCESS: i32 = 0;

/// The exit code of every fatal failure.
pub const EXIT_FAILURE: i32 = 1;

/// The process exit code that a status calls for, if it ends the process.
pub open spec fn exit_code_of(status: Status) -> Option<i32> {
    match status {
        Status::Suspended => None,
        Status::Stopped => Some(EXIT_SUCCESS),
        Status::ChainOverflow => Some(EXIT_FAILURE),
    }
}

/// What a status means for the process: nothing yet, a clean end, or a
/// fatal failure.
pub open spec fn verdict_of(status: Status) -> Option<Result<(), AppError>> {
    match status {
        Status::Suspended => None,
        Status::Stopped => Some(Ok(())),
        Status::ChainOverflow => Some(Err(AppError::ChainOverflow)),
    }
}

/// The process exit code for the way the application ended: zero for a
/// clean stop, one for every failure.
pub fn exit_status(ended: Result<(), AppError>) -> (code: i32)
    ensures
        code == if ended.is_ok() {
            EXIT_SUCCESS
        } else {
            EXIT_FAILURE
        },
{
    match ended {
        Ok(()) => EXIT_SUCCESS,
        Err(_) => EXIT_FAILURE,
    }
}

impl Report {
    /// Whether this report ends the application, and how.
    pub fn verdict(&self) -> (v: Option<Result<(), AppError>>)
        ensures
            v == verdict_of(self.status),
    {
        match self.status {
            Status::Suspended => None,
            Status::Stopped => Some(Ok(())),
            Status::ChainOverflow => Some(Err(AppError::ChainOverflow)),
        }
    }

    /// The process exit code that this report calls for: none while the
    /// loop only waits, zero after a clean stop, one after a failure.
    pub fn exit_code(&self) -> (code: Option<i32>)
        ensures
            code == exit_code_of(self.status),
    {
        match self.status {
            Status::Suspended => None,
            Status::Stopped => Some(EXIT_SUCCESS),
            Status::ChainOverflow => Some(EXIT_FAILURE),
        }
    }
}

/// What the loop works on, apart from the stream: the component, the screen
/// area, the frame buffer, and whether the buffer shows the current state.
pub struct Model<C> {
    pub component: C,
    pub area: Rect,
    pub frame: Seq<Line>,
    pub rendered: bool,
}

impl<C: Component> Model<C> {
    /// How many renders are owed before the next event may be taken.
    pub open spec fn owed_renders(self) -> nat {
        if self.rendered {
            0
        } else {
            1
        }
    }

    /// The model once the current state is drawn.
    pub open spec fn painted(self) -> Model<C> {
        if self.rendered {
            self
        } else {
            Model { frame: self.component.drawn(self.area), rendered: true, ..self }
        }
    }

    /// The model after one dispatch round for `event`: a resize sets the
    /// area, the chain is resolved, and the buffer is out of date.
    pub open spec fn took(self, event: Event, limit: nat) -> Model<C> {
        Model {
            component: settle(self.component, event, limit).component,
            area: match event {
                Event::Resize(width, height) => screen(width, height),
                _ => self.area,
            },
            frame: self.frame,
            rendered: false,
        }
    }
}

/// The course of the loop over the events that can be had without waiting.
pub struct Trace<C> {
    /// The model at the point where the loop came to rest.
    pub model: Model<C>,
    /// How many events were taken.
    pub events: nat,
    /// How many renders were made.
    pub renders: nat,
    pub status: Status,
}

/// The loop itself: draw if the buffer is out of date, take the next event,
/// run its dispatch round, and go on unless the round ended the loop. It
/// rests, drawn, where no event is left.
pub open spec fn play<C: Component>(model: Model<C>, feed: Seq<Event>, limit: nat) -> Trace<C>
    decreases feed.len(),
{
    let painted = model.painted();
    if feed.len() == 0 {
        Trace { model: painted, events: 0, renders: model.owed_renders(), status: Status::Suspended }
    } else {
        let event = feed[0];
        let after = painted.took(event, limit);
        match outcome_of(settle(painted.component, event, limit), event) {
            Outcome::Continue => {
                let rest = play(after, feed.skip(1), limit);
                Trace {
                    model: rest.model,
                    events: rest.events + 1,
                    renders: rest.renders + model.owed_renders(),
                    status: rest.status,
                }
            },
            Outcome::Stopped => Trace {
                model: after,
                events: 1,
                renders: model.owed_renders(),
                status: Status::Stopped,
            },
            Outcome::ChainOverflow => Trace {
                model: after,
                events: 1,
                renders: model.owed_renders(),
                status: Status::ChainOverflow,
            },
        }
    }
}

/// Every event is preceded by exactly one render. A loop that comes to rest
/// waiting has taken every event and has drawn once per event, and once
/// more unless it started out drawn; a loop that ended has not drawn after
/// its last event.
pub proof fn renders_follow_events<C: Component>(model: Model<C>, feed: Seq<Event>, limit: nat)
    ensures
        play(model, feed, limit).events <= feed.len(),
        play(model, feed, limit).status == Status::Suspended ==> play(model, feed, limit).events
            == feed.len() && play(model, feed, limit).renders == feed.len() + model.owed_renders(),
        play(model, feed, limit).status != Status::Suspended ==> play(model, feed, limit).events
            >= 1 && play(model, feed, limit).renders + 1 == play(model, feed, limit).events
            + model.owed_renders(),
    decreases feed.len(),
{
    if feed.len() > 0 {
        let after = model.painted().took(feed[0], limit);
        renders_follow_events(after, feed.skip(1), limit);
    }
}

/// Started from a state that is not yet drawn, a loop that takes `n` events
/// and then waits has drawn `n + 1` times.
pub proof fn one_render_more_than_events<C: Component>(
    model: Model<C>,
    feed: Seq<Event>,
    limit: nat,
)
    requires
        !model.rendered,
        play(model, feed, limit).status == Status::Suspended,
    ensures
        play(model, feed, limit).events == feed.len(),
        play(model, feed, limit).renders == feed.len() + 1,
{
    renders_follow_events(model, feed, limit);
}

/// A `Quit` event ends the loop: nothing behind it is taken, nothing is
/// drawn after it, and unless a chain overflowed the exit code is zero.
pub proof fn quit_ends_the_loop<C: Component>(
    model: Model<C>,
    feed: Seq<Event>,
    limit: nat,
    at: int,
)
    requires
        0 <= at < feed.len(),
        feed[at] == Event::Quit,
    ensures
        play(model, feed, limit).status != Status::Suspended,
        play(model, feed, limit).events <= at + 1,
        play(model, feed, limit).renders <= at + model.owed_renders(),
        play(model, feed, limit).status != Status::ChainOverflow ==> exit_code_of(
            play(model, feed, limit).status,
        ) == Some(EXIT_SUCCESS),
    decreases feed.len(),
{
    renders_follow_events(model, feed, limit);
    if at > 0 {
        let after = model.painted().took(feed[0], limit);
        quit_ends_the_loop(after, feed.skip(1), limit, at - 1);
    }
}

/// A component that stops running ends the loop with the event that
/// stopped it: the trace is the same whatever follows that event.
pub proof fn stopping_ends_the_loop<C: Component>(
    model: Model<C>,
    event: Event,
    rest: Seq<Event>,
    limit: nat,
)
    requires
        !settle(model.component, event, limit).component.running(),
    ensures
        play(model, seq![event] + rest, limit).status != Status::Suspended,
        play(model, seq![event] + rest, limit).events == 1,
        play(model, seq![event] + rest, limit).renders == model.owed_renders(),
        play(model, seq![event] + rest, limit) == play(model, seq![event], limit),
{
    assert((seq![event] + rest)[0] == event);
    assert(seq![event][0] == event);
}

/// The application's mathematical model.
pub struct AppState {
    pub stream: Stream,
    pub home: Home,
    pub display: Display,
    pub phase: Phase,
    pub rendered: bool,
}

impl AppState {
    /// The part of the state that the loop works on.
    pub open spec fn model(self) -> Model<Home> {
        Model {
            component: self.home,
            area: self.display.area,
            frame: self.display.frame,
            rendered: self.rendered,
        }
    }

    /// The state after `run`: a stopped application stays as it is; a
    /// running one follows `play` over what its stream can hand out.
    pub open spec fn ran(self) -> AppState {
        if self.phase == Phase::Stopped {
            self
        } else {
            let trace = play(self.model(), self.stream.feed(), CHAIN_LIMIT as nat);
            AppState {
                stream: self.stream.dropped(trace.events),
                home: trace.model.component,
                display: Display { area: trace.model.area, frame: trace.model.frame, ..self.display },
                phase: if trace.status == Status::Suspended {
                    Phase::Running
                } else {
                    Phase::Stopped
                },
                rendered: trace.model.rendered,
            }
        }
    }

    /// The report that `run` hands back.
    pub open spec fn report(self) -> Report {
        if self.phase == Phase::Stopped {
            Report { events: 0, renders: 0, status: Status::Stopped }
        } else {
            let trace = play(self.model(), self.stream.feed(), CHAIN_LIMIT as nat);
            Report {
                events: trace.events as usize,
                renders: trace.renders as usize,
                status: trace.status,
            }
        }
    }
}

/// Once stopped, the loop does nothing more: no event is taken, nothing is
/// drawn, the state stays as it is, and the exit code is zero.
pub proof fn stopped_stays_stopped(state: AppState)
    requires
        state.phase == Phase::Stopped,
    ensures
        state.ran() == state,
        state.report().events == 0,
        state.report().renders == 0,
        exit_code_of(state.report().status) == Some(EXIT_SUCCESS),
{
}

/// The application: one event stream, the root component, the display
/// handle, and the state of the loop.
#[derive(Debug)]
pub struct App {
    pub events: EventHandler,
    pub home: Home,
    pub tui: Tui,
    pub phase: Phase,
    /// Whether the frame buffer shows the component's current state.
    pub rendered: bool,
}

impl View for App {
    type V = AppState;

    open spec fn view(&self) -> AppState {
        AppState {
            stream: self.events@,
            home: self.home,
            display: self.tui@,
            phase: self.phase,
            rendered: self.rendered,
        }
    }
}

/// The state of an application that has just been started.
pub open spec fn started(tick_rate: u64, entered: Entered, home: Home) -> AppState {
    AppState {
        stream: Stream { tick_rate_ms: tick_rate, next_tick_ms: 0, queue: Seq::empty(), closed: false },
        home,
        display: Display {
            raw_mode: true,
            alternate_screen: true,
            area: screen(entered.width, entered.height),
            frame: Seq::empty(),
        },
        phase: Phase::Running,
        rendered: false,
    }
}

/// What starting an application with a given root component comes to.
pub open spec fn start(tick_rate: u64, entered: Entered, home: Home) -> Result<AppState, AppError> {
    if !(entered.raw_mode && entered.alternate_screen) {
        Err(AppError::Setup(setup_error(entered)))
    } else {
        match home.set_up() {
            Ok(ready) => Ok(started(tick_rate, entered, ready)),
            Err(e) => Err(
                AppError::Init(e, Restore { leave_alternate_screen: true, disable_raw_mode: true }),
            ),
        }
    }
}

impl App {
    /// Starts the application with a default root component, on a terminal
    /// that the host has tried to switch to interactive mode.
    pub fn new(tick_rate: u64, entered: Entered) -> (r: Result<App, AppError>)
        ensures
            match start(tick_rate, entered, Home::fresh()) {
                Ok(state) => r.is_ok() && r.unwrap()@ == state,
                Err(e) => r.is_err() && r.unwrap_err() == e,
            },
            r.is_ok() <==> entered.raw_mode && entered.alternate_screen,
    {
        App::with_home(tick_rate, entered, Home::default())
    }

    /// Starts the application with the given root component. The display is
    /// taken over first, then the stream is made, then the component is set
    /// up; the loop is never left partly started.
    pub fn with_home(tick_rate: u64, entered: Entered, home: Home) -> (r: Result<App, AppError>)
        ensures
            match start(tick_rate, entered, home) {
                Ok(state) => r.is_ok() && r.unwrap()@ == state,
                Err(e) => r.is_err() && r.unwrap_err() == e,
            },
    {
        let mut tui = match Tui::new(entered) {
            Ok(tui) => tui,
            Err(e) => {
                return Err(AppError::Setup(e));
            },
        };
        let events = EventHandler::new(tick_rate);
        let mut home = home;
        match home.init() {
            Ok(()) => Ok(App { events, home, tui, phase: Phase::Running, rendered: false }),
            Err(e) => {
                let undo = tui.exit();
                Err(AppError::Init(e, undo))
            },
        }
    }

    /// Runs the loop for as long as it can go on without waiting: draw,
    /// take the next event, translate it, drain the chain of actions, check
    /// whether to stop. It comes back when no event waits, when the loop has
    /// ended, or at once if it had ended before.
    pub fn run(&mut self) -> (report: Report)
        requires
            old(self).events@.queue.len() < usize::MAX,
        ensures
            final(self)@ == old(self)@.ran(),
            report == old(self)@.report(),
            old(self)@.phase == Phase::Running ==> report.events == play(
                old(self)@.model(),
                old(self)@.stream.feed(),
                CHAIN_LIMIT as nat,
            ).events && report.renders == play(
                old(self)@.model(),
                old(self)@.stream.feed(),
                CHAIN_LIMIT as nat,
            ).renders,
            report.events <= old(self)@.stream.feed().len(),
            report.renders <= report.events + 1,
    {
        if self.phase == Phase::Stopped {
            return Report { events: 0, renders: 0, status: Status::Stopped };
        }
        let ghost start = self@;
        let ghost whole = play(start.model(), start.stream.feed(), CHAIN_LIMIT as nat);
        let mut events: usize = 0;
        let mut renders: usize = 0;
        assert(start.stream.dropped(0).queue =~= start.stream.queue);
        loop
            invariant
                self.phase == Phase::Running,
                start == old(self)@,
                start.phase == Phase::Running,
                start.stream.queue.len() < usize::MAX,
                whole == play(start.model(), start.stream.feed(), CHAIN_LIMIT as nat),
                events + self.events@.queue.len() == start.stream.queue.len(),
                renders <= events + start.model().owed_renders(),
                renders + self@.model().owed_renders() <= events + 1,
                self@.stream == start.stream.dropped(events as nat),
                self@.display.raw_mode == start.display.raw_mode,
                self@.display.alternate_screen == start.display.alternate_screen,
                whole.model == play(self@.model(), self@.stream.feed(), CHAIN_LIMIT as nat).model,
                whole.status == play(self@.model(), self@.stream.feed(), CHAIN_LIMIT as nat).status,
                whole.events == play(self@.model(), self@.stream.feed(), CHAIN_LIMIT as nat).events
                    + events,
                whole.renders == play(
                    self@.model(),
                    self@.stream.feed(),
                    CHAIN_LIMIT as nat,
                ).renders + renders,
            decreases self.events@.queue.len(),
        {
            let ghost before = self@;
            if !self.rendered {
                self.tui.draw(&self.home);
                self.rendered = true;
                renders = renders + 1;
            }
            assert(self@.model() == before.model().painted());
            let ghost feed = self@.stream.feed();
            match self.events.next() {
                None => {
                    assert(feed.len() == 0);
                    assert(self@.stream.queue =~= start.stream.dropped(events as nat).queue);
                    return Report { events, renders, status: Status::Suspended };
                },
                Some(event) => {
                    assert(feed.len() > 0 && feed[0] == event);
                    let ghost painted = self@.model();
                    self.rendered = false;
                    if let Event::Resize(width, height) = event {
                        self.tui.resize(width, height);
                    }
                    let round = step(&mut self.home, event, CHAIN_LIMIT);
                    events = events + 1;
                    assert(self@.model() == painted.took(event, CHAIN_LIMIT as nat));
                    assert(self@.stream.queue =~= start.stream.dropped(events as nat).queue);
                    match round.outcome {
                        Outcome::Continue => {
                            assert(event != Event::Quit);
                            assert(before.stream.queue.len() > 0);
                            assert(self@.stream.feed() =~= feed.skip(1));
                        },
                        Outcome::Stopped => {
                            self.phase = Phase::Stopped;
                            return Report { events, renders, status: Status::Stopped };
                        },
                        Outcome::ChainOverflow => {
                            self.phase = Phase::Stopped;
                            return Report { events, renders, status: Status::ChainOverflow };
                        },
                    }
                },
            }
        }
    }

    /// Ends the application on any path: the producers are cancelled, the
    /// loop is stopped, and the terminal is given back. It hands out what
    /// the host has to undo; a second call hands out nothing.
    pub fn shutdown(&mut self) -> (restore: Restore)
        ensures
            restore == old(self)@.display.owed(),
            final(self)@ == (AppState {
                stream: old(self)@.stream.shut(),
                display: old(self)@.display.exited(),
                phase: Phase::Stopped,
                ..old(self)@
            }),
    {
        self.events.close();
        self.phase = Phase::Stopped;
        self.tui.exit()
    }
}

} // verus!
