use vstd::prelude::*;
use crate::action::Action;
use crate::event::Event;

verus! {

/// A rectangle of terminal cells.
#[derive(Clone, Copy, Debug, PartialEq, Eq, Structural)]
pub struct Rect {
    pub x: u16,
    pub y: u16,
    pub width: u16,
    pub height: u16,
}

/// One drawn row: which item it shows and whether that item is selected.
#[derive(Clone, Copy, Debug, PartialEq, Eq, Structural)]
pub struct Line {
    pub item: usize,
    pub selected: bool,
}

/// The buffered drawing surface that a component renders into.
#[derive(Debug)]
pub struct Frame {
    pub lines: Vec<Line>,
}

impl View for Frame {
    type V = Seq<Line>;

    open spec fn view(&self) -> Seq<Line> {
        self.lines@
    }
}

impl Frame {
    /// An empty surface.
    pub fn new() -> (f: Frame)
        ensures
            f@ == Seq::<Line>::empty(),
    {
        Frame { lines: Vec::new() }
    }
}

/// Why a component could not be set up.
#[derive(Clone, Copy, Debug, PartialEq, Eq, Structural)]
pub enum InitError {
    /// `init` was called on a component that had been set up before.
    AlreadyInitialized,
}

/// The capability contract of a unit of user interface state.
///
/// The four spec functions are the component's mathematical model; each
/// executable method is bound to compute exactly what its model says, so the
/// loop's behaviour over any component is a function of the model alone.
pub trait Component: Sized {
    /// Whether the component still wants the loop to go on.
    spec fn running(&self) -> bool;

    /// The outcome of one-time setup: the component as set up, or the reason
    /// why setup fails.
    spec fn set_up(&self) -> Result<Self, InitError>;

    /// The action that an event is translated to.
    spec fn translated(&self, event: Event) -> Action;

    /// The component after an action has been applied to it.
    spec fn applied(&self, action: Action) -> Self;

    /// The action, if any, that applying `action` asks to be applied next.
    spec fn follow_up(&self, action: Action) -> Option<Action>;

    /// What the component draws into an area.
    spec fn drawn(&self, area: Rect) -> Seq<Line>;

    /// One-time setup. On failure the component is left as it was.
    fn init(&mut self) -> (r: Result<(), InitError>)
        ensures
            match old(self).set_up() {
                Ok(c) => r.is_ok() && *final(self) == c,
                Err(e) => r == Err::<(), InitError>(e) && *final(self) == *old(self),
            },
    ;

    /// Translates an event to an action without touching the state.
    fn handle_events(&self, event: Event) -> (a: Action)
        ensures
            a == self.translated(event),
    ;

    /// Applies an action and hands back the follow-up action, if any.
    fn dispatch(&mut self, action: Action) -> (next: Option<Action>)
        ensures
            *final(self) == old(self).applied(action),
            next == old(self).follow_up(action),
    ;

    /// Draws the current state; the state cannot change, the surface is
    /// overwritten.
    fn render(&self, frame: &mut Frame, area: Rect)
        ensures
            final(frame)@ == self.drawn(area),
    ;

    /// Reads the `running` flag.
    fn is_running(&self) -> (b: bool)
        ensures
            b == self.running(),
    ;
}

} // verus!
