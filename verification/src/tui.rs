use vstd::prelude::*;
use crate::component::{Component, Frame, Line, Rect};

verus! {

/// What the host found when it tried to switch the terminal to interactive
/// mode: which of the two switches took, and the size of the screen.
#[derive(Clone, Copy, Debug, PartialEq, Eq, Structural)]
pub struct Entered {
    pub raw_mode: bool,
    pub alternate_screen: bool,
    pub width: u16,
    pub height: u16,
}

/// The switches that have to be undone to give the terminal back as it was.
/// The alternate screen is left before raw mode is switched off.
#[derive(Clone, Copy, Debug, PartialEq, Eq, Structural)]
pub struct Restore {
    pub leave_alternate_screen: bool,
    pub disable_raw_mode: bool,
}

impl Restore {
    /// Whether there is nothing to undo.
    pub open spec fn is_nothing(self) -> bool {
        !self.leave_alternate_screen && !self.disable_raw_mode
    }

    /// Whether there is nothing to undo.
    pub fn nothing_to_do(&self) -> (b: bool)
        ensures
            b == self.is_nothing(),
    {
        !self.leave_alternate_screen && !self.disable_raw_mode
    }
}

/// Which switch the terminal refused.
#[derive(Clone, Copy, Debug, PartialEq, Eq, Structural)]
pub enum Missing {
    RawMode,
    AlternateScreen,
}

/// The terminal could not be switched to interactive mode.
#[derive(Clone, Copy, Debug, PartialEq, Eq, Structural)]
pub struct SetupError {
    /// The first switch that did not take.
    pub missing: Missing,
    /// What did take and must be undone, so that nothing is left half
    /// entered.
    pub undo: Restore,
}

/// The error that a failed entry comes to.
pub open spec fn setup_error(entered: Entered) -> SetupError {
    SetupError {
        missing: if !entered.raw_mode {
            Missing::RawMode
        } else {
            Missing::AlternateScreen
        },
        undo: Restore {
            leave_alternate_screen: entered.alternate_screen,
            disable_raw_mode: entered.raw_mode,
        },
    }
}

/// The display handle's model: which switches are on, the screen area, and
/// what the frame buffer holds.
pub struct Display {
    pub raw_mode: bool,
    pub alternate_screen: bool,
    pub area: Rect,
    pub frame: Seq<Line>,
}

impl Display {
    /// Whether the session is fully entered.
    pub open spec fn active(self) -> bool {
        self.raw_mode && self.alternate_screen
    }

    /// What `exit` has to undo.
    pub open spec fn owed(self) -> Restore {
        Restore { leave_alternate_screen: self.alternate_screen, disable_raw_mode: self.raw_mode }
    }

    /// The display after `exit`.
    pub open spec fn exited(self) -> Display {
        Display { raw_mode: false, alternate_screen: false, ..self }
    }
}

/// Leaving is idempotent: a second `exit` undoes nothing and changes
/// nothing.
pub proof fn exit_twice_is_exit_once(display: Display)
    ensures
        display.exited().owed().is_nothing(),
        display.exited().exited() == display.exited(),
        !display.exited().active(),
{
}

/// The whole-screen area of a terminal of the given size.
pub open spec fn screen(width: u16, height: u16) -> Rect {
    Rect { x: 0, y: 0, width, height }
}

/// The handle that owns the terminal session and the frame buffer.
#[derive(Debug)]
pub struct Tui {
    pub raw_mode: bool,
    pub alternate_screen: bool,
    pub area: Rect,
    pub frame: Frame,
}

impl View for Tui {
    type V = Display;

    open spec fn view(&self) -> Display {
        Display {
            raw_mode: self.raw_mode,
            alternate_screen: self.alternate_screen,
            area: self.area,
            frame: self.frame@,
        }
    }
}

impl Tui {
    /// Takes over a terminal that the host has switched. The handle exists
    /// only where both switches took; otherwise the error names the first
    /// that did not, and what has to be undone.
    pub fn new(entered: Entered) -> (r: Result<Tui, SetupError>)
        ensures
            entered.raw_mode && entered.alternate_screen ==> r.is_ok() && r.unwrap()@ == (Display {
                raw_mode: true,
                alternate_screen: true,
                area: screen(entered.width, entered.height),
                frame: Seq::empty(),
            }),
            !(entered.raw_mode && entered.alternate_screen) ==> r == Err::<Tui, SetupError>(
                setup_error(entered),
            ),
    {
        if entered.raw_mode && entered.alternate_screen {
            Ok(
                Tui {
                    raw_mode: true,
                    alternate_screen: true,
                    area: Rect { x: 0, y: 0, width: entered.width, height: entered.height },
                    frame: Frame::new(),
                },
            )
        } else {
            Err(
                SetupError {
                    missing: if !entered.raw_mode {
                        Missing::RawMode
                    } else {
                        Missing::AlternateScreen
                    },
                    undo: Restore {
                        leave_alternate_screen: entered.alternate_screen,
                        disable_raw_mode: entered.raw_mode,
                    },
                },
            )
        }
    }

    /// Whether the session is fully entered.
    pub fn is_active(&self) -> (b: bool)
        ensures
            b == self@.active(),
    {
        self.raw_mode && self.alternate_screen
    }

    /// Records a new screen size.
    pub fn resize(&mut self, width: u16, height: u16)
        ensures
            final(self)@ == (Display { area: screen(width, height), ..old(self)@ }),
    {
        self.area = Rect { x: 0, y: 0, width, height };
    }

    /// Lets a component draw its state over the whole screen.
    pub fn draw<C: Component>(&mut self, component: &C)
        ensures
            final(self)@ == (Display { frame: component.drawn(old(self).area), ..old(self)@ }),
    {
        component.render(&mut self.frame, self.area);
    }

    /// Gives the terminal back: hands out what the host has to undo and
    /// records it as undone. A second call hands out nothing.
    pub fn exit(&mut self) -> (restore: Restore)
        ensures
            restore == old(self)@.owed(),
            final(self)@ == old(self)@.exited(),
    {
        let restore = Restore {
            leave_alternate_screen: self.alternate_screen,
            disable_raw_mode: self.raw_mode,
        };
        self.raw_mode = false;
        self.alternate_screen = false;
        restore
    }
}

} // verus!
