use vstd::prelude::*;
use crate::action::Action;
use crate::component::{Component, Frame, InitError, Line, Rect};
use crate::dispatch::{chain, settle};
use crate::event::{Event, KeyCode, Modifiers};

verus! {

/// The root component: a scrolling list with one selected item.
#[derive(Clone, Copy, Debug, PartialEq, Eq, Structural)]
pub struct Home {
    /// False once the component has asked the loop to end.
    pub is_running: bool,
    /// True once `init` has succeeded.
    pub initialized: bool,
    /// How many items the list holds.
    pub items: usize,
    /// The index of the selected item.
    pub selected: usize,
    /// The index of the first visible item.
    pub offset: usize,
    /// Width of the drawing area, as last announced.
    pub columns: u16,
    /// Height of the drawing area, as last announced.
    pub rows: u16,
    /// How many ticks were seen; stays at the maximum once it is reached.
    pub ticks: u64,
}

/// The first visible index after scrolling a window of `rows` rows, which
/// starts at `offset`, by as little as shows item `index`.
pub open spec fn scrolled(offset: usize, rows: u16, index: usize) -> usize {
    if index < offset {
        index
    } else if rows > 0 && index - offset >= rows {
        (index - (rows - 1)) as usize
    } else {
        offset
    }
}

/// How many rows the list fills in an area of the given height.
pub open spec fn visible_rows(items: usize, offset: usize, height: u16) -> nat {
    if offset >= items {
        0
    } else if items - offset < height {
        (items - offset) as nat
    } else {
        height as nat
    }
}

/// Whether a key asks to leave: `q` alone, or `c` with control.
pub open spec fn is_quit_key(code: KeyCode, modifiers: Modifiers) -> bool {
    (code == KeyCode::Char('q') && modifiers == Modifiers::none_spec()) || (code == KeyCode::Char(
        'c',
    ) && modifiers == Modifiers::control_spec())
}

impl Home {
    /// A running, empty list that has not been set up.
    pub open spec fn fresh() -> Home {
        Home {
            is_running: true,
            initialized: false,
            items: 0,
            selected: 0,
            offset: 0,
            columns: 0,
            rows: 0,
            ticks: 0,
        }
    }

    /// A running list of `items` items with the first one selected.
    pub fn with_items(items: usize) -> (h: Home)
        ensures
            h == (Home { items, ..Home::fresh() }),
    {
        Home {
            is_running: true,
            initialized: false,
            items,
            selected: 0,
            offset: 0,
            columns: 0,
            rows: 0,
            ticks: 0,
        }
    }

    /// Whether the selection is an item of the list, or the first place of
    /// an empty list.
    pub open spec fn selection_valid(&self) -> bool {
        self.selected < self.items || (self.items == 0 && self.selected == 0)
    }

    /// Whether the selected item lies in the visible window, where there is
    /// one.
    pub open spec fn selection_in_view(&self) -> bool {
        self.rows > 0 ==> self.offset <= self.selected < self.offset + self.rows
    }

    /// The action that a key press stands for.
    pub open spec fn key_action(&self, code: KeyCode, modifiers: Modifiers) -> Action {
        if is_quit_key(code, modifiers) {
            Action::Quit
        } else if code == KeyCode::Up && self.selected > 0 {
            Action::SelectItem((self.selected - 1) as usize)
        } else if code == KeyCode::Down && self.selected < self.items && self.items
            - self.selected > 1 {
            Action::SelectItem((self.selected + 1) as usize)
        } else {
            Action::Noop
        }
    }
}

impl Default for Home {
    fn default() -> (h: Home)
        ensures
            h == Home::fresh(),
    {
        Home::with_items(0)
    }
}

impl Component for Home {
    open spec fn running(&self) -> bool {
        self.is_running
    }

    open spec fn set_up(&self) -> Result<Home, InitError> {
        if self.initialized {
            Err(InitError::AlreadyInitialized)
        } else {
            Ok(Home { initialized: true, ..*self })
        }
    }

    open spec fn translated(&self, event: Event) -> Action {
        match event {
            Event::Tick => Action::Tick,
            Event::Key(code, modifiers) => self.key_action(code, modifiers),
            Event::Resize(width, height) => Action::Resize(width, height),
            Event::Quit => Action::Quit,
        }
    }

    open spec fn applied(&self, action: Action) -> Home {
        match action {
            Action::Noop => *self,
            Action::Render => *self,
            Action::Tick => Home {
                ticks: if self.ticks < u64::MAX {
                    (self.ticks + 1) as u64
                } else {
                    self.ticks
                },
                ..*self
            },
            Action::Resize(width, height) => Home { columns: width, rows: height, ..*self },
            Action::SelectItem(index) => if index < self.items {
                Home { selected: index, ..*self }
            } else {
                *self
            },
            Action::ScrollIntoView(index) => Home {
                offset: scrolled(self.offset, self.rows, index),
                ..*self
            },
            Action::Quit => Home { is_running: false, ..*self },
        }
    }

    open spec fn follow_up(&self, action: Action) -> Option<Action> {
        match action {
            Action::Resize(_, _) => Some(Action::ScrollIntoView(self.selected)),
            Action::SelectItem(index) => if index < self.items {
                Some(Action::ScrollIntoView(index))
            } else {
                None
            },
            _ => None,
        }
    }

    open spec fn drawn(&self, area: Rect) -> Seq<Line> {
        Seq::new(
            visible_rows(self.items, self.offset, area.height),
            |k: int| Line { item: (self.offset + k) as usize, selected: self.offset + k == self.selected },
        )
    }

    fn init(&mut self) -> (r: Result<(), InitError>) {
        if self.initialized {
            Err(InitError::AlreadyInitialized)
        } else {
            self.initialized = true;
            Ok(())
        }
    }

    fn handle_events(&self, event: Event) -> (a: Action) {
        match event {
            Event::Tick => Action::Tick,
            Event::Key(code, modifiers) => {
                if (code == KeyCode::Char('q') && modifiers == Modifiers::none()) || (code
                    == KeyCode::Char('c') && modifiers == Modifiers::control()) {
                    Action::Quit
                } else if code == KeyCode::Up && self.selected > 0 {
                    Action::SelectItem(self.selected - 1)
                } else if code == KeyCode::Down && self.selected < self.items && self.items
                    - self.selected > 1 {
                    Action::SelectItem(self.selected + 1)
                } else {
                    Action::Noop
                }
            },
            Event::Resize(width, height) => Action::Resize(width, height),
            Event::Quit => Action::Quit,
        }
    }

    fn dispatch(&mut self, action: Action) -> (next: Option<Action>) {
        match action {
            Action::Noop => None,
            Action::Render => None,
            Action::Tick => {
                if self.ticks < u64::MAX {
                    self.ticks = self.ticks + 1;
                }
                None
            },
            Action::Resize(width, height) => {
                self.columns = width;
                self.rows = height;
                Some(Action::ScrollIntoView(self.selected))
            },
            Action::SelectItem(index) => {
                if index < self.items {
                    self.selected = index;
                    Some(Action::ScrollIntoView(index))
                } else {
                    None
                }
            },
            Action::ScrollIntoView(index) => {
                if index < self.offset {
                    self.offset = index;
                } else if self.rows > 0 && index - self.offset >= self.rows as usize {
                    self.offset = index - (self.rows as usize - 1);
                }
                None
            },
            Action::Quit => {
                self.is_running = false;
                None
            },
        }
    }

    fn render(&self, frame: &mut Frame, area: Rect) {
        frame.lines.clear();
        let count: usize = if self.offset >= self.items {
            0
        } else if self.items - self.offset < area.height as usize {
            self.items - self.offset
        } else {
            area.height as usize
        };
        let mut k: usize = 0;
        while k < count
            invariant
                k <= count,
                count == visible_rows(self.items, self.offset, area.height),
                frame@ == self.drawn(area).take(k as int),
            decreases count - k,
        {
            let item = self.offset + k;
            frame.lines.push(Line { item, selected: item == self.selected });
            k = k + 1;
            assert(frame@ =~= self.drawn(area).take(k as int));
        }
        assert(frame@ =~= self.drawn(area));
    }

    fn is_running(&self) -> (b: bool) {
        self.is_running
    }
}

/// Every chain that an event sets off in `Home` ends after at most two
/// actions: no limit of two or more is ever reached.
pub proof fn home_chain_is_short(home: Home, event: Event, limit: nat)
    requires
        limit >= 2,
    ensures
        !settle(home, event, limit).overflow,
        settle(home, event, limit).updates <= 2,
        settle(home, event, limit).updates >= 1,
{
    let first = home.translated(event);
    let second = home.follow_up(first);
    let after = home.applied(first);
    assert(chain(home, Some(first), limit).updates == chain(after, second, (limit - 1) as nat).updates + 1);
    match second {
        None => {},
        Some(a) => {
            assert(after.follow_up(a).is_none());
            assert(chain(after.applied(a), None, (limit - 2) as nat).updates == 0);
        },
    }
}

/// A dispatch round leaves the selection on an item and in view: selecting
/// and resizing each set off the scroll that brings it there.
pub proof fn round_keeps_selection_in_view(home: Home, event: Event, limit: nat)
    requires
        limit >= 2,
        home.selection_valid(),
        home.selection_in_view(),
    ensures
        settle(home, event, limit).component.selection_valid(),
        settle(home, event, limit).component.selection_in_view(),
{
    let first = home.translated(event);
    let second = home.follow_up(first);
    let after = home.applied(first);
    assert(chain(home, Some(first), limit).component == chain(
        after,
        second,
        (limit - 1) as nat,
    ).component);
    match second {
        None => {},
        Some(a) => {
            assert(after.follow_up(a).is_none());
            assert(chain(after.applied(a), None, (limit - 2) as nat).component == after.applied(a));
        },
    }
}

} // verus!
