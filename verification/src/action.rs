use vstd::prelude::*;

verus! {

/// An intended state change, produced by a component in answer to an event
/// or to another action.
#[derive(Clone, Copy, Debug, PartialEq, Eq, Structural)]
pub enum Action {
    /// Nothing to do.
    Noop,
    /// One period of the tick timer has passed.
    Tick,
    /// The component asks for a repaint; state is unchanged.
    Render,
    /// The drawing area now has this width and height.
    Resize(u16, u16),
    /// Move the selection to the item with this index.
    SelectItem(usize),
    /// Scroll so that the item with this index is visible.
    ScrollIntoView(usize),
    /// Stop the application.
    Quit,
}

} // verus!
