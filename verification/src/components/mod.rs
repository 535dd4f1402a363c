pub mod command;
pub mod error;
pub mod help;
pub mod host;
pub mod proc;
pub mod query_input;
pub mod syntax_text;
pub mod tabs;
pub mod total_proc;

use crate::components::command::CommandInfo;
use crate::event::Key;
use vstd::prelude::*;

verus! {

/// Whether a component used up an input event.
#[derive(Debug, Clone, Copy, PartialEq, Eq, Structural)]
pub enum EventState {
    Consumed,
    NotConsumed,
}

impl EventState {
    pub fn is_consumed(&self) -> (b: bool)
        ensures
            b == (*self == EventState::Consumed),
    {
        *self == EventState::Consumed
    }
}

impl From<bool> for EventState {
    fn from(consumed: bool) -> (state: EventState) {
        if consumed {
            EventState::Consumed
        } else {
            EventState::NotConsumed
        }
    }
}

impl vstd::std_specs::convert::FromSpecImpl<bool> for EventState {
    open spec fn obeys_from_spec() -> bool {
        true
    }

    open spec fn from_spec(consumed: bool) -> EventState {
        if consumed {
            EventState::Consumed
        } else {
            EventState::NotConsumed
        }
    }
}

/// Whether a view counts as open when it is toggled. Every view does,
/// whatever it shows on the screen: a view that keeps a mark of being open
/// or closed keeps it for the drawing alone.
pub open spec fn counts_as_open<C: ?Sized>(view: &C) -> bool {
    true
}

/// What every view offers: its commands for the help, what it does with a
/// key, and how it closes and opens.
pub trait Component {
    /// What closing does to the view: how the view stands after `conceal`,
    /// given how it stood before.
    spec fn concealed_from(&self, before: &Self) -> bool;

    /// What opening does to the view: how the view stands after `show`,
    /// given how it stood before.
    spec fn opened_from(&self, before: &Self) -> bool;

    /// Appends the commands of the view.
    fn commands(&self, out: &mut Vec<CommandInfo>);

    /// Takes a key, and says whether it used the key up.
    fn event(&mut self, key: Key) -> EventState;

    /// Takes a key that needs outside work. A view has none unless it says
    /// so.
    fn async_event(&mut self, _key: Key) -> (state: EventState)
        ensures
            state == EventState::NotConsumed,
    {
        EventState::NotConsumed
    }

    /// Whether the view has the keyboard. No view keeps track of that
    /// itself: the session does, so the answer is always no.
    fn focused(&self) -> (focused: bool)
        ensures
            !focused,
    {
        false
    }

    fn focus(&mut self, _focus: bool) {
    }

    /// Whether the view counts as open when it is toggled.
    fn is_visible(&self) -> (visible: bool)
        ensures
            visible == counts_as_open(self),
    {
        true
    }

    /// Closes the view.
    fn conceal(&mut self)
        ensures
            final(self).concealed_from(old(self)),
    ;

    /// Opens the view.
    fn show(&mut self)
        ensures
            final(self).opened_from(old(self)),
    ;

    /// Closes the view where it counts as open, and opens it where it does
    /// not.
    fn toggle_visible(&mut self)
        ensures
            if counts_as_open(old(self)) {
                final(self).concealed_from(old(self))
            } else {
                final(self).opened_from(old(self))
            },
    {
        if self.is_visible() {
            self.conceal();
        } else {
            self.show()
        }
    }
}

} // verus!
