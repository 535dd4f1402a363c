use crate::components::command::CommandInfo;
use crate::components::{Component, EventState};
use crate::config::KeyConfig;
use crate::event::Key;
use vstd::prelude::*;

verus! {

/// The notice of a failure: one message, shown until it is dismissed.
#[derive(Debug)]
pub struct ErrorComponent {
    pub error: String,
    pub visible: bool,
    pub key_config: KeyConfig,
}

impl ErrorComponent {
    /// Whether the notice uses the key up: shown, it takes the key that
    /// leaves a pop-up, and no other.
    pub open spec fn takes(self, key: Key) -> bool {
        self.visible && key == self.key_config.exit_popup
    }

    /// What the notice does with a key: the key it takes dismisses it and
    /// drops the message, every other key changes nothing.
    pub open spec fn stepped_from(self, before: Self, key: Key) -> bool {
        if before.takes(key) {
            &&& !self.visible
            &&& self.error@ == Seq::<char>::empty()
            &&& self.key_config == before.key_config
        } else {
            self == before
        }
    }

    /// No notice.
    pub fn new(key_config: KeyConfig) -> (notice: ErrorComponent)
        ensures
            notice.error@ == Seq::<char>::empty(),
            !notice.visible,
            notice.key_config == key_config,
    {
        ErrorComponent { error: String::new(), visible: false, key_config }
    }

    /// Shows `error` as the notice, in place of an earlier one.
    pub fn set(&mut self, error: String)
        ensures
            final(self).error == error,
            final(self).visible,
            final(self).key_config == old(self).key_config,
    {
        self.error = error;
        self.show();
    }

    /// Lists nothing: the notice has no command of its own.
    pub fn commands(&self, _out: &mut Vec<CommandInfo>)
        ensures
            *final(_out) == *old(_out),
    {
    }

    pub fn event(&mut self, key: Key) -> (state: EventState)
        ensures
            final(self).stepped_from(*old(self), key),
            state == (if old(self).takes(key) {
                EventState::Consumed
            } else {
                EventState::NotConsumed
            }),
    {
        if self.visible {
            if key == self.key_config.exit_popup {
                self.error = String::new();
                self.conceal();
                return EventState::Consumed;
            }
            return EventState::NotConsumed;
        }
        EventState::NotConsumed
    }

    pub fn conceal(&mut self)
        ensures
            !final(self).visible,
            final(self).error == old(self).error,
            final(self).key_config == old(self).key_config,
    {
        self.visible = false;
    }

    pub fn show(&mut self)
        ensures
            final(self).visible,
            final(self).error == old(self).error,
            final(self).key_config == old(self).key_config,
    {
        self.visible = true;
    }
}

impl Component for ErrorComponent {
    /// Closed, and otherwise as before.
    open spec fn concealed_from(&self, before: &Self) -> bool {
        &&& !self.visible
        &&& self.error == before.error
        &&& self.key_config == before.key_config
    }

    /// Open, and otherwise as before.
    open spec fn opened_from(&self, before: &Self) -> bool {
        &&& self.visible
        &&& self.error == before.error
        &&& self.key_config == before.key_config
    }

    fn commands(&self, out: &mut Vec<CommandInfo>)
        ensures
            *final(out) == *old(out),
    {
        ErrorComponent::commands(self, out)
    }

    fn event(&mut self, key: Key) -> (state: EventState)
        ensures
            final(self).stepped_from(*old(self), key),
            state == (if old(self).takes(key) {
                EventState::Consumed
            } else {
                EventState::NotConsumed
            }),
    {
        ErrorComponent::event(self, key)
    }

    fn conceal(&mut self) {
        ErrorComponent::conceal(self)
    }

    fn show(&mut self) {
        ErrorComponent::show(self)
    }
}

} // verus!
