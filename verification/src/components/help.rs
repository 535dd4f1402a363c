use crate::components::command::CommandInfo;
use crate::components::{Component, EventState};
use crate::config::KeyConfig;
use crate::event::Key;
use vstd::prelude::*;

verus! {

/// The width of the help pop-up.
pub const POPUP_WIDTH: u16 = 65;

/// The height of the help pop-up.
pub const POPUP_HEIGHT: u16 = 24;

/// The help pop-up: the commands it lists, whether it is open, and the line
/// it is scrolled to.
#[derive(Debug)]
pub struct HelpComponent {
    pub cmds: Vec<CommandInfo>,
    pub visible: bool,
    pub selection: u16,
    pub key_config: KeyConfig,
}

/// The commands that the help shows: those that are not marked as hidden, in
/// their order.
pub open spec fn listed(cmds: Seq<CommandInfo>) -> Seq<CommandInfo> {
    cmds.filter(|c: CommandInfo| !c.text.hide_help)
}

/// Where no command is marked as hidden, the help shows them all.
pub proof fn lemma_all_listed(cmds: Seq<CommandInfo>)
    requires
        forall|i: int| 0 <= i < cmds.len() ==> !(#[trigger] cmds[i]).text.hide_help,
    ensures
        listed(cmds) == cmds,
    decreases cmds.len(),
{
    reveal(Seq::filter);
    if cmds.len() > 0 {
        lemma_all_listed(cmds.drop_last());
        assert(cmds.drop_last().push(cmds.last()) =~= cmds);
    }
}

/// The line that the help is scrolled to after one step down (`inc`) or up,
/// with `count` commands listed: never past the last command. The number of
/// the last command is cut to 16 bits.
pub open spec fn selection_after(selection: u16, inc: bool, count: int) -> u16 {
    let moved = if inc {
        if selection < u16::MAX {
            selection + 1
        } else {
            u16::MAX as int
        }
    } else {
        if selection > 0 {
            selection - 1
        } else {
            0
        }
    };
    let last = (if count > 0 {
        count - 1
    } else {
        0
    }) as usize as u16;
    if moved < last {
        moved as u16
    } else {
        last
    }
}

impl HelpComponent {
    /// What the pop-up does with a key. Open, it closes on the key that
    /// leaves a pop-up and scrolls on the two scroll keys, and lets every
    /// other key through. Closed, it opens on the help key.
    pub open spec fn stepped_from(self, before: Self, key: Key) -> bool {
        &&& self.cmds == before.cmds
        &&& self.key_config == before.key_config
        &&& if before.visible {
            if key == before.key_config.exit_popup {
                !self.visible && self.selection == before.selection
            } else if key == before.key_config.scroll_down {
                self.visible && self.selection == selection_after(
                    before.selection,
                    true,
                    before.cmds.len() as int,
                )
            } else if key == before.key_config.scroll_up {
                self.visible && self.selection == selection_after(
                    before.selection,
                    false,
                    before.cmds.len() as int,
                )
            } else {
                self == before
            }
        } else {
            if key == before.key_config.open_help {
                self.visible && self.selection == before.selection
            } else {
                self == before
            }
        }
    }

    /// Whether the pop-up uses the key up.
    pub open spec fn takes(self, key: Key) -> bool {
        if self.visible {
            key == self.key_config.exit_popup || key == self.key_config.scroll_down || key
                == self.key_config.scroll_up
        } else {
            key == self.key_config.open_help
        }
    }

    /// A closed help without commands.
    pub fn new(key_config: KeyConfig) -> (help: HelpComponent)
        ensures
            help.cmds@ == Seq::<CommandInfo>::empty(),
            !help.visible,
            help.selection == 0,
            help.key_config == key_config,
    {
        HelpComponent { cmds: Vec::new(), visible: false, selection: 0, key_config }
    }

    /// Takes the commands to list, leaving out those marked as hidden.
    pub fn set_cmds(&mut self, cmds: Vec<CommandInfo>)
        ensures
            final(self).cmds@ == listed(cmds@),
            final(self).visible == old(self).visible,
            final(self).selection == old(self).selection,
            final(self).key_config == old(self).key_config,
    {
        let ghost shown = |c: CommandInfo| !c.text.hide_help;
        let mut kept: Vec<CommandInfo> = Vec::new();
        let mut i: usize = 0;
        assert(cmds@.take(0).filter(shown) =~= Seq::<CommandInfo>::empty()) by {
            reveal(Seq::filter);
        }
        while i < cmds.len()
            invariant
                i <= cmds.len(),
                shown == (|c: CommandInfo| !c.text.hide_help),
                kept@ == cmds@.take(i as int).filter(shown),
            decreases cmds.len() - i,
        {
            proof {
                cmds@.take(i as int).lemma_filter_push(cmds@[i as int], shown);
                assert(cmds@.take(i as int).push(cmds@[i as int]) =~= cmds@.take(i + 1));
            }
            if !cmds[i].text.hide_help {
                kept.push(cmds[i].clone());
            }
            i = i + 1;
        }
        assert(cmds@.take(cmds.len() as int) =~= cmds@);
        self.cmds = kept;
    }

    /// Moves the line that the help is scrolled to by one, down for `inc`.
    pub fn scroll_selection(&mut self, inc: bool)
        ensures
            final(self).selection == selection_after(
                old(self).selection,
                inc,
                old(self).cmds.len() as int,
            ),
            final(self).cmds == old(self).cmds,
            final(self).visible == old(self).visible,
            final(self).key_config == old(self).key_config,
    {
        let mut new_selection = self.selection;
        new_selection = if inc {
            new_selection.saturating_add(1)
        } else {
            new_selection.saturating_sub(1)
        };
        let last = #[verifier::truncate]
        (self.cmds.len().saturating_sub(1) as u16);
        self.selection = if new_selection < last {
            new_selection
        } else {
            last
        };
    }

    /// The line of the help that stands first in the pop-up: the help moves
    /// once the selection is more than a third of the pop-up down.
    pub fn scroll_row(&self) -> (row: u16)
        ensures
            row == (if self.selection > POPUP_HEIGHT / 3 {
                self.selection - POPUP_HEIGHT / 3
            } else {
                0
            }),
    {
        let scroll_threshold = POPUP_HEIGHT / 3;
        self.selection.saturating_sub(scroll_threshold)
    }

    /// Where the pop-up stands in a terminal of `width` columns and `height`
    /// rows, as left column, top row, width and height: in the middle, and
    /// no larger than the terminal.
    pub fn popup_area(&self, width: u16, height: u16) -> (area: (u16, u16, u16, u16))
        ensures
            area.0 == (if width > POPUP_WIDTH {
                (width - POPUP_WIDTH) / 2
            } else {
                0
            }),
            area.1 == (if height > POPUP_HEIGHT {
                (height - POPUP_HEIGHT) / 2
            } else {
                0
            }),
            area.2 == (if width > POPUP_WIDTH {
                POPUP_WIDTH
            } else {
                width
            }),
            area.3 == (if height > POPUP_HEIGHT {
                POPUP_HEIGHT
            } else {
                height
            }),
    {
        (
            width.saturating_sub(POPUP_WIDTH) / 2,
            height.saturating_sub(POPUP_HEIGHT) / 2,
            if width > POPUP_WIDTH {
                POPUP_WIDTH
            } else {
                width
            },
            if height > POPUP_HEIGHT {
                POPUP_HEIGHT
            } else {
                height
            },
        )
    }

    /// Lists nothing: the help has no command of its own.
    pub fn commands(&self, _out: &mut Vec<CommandInfo>)
        ensures
            *final(_out) == *old(_out),
    {
    }

    pub fn event(&mut self, key: Key) -> (state: EventState)
        ensures
            final(self).stepped_from(*old(self), key),
            state == (if old(self).takes(key) {
                EventState::Consumed
            } else {
                EventState::NotConsumed
            }),
    {
        if self.visible {
            if key == self.key_config.exit_popup {
                self.conceal();
                return EventState::Consumed;
            } else if key == self.key_config.scroll_down {
                self.scroll_selection(true);
                return EventState::Consumed;
            } else if key == self.key_config.scroll_up {
                self.scroll_selection(false);
                return EventState::Consumed;
            }
            return EventState::NotConsumed;
        } else if key == self.key_config.open_help {
            self.show();
            return EventState::Consumed;
        }
        EventState::NotConsumed
    }

    pub fn conceal(&mut self)
        ensures
            !final(self).visible,
            final(self).cmds == old(self).cmds,
            final(self).selection == old(self).selection,
            final(self).key_config == old(self).key_config,
    {
        self.visible = false;
    }

    pub fn show(&mut self)
        ensures
            final(self).visible,
            final(self).cmds == old(self).cmds,
            final(self).selection == old(self).selection,
            final(self).key_config == old(self).key_config,
    {
        self.visible = true;
    }
}

impl Component for HelpComponent {
    /// Closed, and otherwise as before.
    open spec fn concealed_from(&self, before: &Self) -> bool {
        &&& !self.visible
        &&& self.cmds == before.cmds
        &&& self.selection == before.selection
        &&& self.key_config == before.key_config
    }

    /// Open, and otherwise as before.
    open spec fn opened_from(&self, before: &Self) -> bool {
        &&& self.visible
        &&& self.cmds == before.cmds
        &&& self.selection == before.selection
        &&& self.key_config == before.key_config
    }

    fn commands(&self, out: &mut Vec<CommandInfo>)
        ensures
            *final(out) == *old(out),
    {
        HelpComponent::commands(self, out)
    }

    fn event(&mut self, key: Key) -> (state: EventState)
        ensures
            final(self).stepped_from(*old(self), key),
            state == (if old(self).takes(key) {
                EventState::Consumed
            } else {
                EventState::NotConsumed
            }),
    {
        HelpComponent::event(self, key)
    }

    fn conceal(&mut self) {
        HelpComponent::conceal(self)
    }

    fn show(&mut self) {
        HelpComponent::show(self)
    }
}

} // verus!
