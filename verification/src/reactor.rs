//! The reactor: what command handlers read and write.

use vstd::prelude::*;

use crate::effects::{Config, Effect, EffectView, WorkspaceSwitchManager};
use crate::screens::SpaceManager;
use crate::windows::{AppManager, LayoutEngine, WindowManager};

verus! {

/// Which of the actors that may be absent are there to take messages.
#[derive(Clone, Copy, Debug, PartialEq, Eq, Structural)]
pub struct CommunicationManager {
    /// The stack line.
    pub stack_line_tx: bool,
    /// The event tap, which moves the pointer.
    pub event_tap_tx: bool,
    /// The window manager's controller.
    pub wm_sender: bool,
}

/// Whether the menu bar is there to take messages.
#[derive(Clone, Copy, Debug, PartialEq, Eq, Structural)]
pub struct MenuManager {
    pub menu_tx: bool,
}

/// The configuration in force.
#[derive(Debug)]
pub struct ConfigManager {
    pub config: Config,
}

/// The reactor, as it stands when a command comes in, and the effects that
/// commands have called for since the list was last emptied.
#[derive(Debug)]
pub struct Reactor {
    pub space_manager: SpaceManager,
    pub window_manager: WindowManager,
    pub app_manager: AppManager,
    pub layout_engine: LayoutEngine,
    pub workspace_switch_manager: WorkspaceSwitchManager,
    pub config_manager: ConfigManager,
    pub communication_manager: CommunicationManager,
    pub menu_manager: MenuManager,
    pub effects: Vec<Effect>,
}

impl Reactor {
    /// The effects called for, in order.
    pub open spec fn plan(self) -> Seq<EffectView> {
        self.effects@.map_values(|effect: Effect| effect@)
    }

    /// Whether the two differ in their record of workspace switches, their
    /// configuration and their effects at most.
    pub open spec fn observes_same(self, other: Reactor) -> bool {
        &&& self.space_manager == other.space_manager
        &&& self.window_manager == other.window_manager
        &&& self.app_manager == other.app_manager
        &&& self.layout_engine == other.layout_engine
        &&& self.communication_manager == other.communication_manager
        &&& self.menu_manager == other.menu_manager
    }

    /// Whether the two differ in their effects at most.
    pub open spec fn same_but_effects(self, other: Reactor) -> bool {
        &&& self.observes_same(other)
        &&& self.workspace_switch_manager == other.workspace_switch_manager
        &&& self.config_manager == other.config_manager
    }

    /// Calls for one more effect.
    pub fn call_for(&mut self, effect: Effect)
        ensures
            final(self).same_but_effects(*old(self)),
            final(self).plan() == old(self).plan().push(effect@),
    {
        self.effects.push(effect);
        assert(self.plan() =~= old(self).plan().push(effect@));
    }
}

} // verus!
