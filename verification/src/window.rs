//! The state of the editor's window: what the main pane shows, and the three
//! panes.

use crate::pack::Datapack;
use crate::pack_info::fresh_state;
use crate::pack_info::handle_datapack_update;
use crate::pack_info::update_fits;
use crate::pack_info::update_result;
use crate::pack_info::PackInfoState;
use crate::widgets::WidgetCallbackChannel;
use vstd::prelude::*;

verus! {

/// What the main pane shows.
#[derive(Debug, Clone)]
pub enum MainContentState {
    PackInfo(PackInfoState),
    Biome,
}

/// What a pane of the window is for.
#[derive(Debug, Clone, Copy, PartialEq, Eq, Structural)]
pub enum PaneType {
    FileTree,
    MainContent,
    Preview,
}

/// A pane of the window.
#[derive(Debug, Clone, Copy, PartialEq, Eq, Structural)]
pub struct PaneState {
    pub pane_type: PaneType,
}

impl PaneState {
    /// A pane for the given use.
    pub fn new(pane_type: PaneType) -> (r: Self)
        ensures
            r.pane_type == pane_type,
    {
        Self { pane_type }
    }
}

impl MainContentState {
    /// The state of the window for a datapack that was just opened: the main
    /// pane shows the manifest.
    pub fn open(datapack: &Datapack) -> (r: Self)
        ensures
            r matches MainContentState::PackInfo(state) && fresh_state(*datapack, state),
    {
        MainContentState::PackInfo(PackInfoState::new(datapack))
    }

    /// Hands an input of the manifest's editor on, while the main pane shows
    /// the manifest, and gives the state that the main pane then has.
    pub fn handle_input(self, datapack: &mut Datapack, channel: WidgetCallbackChannel) -> (r: Self)
        requires
            self is PackInfo,
            update_fits(*old(datapack), channel->PackInfo_0, self->PackInfo_0),
        ensures
            r matches MainContentState::PackInfo(state) && update_result(
                *old(datapack),
                channel->PackInfo_0,
                self->PackInfo_0,
                *final(datapack),
                state,
            ),
    {
        match channel {
            WidgetCallbackChannel::PackInfo(callback_type) => match self {
                MainContentState::PackInfo(pack_info_state) => MainContentState::PackInfo(
                    handle_datapack_update(datapack, callback_type, pack_info_state),
                ),
                MainContentState::Biome => MainContentState::Biome,
            },
        }
    }
}

} // verus!
