//! The measuring run: the inputs that drive the shell while its frames are
//! timed, and the rule that says when the shell has gone quiet afterwards.
//!
//! The run drives the shell the way a person does, so the input-to-paint
//! budget has something to measure, then waits for a run of polls in which no
//! frame was drawn before it measures what idling costs. The waiting, the
//! window and the timers belong to the program that runs it; what it does at
//! each step is decided here.

use vstd::prelude::*;

use crate::props::{Props, RailTab};
use crate::shell::{rail_selected, toggled_readout, Shell};

verus! {

/// How many inputs the run gives.
pub const SCRIPT_STEPS: u32 = 300;

/// How many polls in a row must see no new frame before the shell counts as idle.
pub const QUIET_POLLS: u32 = 4;

/// The most polls the run waits for the shell to go idle.
pub const MAX_POLLS: u32 = 100;

/// An input the run gives the shell.
#[derive(Debug, Clone, Copy, PartialEq, Eq, Structural)]
pub enum Input {
    SelectRail(RailTab),
    SelectTab(usize),
    ToggleHud,
}

/// The input at `step`: the steps cycle through opening Structure, bringing
/// an editor tab to the front (the three tabs in turn), going back to
/// Project, and toggling the performance readout.
pub open spec fn scripted(step: u32) -> Input {
    if step % 4 == 0 {
        Input::SelectRail(RailTab::Structure)
    } else if step % 4 == 1 {
        Input::SelectTab(((step / 4) % 3) as usize)
    } else if step % 4 == 2 {
        Input::SelectRail(RailTab::Project)
    } else {
        Input::ToggleHud
    }
}

/// The input the run gives at `step`.
pub fn script_input(step: u32) -> (r: Input)
    ensures
        r == scripted(step),
{
    let phase = step % 4;
    if phase == 0 {
        Input::SelectRail(RailTab::Structure)
    } else if phase == 1 {
        Input::SelectTab(((step / 4) % 3) as usize)
    } else if phase == 2 {
        Input::SelectRail(RailTab::Project)
    } else {
        Input::ToggleHud
    }
}

/// What an input does to the shell's state.
pub open spec fn applied(props: Props, input: Input) -> Props {
    match input {
        Input::SelectRail(tab) => rail_selected(props, tab),
        Input::SelectTab(index) => Props { active_tab: index, ..props },
        Input::ToggleHud => Props { perf_readout: toggled_readout(props.perf_readout), ..props },
    }
}

/// Gives the shell an input, through the same methods a person's input reaches.
pub fn apply(shell: &mut Shell, input: Input)
    ensures
        final(shell)@ == applied(old(shell)@, input),
{
    match input {
        Input::SelectRail(tab) => shell.select_rail(tab),
        Input::SelectTab(index) => shell.select_tab(index),
        Input::ToggleHud => shell.toggle_hud(),
    }
}

/// Where the wait for quiet stands: how many polls in a row saw no new frame,
/// and the frame count the last poll read.
#[derive(Debug, Clone, Copy, PartialEq, Eq, Structural)]
pub struct Settling {
    pub quiet: u32,
    pub last: u64,
}

/// The wait before any poll, from the frame count read when the inputs ended.
pub fn settling(frames: u64) -> (r: Settling)
    ensures
        r == (Settling { quiet: 0, last: frames }),
{
    Settling { quiet: 0, last: frames }
}

/// A poll that reads `now` frames: an unchanged count adds one to the quiet
/// run, any new frame starts it again from nothing.
pub open spec fn polled(state: Settling, now: u64) -> Settling {
    Settling { quiet: if now == state.last { (state.quiet + 1) as u32 } else { 0 }, last: now }
}

/// Whether the shell counts as idle.
pub open spec fn is_settled(state: Settling) -> bool {
    state.quiet >= QUIET_POLLS
}

/// One poll of the frame count. Returns the new state and whether the shell
/// is now idle, so that the wait ends. The wait stops polling once idle, so a
/// state that is already idle is never polled again.
pub fn poll(state: Settling, now: u64) -> (r: (Settling, bool))
    requires
        !is_settled(state),
    ensures
        r.0 == polled(state, now),
        r.1 == is_settled(r.0),
{
    let quiet: u32 = if now == state.last { state.quiet + 1 } else { 0 };
    let next = Settling { quiet, last: now };
    (next, quiet >= QUIET_POLLS)
}

/// The shell counts as idle only after `QUIET_POLLS` polls in a row that all
/// read the same frame count: a poll that sees a new frame never ends the wait.
pub proof fn law_idle_needs_an_unchanged_count(state: Settling, now: u64)
    requires
        !is_settled(state),
        is_settled(polled(state, now)),
    ensures
        now == state.last,
        state.quiet == QUIET_POLLS - 1,
{
}

} // verus!
