//! The measuring run's inputs and its wait for the shell to go quiet.

use vulcan_ui::measure::{apply, poll, script_input, settling, Input, MAX_POLLS, QUIET_POLLS, SCRIPT_STEPS};
use vulcan_ui::props::{PerfReadout, Props, RailTab};
use vulcan_ui::shell::Shell;

#[test]
fn the_script_cycles_through_four_inputs() {
    assert_eq!(script_input(0), Input::SelectRail(RailTab::Structure));
    assert_eq!(script_input(1), Input::SelectTab(0));
    assert_eq!(script_input(2), Input::SelectRail(RailTab::Project));
    assert_eq!(script_input(3), Input::ToggleHud);
    assert_eq!(script_input(4), Input::SelectRail(RailTab::Structure));
    assert_eq!(script_input(5), Input::SelectTab(1));
    assert_eq!(script_input(9), Input::SelectTab(2));
    assert_eq!(script_input(13), Input::SelectTab(0));
    assert_eq!(script_input(299), Input::ToggleHud);
    assert_eq!(SCRIPT_STEPS, 300);
}

#[test]
fn a_round_of_the_script_leaves_the_rail_where_it_began() {
    let mut shell = Shell::new(Props::default());
    let start = *shell.props();
    for step in 0..4 {
        apply(&mut shell, script_input(step));
    }
    let after = *shell.props();
    assert_eq!(after.rail_tab, RailTab::Project);
    assert!(!after.side_collapsed);
    assert_eq!(after.active_tab, 0);
    assert_eq!(start.perf_readout, PerfReadout::Hud);
    assert_eq!(after.perf_readout, PerfReadout::Status);
}

#[test]
fn the_shell_is_idle_after_four_quiet_polls() {
    let mut state = settling(120);
    let mut polls = 0;
    let mut done = false;
    for now in [121u64, 125, 125, 125, 125, 125] {
        let (next, idle) = poll(state, now);
        state = next;
        polls += 1;
        if idle {
            done = true;
            break;
        }
    }
    assert!(done);
    assert_eq!(polls, 6);
    assert_eq!(state.quiet, QUIET_POLLS);
    assert_eq!(state.last, 125);
    assert!(polls < MAX_POLLS);
}

#[test]
fn a_new_frame_starts_the_quiet_run_again() {
    let (state, idle) = poll(settling(10), 10);
    assert_eq!(state.quiet, 1);
    assert!(!idle);
    let (state, idle) = poll(state, 10);
    assert_eq!(state.quiet, 2);
    assert!(!idle);
    let (state, idle) = poll(state, 11);
    assert_eq!(state.quiet, 0);
    assert_eq!(state.last, 11);
    assert!(!idle);
}
