//! Every reachable state names its evidence.

use vulcan_ui::states::{reachable, Depiction};

#[test]
fn the_list_names_every_reachable_state() {
    let states = reachable();
    assert_eq!(states.len(), 17);
    assert_eq!(states[0].name, "window chrome");
    assert_eq!(states[0].depiction, Depiction::Prototype("data-screen-label=\\\"Chrome\\\""));
    assert_eq!(states[11].depiction, Depiction::Prototype("dockOpen:false"));
}

#[test]
fn only_two_states_are_extensions() {
    let extensions: Vec<&str> = reachable()
        .iter()
        .filter_map(|state| match state.depiction {
            Depiction::Extension(heading) => Some(heading),
            Depiction::Prototype(_) => None,
        })
        .collect();
    assert_eq!(extensions, vec!["Tool window collapsed", "Local history tool window"]);
}
