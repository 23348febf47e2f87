//! Every state the shell can reach, and what in the prototype depicts it.
//!
//! A state the prototype omits is recorded before it ships. Enforcing that
//! needs two things the code can check: the full list of states, and, for each,
//! a string that must occur in the prototype itself. Naming the evidence is
//! what stops the list becoming a set of claims about itself.

use vstd::prelude::*;

verus! {

/// What in the signed-off prototype shows this state.
#[derive(Debug, Clone, Copy, PartialEq, Eq)]
pub enum Depiction {
    /// A `data-screen-label` the prototype composes, or a state binding it
    /// carries. The text must appear verbatim in the prototype.
    Prototype(&'static str),
    /// The prototype does not depict it. The text is the heading under
    /// `## Prototype extensions` in the feature's design document.
    Extension(&'static str),
}

#[derive(Debug, Clone, Copy)]
pub struct State {
    pub name: &'static str,
    pub depiction: Depiction,
}

pub open spec fn depicted(name: &'static str, evidence: &'static str) -> State {
    State { name, depiction: Depiction::Prototype(evidence) }
}

pub open spec fn recorded(name: &'static str, heading: &'static str) -> State {
    State { name, depiction: Depiction::Extension(heading) }
}

/// The reachable states, in the order the list declares them.
pub open spec fn state_table() -> Seq<State> {
    seq![
        depicted("window chrome", "data-screen-label=\\\"Chrome\\\""),
        depicted("editor", "data-screen-label=\\\"Editor\\\""),
        depicted("dock", "data-screen-label=\\\"Dock\\\""),
        depicted("tool window", "data-screen-label=\\\"Tool window\\\""),
        depicted("palette", "data-screen-label=\\\"Palette\\\""),
        depicted("completion popup", "data-screen-label=\\\"Completion\\\""),
        depicted("run configuration dropdown", "data-screen-label=\\\"Run configurations\\\""),
        depicted("packs and extensions", "data-screen-label=\\\"Plugins\\\""),
        depicted("rail: commit", "data-screen-label=\\\"Diff\\\""),
        depicted("rail: find", "data-screen-label=\\\"Structural search\\\""),
        depicted("rail: branches", "data-screen-label=\\\"Branches\\\""),
        depicted("dock collapsed", "dockOpen:false"),
        depicted("density: compact, default, roomy", "density:p.density||'default'"),
        depicted("completion style: compact and detail", "compWidth:p.completionStyle"),
        depicted("latency HUD", "data-screen-label=\\\"Latency HUD\\\""),
        recorded("tool window collapsed", "Tool window collapsed"),
        recorded("rail: local history", "Local history tool window"),
    ]
}

pub fn reachable() -> (r: Vec<State>)
    ensures
        r@ == state_table(),
{
    vec![
        state("window chrome", Depiction::Prototype("data-screen-label=\\\"Chrome\\\"")),
        state("editor", Depiction::Prototype("data-screen-label=\\\"Editor\\\"")),
        state("dock", Depiction::Prototype("data-screen-label=\\\"Dock\\\"")),
        state("tool window", Depiction::Prototype("data-screen-label=\\\"Tool window\\\"")),
        state("palette", Depiction::Prototype("data-screen-label=\\\"Palette\\\"")),
        state("completion popup", Depiction::Prototype("data-screen-label=\\\"Completion\\\"")),
        state(
            "run configuration dropdown",
            Depiction::Prototype("data-screen-label=\\\"Run configurations\\\""),
        ),
        state("packs and extensions", Depiction::Prototype("data-screen-label=\\\"Plugins\\\"")),
        state("rail: commit", Depiction::Prototype("data-screen-label=\\\"Diff\\\"")),
        state("rail: find", Depiction::Prototype("data-screen-label=\\\"Structural search\\\"")),
        state("rail: branches", Depiction::Prototype("data-screen-label=\\\"Branches\\\"")),
        // The prototype binds this state even though it composes no screen for it.
        state("dock collapsed", Depiction::Prototype("dockOpen:false")),
        state("density: compact, default, roomy", Depiction::Prototype("density:p.density||'default'")),
        state(
            "completion style: compact and detail",
            Depiction::Prototype("compWidth:p.completionStyle"),
        ),
        // Depicted by the prototype, which composes it under a screen label and
        // gates it on the same performance-readout prop the shell carries.
        state("latency HUD", Depiction::Prototype("data-screen-label=\\\"Latency HUD\\\"")),
        state("tool window collapsed", Depiction::Extension("Tool window collapsed")),
        state("rail: local history", Depiction::Extension("Local history tool window")),
    ]
}

fn state(name: &'static str, depiction: Depiction) -> (r: State)
    ensures
        r == (State { name, depiction }),
{
    State { name, depiction }
}

} // verus!
