use vstd::prelude::*;

use crate::outcome::EventResult;

verus! {

/// Number of actions that every scenario offers: the risky one, then the safe one.
pub const ACTIONS_PER_SCENARIO: usize = 2;

/// Number of outcomes that every action may lead to.
pub const OUTCOMES_PER_ACTION: usize = 14;

/// A place that an event can happen in, with the scenarios met there.
#[derive(Copy, Clone, Debug)]
pub struct EventLocationData {
    pub name: &'static str,
    pub images: &'static [&'static str],
    pub dialog: &'static [&'static str],
    pub description: &'static str,
    pub scenarios: &'static [EventScenario],
}

#[derive(Copy, Clone, Debug)]
pub struct EventScenario {
    pub name: &'static str,
    pub description: &'static str,
    pub actions: &'static [EventScenarioAction],
}

#[derive(Copy, Clone, Debug)]
pub struct EventScenarioAction {
    pub dialog: &'static [&'static str],
    pub label: &'static str,
    pub outcomes: &'static [EventScenarioOutcome],
}

#[derive(Copy, Clone, Debug)]
pub struct EventScenarioOutcome {
    pub weight: u32,
    pub description: &'static str,
    pub dialog: &'static [&'static str],
    pub effect: EventResult,
}

pub open spec fn action_wf(a: EventScenarioAction) -> bool {
    a.outcomes@.len() == OUTCOMES_PER_ACTION
}

pub open spec fn scenario_wf(s: EventScenario) -> bool {
    &&& s.actions@.len() == ACTIONS_PER_SCENARIO
    &&& forall|k: int| 0 <= k < s.actions@.len() ==> #[trigger] action_wf(s.actions@[k])
}

pub open spec fn location_wf(l: EventLocationData) -> bool {
    &&& l.scenarios@.len() > 0
    &&& forall|j: int| 0 <= j < l.scenarios@.len() ==> #[trigger] scenario_wf(l.scenarios@[j])
}

/// The shape that the event logic relies on: at least one location, each with
/// at least one scenario, each scenario with two actions, each action with
/// fourteen outcomes.
pub open spec fn catalog_wf(c: Seq<EventLocationData>) -> bool {
    &&& c.len() > 0
    &&& forall|i: int| 0 <= i < c.len() ==> #[trigger] location_wf(c[i])
}

/// The outcomes of action `choice` in scenario `scenario` of location `location`.
pub open spec fn outcomes_of(
    c: Seq<EventLocationData>,
    location: int,
    scenario: int,
    choice: int,
) -> Seq<EventScenarioOutcome> {
    c[location].scenarios@[scenario].actions@[choice].outcomes@
}

impl EventLocationData {
    /// The location at `i`, counting round the catalog when `i` runs past its end.
    pub fn get(catalog: &[EventLocationData], i: usize) -> (r: EventLocationData)
        requires
            catalog@.len() > 0,
        ensures
            r == catalog@[(i as nat % catalog@.len()) as int],
    {
        catalog[i % catalog.len()]
    }
}

fn action_is_well_formed(a: &EventScenarioAction) -> (r: bool)
    ensures
        r == action_wf(*a),
{
    a.outcomes.len() == OUTCOMES_PER_ACTION
}

fn scenario_is_well_formed(s: &EventScenario) -> (r: bool)
    ensures
        r == scenario_wf(*s),
{
    if s.actions.len() != ACTIONS_PER_SCENARIO {
        return false;
    }
    let mut k: usize = 0;
    while k < s.actions.len()
        invariant
            k <= s.actions@.len(),
            forall|m: int| 0 <= m < k ==> action_wf(#[trigger] s.actions@[m]),
        decreases s.actions@.len() - k,
    {
        if !action_is_well_formed(&s.actions[k]) {
            return false;
        }
        k += 1;
    }
    true
}

fn location_is_well_formed(l: &EventLocationData) -> (r: bool)
    ensures
        r == location_wf(*l),
{
    if l.scenarios.len() == 0 {
        return false;
    }
    let mut j: usize = 0;
    while j < l.scenarios.len()
        invariant
            j <= l.scenarios@.len(),
            forall|m: int| 0 <= m < j ==> scenario_wf(#[trigger] l.scenarios@[m]),
        decreases l.scenarios@.len() - j,
    {
        if !scenario_is_well_formed(&l.scenarios[j]) {
            return false;
        }
        j += 1;
    }
    true
}

/// Whether the catalog has the shape that the event operations require.
pub fn catalog_is_well_formed(catalog: &[EventLocationData]) -> (r: bool)
    ensures
        r == catalog_wf(catalog@),
{
    if catalog.len() == 0 {
        return false;
    }
    let mut i: usize = 0;
    while i < catalog.len()
        invariant
            i <= catalog@.len(),
            forall|m: int| 0 <= m < i ==> location_wf(#[trigger] catalog@[m]),
        decreases catalog@.len() - i,
    {
        if !location_is_well_formed(&catalog[i]) {
            return false;
        }
        i += 1;
    }
    true
}

} // verus!
