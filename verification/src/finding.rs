//! The outcome of checking one service, and the rule that classifies it.

use vstd::prelude::*;

verus! {

/// The mathematical picture of a [`ServiceFinding`]: the same three outcomes,
/// with every text as a sequence of characters.
pub enum Finding {
    Healthy,
    NotLoaded { name: Seq<char> },
    Unhealthy { name: Seq<char>, active_state: Seq<char>, sub_state: Seq<char>, result: Seq<char> },
}

impl Finding {
    /// The fragment that a finding adds to the status text. A healthy service
    /// adds nothing; the other two name the service, and an unhealthy one
    /// carries its three state fields exactly as the manager gave them.
    pub open spec fn text(self) -> Seq<char> {
        match self {
            Finding::Healthy => Seq::empty(),
            Finding::NotLoaded { name } => name + " not loaded"@,
            Finding::Unhealthy { name, active_state, sub_state, result } => name
                + " active_state="@ + active_state + " sub_state="@ + sub_state + ", result="@
                + result,
        }
    }
}

/// The `len` characters of `whole` that start at `at`.
pub open spec fn window(whole: Seq<char>, at: int, len: nat) -> Seq<char> {
    whole.subrange(at, at + len)
}

/// Whether `part` occurs in `whole` as one contiguous run of characters.
pub open spec fn occurs_in(part: Seq<char>, whole: Seq<char>) -> bool {
    exists|at: int|
        0 <= at && at + part.len() <= whole.len() && #[trigger] window(whole, at, part.len())
            == part
}

/// Whether the two health signals of a unit both say that it is well: the
/// unit is active, and its last run succeeded.
pub open spec fn is_well(active_state: Seq<char>, result: Seq<char>) -> bool {
    active_state == "active"@ && result == "success"@
}

/// The finding for a loaded unit with the given state fields.
pub open spec fn classified(
    name: Seq<char>,
    active_state: Seq<char>,
    sub_state: Seq<char>,
    result: Seq<char>,
) -> Finding {
    if is_well(active_state, result) {
        Finding::Healthy
    } else {
        Finding::Unhealthy { name, active_state, sub_state, result }
    }
}

/// The three state fields of a loaded unit, as the service manager reports
/// them. The values are opaque: the manager's vocabulary is open-ended.
#[derive(Debug, Clone, PartialEq, Eq)]
pub struct UnitState {
    pub active_state: String,
    pub sub_state: String,
    pub result: String,
}

/// What one check of one service found.
#[derive(Debug, Clone, PartialEq, Eq)]
pub enum ServiceFinding {
    /// The unit is active and its last run succeeded.
    Healthy,
    /// The service manager knows no unit of this name.
    NotLoaded { name: String },
    /// The unit is loaded, and at least one of its health signals is off.
    Unhealthy { name: String, active_state: String, sub_state: String, result: String },
}

impl View for ServiceFinding {
    type V = Finding;

    open spec fn view(&self) -> Finding {
        match self {
            ServiceFinding::Healthy => Finding::Healthy,
            ServiceFinding::NotLoaded { name } => Finding::NotLoaded { name: name@ },
            ServiceFinding::Unhealthy { name, active_state, sub_state, result } => {
                Finding::Unhealthy {
                    name: name@,
                    active_state: active_state@,
                    sub_state: sub_state@,
                    result: result@,
                }
            },
        }
    }
}

/// Whether `value` holds exactly the characters of `expected`.
fn text_is(value: &String, expected: &str) -> (same: bool)
    ensures
        same == (value@ == expected@),
{
    let wanted = String::from_str(expected);
    *value == wanted
}

impl ServiceFinding {
    /// Whether the finding reports a healthy service.
    pub fn is_healthy(&self) -> (healthy: bool)
        ensures
            healthy == (self@ is Healthy),
    {
        match self {
            ServiceFinding::Healthy => true,
            _ => false,
        }
    }

    /// The fragment that this finding adds to the status text.
    pub fn describe(&self) -> (text: String)
        ensures
            text@ == self@.text(),
    {
        let mut text = String::new();
        match self {
            ServiceFinding::Healthy => {},
            ServiceFinding::NotLoaded { name } => {
                text.append(name.as_str());
                text.append(" not loaded");
            },
            ServiceFinding::Unhealthy { name, active_state, sub_state, result } => {
                text.append(name.as_str());
                text.append(" active_state=");
                text.append(active_state.as_str());
                text.append(" sub_state=");
                text.append(sub_state.as_str());
                text.append(", result=");
                text.append(result.as_str());
            },
        }
        text
    }
}

/// Classifies a loaded unit by its state fields. The service is healthy if
/// and only if its active state is `active` and its last result is
/// `success`; in every other case the finding keeps the name and the three
/// fields as they came.
pub fn classify(service_name: &str, state: UnitState) -> (finding: ServiceFinding)
    ensures
        finding@ == classified(
            service_name@,
            state.active_state@,
            state.sub_state@,
            state.result@,
        ),
        is_well(state.active_state@, state.result@) ==> finding@ is Healthy,
        !is_well(state.active_state@, state.result@) ==> finding@ == (Finding::Unhealthy {
            name: service_name@,
            active_state: state.active_state@,
            sub_state: state.sub_state@,
            result: state.result@,
        }),
{
    if text_is(&state.active_state, "active") && text_is(&state.result, "success") {
        ServiceFinding::Healthy
    } else {
        ServiceFinding::Unhealthy {
            name: String::from_str(service_name),
            active_state: state.active_state,
            sub_state: state.sub_state,
            result: state.result,
        }
    }
}

/// The fragment of a finding that is not healthy quotes what it was made
/// from: the service name and, for an unhealthy unit, each of the three state
/// fields occur in it character for character.
pub proof fn lemma_text_quotes_fields(finding: Finding)
    ensures
        finding matches Finding::NotLoaded { name } ==> occurs_in(name, finding.text()),
        finding matches Finding::Unhealthy { name, active_state, sub_state, result } ==> {
            &&& occurs_in(name, finding.text())
            &&& occurs_in(active_state, finding.text())
            &&& occurs_in(sub_state, finding.text())
            &&& occurs_in(result, finding.text())
        },
{
    let text = finding.text();
    match finding {
        Finding::Healthy => {},
        Finding::NotLoaded { name } => {
            assert(window(text, 0, name.len()) =~= name);
        },
        Finding::Unhealthy { name, active_state, sub_state, result } => {
            let at_active = name.len() + " active_state="@.len();
            let at_sub = at_active + active_state.len() + " sub_state="@.len();
            let at_result = at_sub + sub_state.len() + ", result="@.len();
            assert(window(text, 0, name.len()) =~= name);
            assert(window(text, at_active as int, active_state.len()) =~= active_state);
            assert(window(text, at_sub as int, sub_state.len()) =~= sub_state);
            assert(window(text, at_result as int, result.len()) =~= result);
        },
    }
}

} // verus!
