use vstd::prelude::*;

verus! {

/// The lookup found no capital for the state it was asked about.
#[derive(Debug, Clone, PartialEq, Eq)]
pub struct UnknownState {
    /// The state that was asked about.
    pub state: String,
}

/// The fixed table of state capitals: `Some(capital)` for a state in it,
/// `None` for any other name.
pub open spec fn capital_of(state: Seq<char>) -> Option<Seq<char>> {
    if state == "Massachussetts"@ {
        Some("Boston"@)
    } else if state == "Washington"@ {
        Some("Olympia"@)
    } else {
        None
    }
}

/// Looks up the capital of `state` in the fixed table. A name the table does
/// not hold is an `UnknownState` error that carries the name.
pub fn get_capital_for_state(state: &str) -> (r: Result<&'static str, UnknownState>)
    ensures
        match r {
            Ok(c) => capital_of(state@) == Some(c@),
            Err(e) => capital_of(state@) is None && e.state@ == state@,
        },
{
    let name = state.to_owned();
    if name == "Massachussetts".to_owned() {
        Ok("Boston")
    } else if name == "Washington".to_owned() {
        Ok("Olympia")
    } else {
        Err(UnknownState { state: name })
    }
}

} // verus!
