use vstd::prelude::*;

verus! {

/// Lifecycle of the whole application.
#[derive(Clone, Copy, Debug, PartialEq, Eq, Structural)]
pub enum AppState {
    Running,
    ShuttingDown,
    Terminated,
}

/// The byte that stands for each lifecycle state.
pub open spec fn app_state_code(s: AppState) -> u8 {
    match s {
        AppState::Running => 0,
        AppState::ShuttingDown => 1,
        AppState::Terminated => 2,
    }
}

/// The state a byte stands for, if any.
pub open spec fn app_state_from_code(v: u8) -> Option<AppState> {
    if v == 0 {
        Some(AppState::Running)
    } else if v == 1 {
        Some(AppState::ShuttingDown)
    } else if v == 2 {
        Some(AppState::Terminated)
    } else {
        None
    }
}

impl AppState {
    pub fn as_u8(&self) -> (v: u8)
        ensures
            v == app_state_code(*self),
    {
        match self {
            AppState::Running => 0,
            AppState::ShuttingDown => 1,
            AppState::Terminated => 2,
        }
    }

    pub fn from_u8(value: u8) -> (r: Option<AppState>)
        ensures
            r == app_state_from_code(value),
    {
        match value {
            0 => Some(AppState::Running),
            1 => Some(AppState::ShuttingDown),
            2 => Some(AppState::Terminated),
            _ => None,
        }
    }
}

/// Decoding the byte of a state gives the state back, and a byte that
/// decodes to a state is that state's byte; exactly the bytes 0, 1 and 2
/// decode.
pub proof fn law_app_state_round_trip(s: AppState, v: u8)
    ensures
        app_state_from_code(app_state_code(s)) == Some(s),
        app_state_from_code(v) matches Some(t) ==> app_state_code(t) == v,
        app_state_from_code(v) is Some <==> v <= 2,
{
}

} // verus!
