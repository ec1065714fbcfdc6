use vstd::prelude::*;

verus! {

/// The screens the device moves between.
#[derive(Debug, Clone, Copy, PartialEq, Eq, Structural)]
pub enum AppState {
    Boot,
    Home,
    Armed,
    Alarm,
    History,
    Battery,
}

impl Default for AppState {
    fn default() -> (r: Self)
        ensures
            r == AppState::Boot,
    {
        AppState::Boot
    }
}

} // verus!
