//! Results that commands running in the background hand back.
use vstd::prelude::*;

verus! {

/// The result of a command that ran in the background.
#[derive(Clone, Debug)]
pub enum BackgroundEvent {
    InfoMessage(String),
    ErrorMessage(String),
}

} // verus!
