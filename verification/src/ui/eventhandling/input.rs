//! Which element keyboard input goes to.
use vstd::prelude::*;

verus! {

/// For which context keyboard input is handled. `Application` is also the
/// fallback: input that the current context does not recognize is tried at
/// the application level.
#[derive(Debug, Clone, Copy, PartialEq, Eq, Structural)]
pub enum KeyboardInputContext {
    InputBox,
    TextView,
    Application,
}

} // verus!
