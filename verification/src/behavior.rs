//! Binding a behavior to its trigger action.
//!
//! A `BehaviorInput` pairs a behavior's state with the logical action
//! whose buffered press triggers it, so one slash or shot machine can be
//! bound to any button.

use vstd::prelude::*;

use crate::inputs::Inputs;

verus! {

/// A behavior bound to the action that triggers it.
pub struct BehaviorInput<T> {
    pub input: Inputs,
    pub behavior: T,
}

impl<T> BehaviorInput<T> {
    /// Binds `behavior` to `input`.
    pub fn new(input: Inputs, behavior: T) -> (r: BehaviorInput<T>)
        ensures
            r.input == input,
            r.behavior == behavior,
    {
        BehaviorInput { input, behavior }
    }
}

} // verus!
