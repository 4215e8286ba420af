//! What every component offers to the main loop.

use crate::action::Action;
use crate::effect::Effect;
use vstd::prelude::*;

verus! {

/// A component that can hold the focus. The focused component is the
/// one to which navigation is addressed, and it is drawn differently.
pub trait HandleFocus {
    /// Whether the component holds the focus.
    spec fn focused(&self) -> bool;

    /// Gives the component the focus.
    fn focus(&mut self)
        ensures
            final(self).focused(),
    ;

    /// Takes the focus from the component.
    fn unfocus(&mut self)
        ensures
            !final(self).focused(),
    ;
}

/// A component that reacts to actions. It changes nothing but its own
/// state, does not block, and answers with the effects that it wants
/// performed, in order. An action that means nothing to it changes
/// nothing and has no effect.
pub trait Component {
    /// Handles one action.
    fn update(&mut self, action: Action) -> (effects: Vec<Effect>);
}

} // verus!
