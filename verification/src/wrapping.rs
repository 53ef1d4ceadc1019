//! Wrapping and unwrapping EGLD at the wrapped-EGLD contract.
use vstd::prelude::*;

use crate::events::Action;
use crate::storage::{Marketplace, StorageModule};

verus! {

pub trait WrappingModule: StorageModule {
    /// Sends `amount` EGLD to the wrapping contract for as much wrapped EGLD.
    fn wrap_egld(&self, amount: u128, acts: &mut Vec<Action>)
        ensures
            final(acts)@ == old(acts)@.push(Action::WrapEgld { amount }),
    ;

    /// Sends `amount` wrapped EGLD to the wrapping contract for as much EGLD.
    fn unwrap_egld(&self, amount: u128, acts: &mut Vec<Action>)
        ensures
            final(acts)@ == old(acts)@.push(Action::UnwrapEgld { amount }),
    ;
}

impl WrappingModule for Marketplace {
    fn wrap_egld(&self, amount: u128, acts: &mut Vec<Action>) {
        acts.push(Action::WrapEgld { amount });
    }

    fn unwrap_egld(&self, amount: u128, acts: &mut Vec<Action>) {
        acts.push(Action::UnwrapEgld { amount });
    }
}

} // verus!
