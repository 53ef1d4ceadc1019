//! Forwarding of swapped tokens.
use vstd::prelude::*;

use crate::auction::{Address, EsdtPayment, PaymentToken};
use crate::errors::MarketError;
use crate::events::{transfer, Action};
use crate::storage::{Marketplace, StorageModule};

verus! {

/// `forward_xoxno`: the callback of a swap forwards its outcome to
/// `destination`: the tokens the swap returned, or, when the swap failed, the
/// single ESDT payment that came back.
pub open spec fn spec_forward_xoxno(
    destination: Address,
    result: Option<EsdtPayment>,
    received: Seq<EsdtPayment>,
) -> Result<Seq<Action>, MarketError> {
    let p = match result {
        Some(p) => Ok(p),
        None => if received.len() == 1 {
            Ok(received[0])
        } else {
            Err(MarketError::NotSingleEsdtTransfer)
        },
    };
    match p {
        Ok(p) => Ok(seq![transfer(destination, PaymentToken::Esdt(p.token), p.nonce, p.amount)]),
        Err(e) => Err(e),
    }
}

/// Swaps through a pair contract.
pub trait DexModule: StorageModule {
    /// Swapping wrapped EGLD for the marketplace token is switched off: it does nothing.
    fn swap_wegld_for_xoxno(&self, destination: Address, payment: EsdtPayment) -> (r: Vec<Action>)
        ensures
            r@ == Seq::<Action>::empty(),
    ;

    /// The callback of a swap (see `spec_forward_xoxno`); `result` is what the
    /// swap returned, `None` when it failed.
    fn forward_xoxno(&self, destination: Address, result: Option<EsdtPayment>, received: &Vec<EsdtPayment>) -> (r: Result<
        Vec<Action>,
        MarketError,
    >)
        ensures
            match spec_forward_xoxno(destination, result, received@) {
                Ok(t) => r is Ok && r->Ok_0@ == t,
                Err(e) => r == Err::<Vec<Action>, MarketError>(e),
            },
    ;
}

impl DexModule for Marketplace {
    fn swap_wegld_for_xoxno(&self, destination: Address, payment: EsdtPayment) -> (r: Vec<Action>) {
        Vec::new()
    }

    fn forward_xoxno(&self, destination: Address, result: Option<EsdtPayment>, received: &Vec<EsdtPayment>) -> (r: Result<
        Vec<Action>,
        MarketError,
    >) {
        let p = match result {
            Some(p) => p,
            None => {
                if received.len() != 1 {
                    return Err(MarketError::NotSingleEsdtTransfer);
                }
                received[0]
            },
        };
        let mut acts: Vec<Action> = Vec::new();
        acts.push(Action::Transfer { to: destination, token: PaymentToken::Esdt(p.token), nonce: p.nonce, amount: p.amount });
        assert(acts@ =~= seq![transfer(destination, PaymentToken::Esdt(p.token), p.nonce, p.amount)]);
        Ok(acts)
    }
}

} // verus!
