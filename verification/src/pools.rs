//! Deposits of buyers, from which their offers are paid.
use vstd::prelude::*;

use crate::auction::{Address, Payment, PaymentToken};
use crate::collections::{amount_at, with_amount};
use crate::common::{endpoint_matches, step_matches};
use crate::errors::MarketError;
use crate::events::{transfer, Action, Event, EventsModule};
use crate::helpers::Step;
use crate::storage::{ChainContext, Marketplace, StorageModule, Store};

verus! {

/// The deposit of `user` in `token` with `nonce`.
pub open spec fn deposit_of(s: Store, user: Address, token: PaymentToken, nonce: u64) -> u128 {
    amount_at(s.user_funds, (user, token, nonce))
}

/// The storage with the deposit of `user` in `token` with `nonce` set to `amount`.
pub open spec fn with_deposit(s: Store, user: Address, token: PaymentToken, nonce: u64, amount: u128) -> Store {
    Store { user_funds: with_amount(s.user_funds, (user, token, nonce), amount), ..s }
}

/// The event that logs the deposit of `user` after a change.
pub open spec fn deposit_event(user: Address, token: PaymentToken, nonce: u64, amount: u128) -> Action {
    Action::Event(Event::DepositBalance { owner: user, payment: Payment { token, nonce, amount } })
}

/// `deposit`: it takes EGLD only; a non-zero payment, when EGLD is
/// whitelisted, is added to the caller's deposit; a zero payment changes nothing.
pub open spec fn spec_deposit(s: Store, ctx: ChainContext, payment: Payment) -> Step {
    if !payment.token.is_egld() {
        Err(MarketError::EsdtNotAccepted)
    } else if payment.amount > 0 {
        if !s.accepted_tokens.contains(payment.token) {
            Err(MarketError::DepositTokenNotWhitelisted)
        } else {
            let total = deposit_of(s, ctx.caller, payment.token, payment.nonce) + payment.amount;
            if total > u128::MAX {
                Err(MarketError::Overflow)
            } else {
                Ok((
                    with_deposit(s, ctx.caller, payment.token, payment.nonce, total as u128),
                    seq![deposit_event(ctx.caller, payment.token, payment.nonce, total as u128)],
                ))
            }
        }
    } else {
        Ok((s, seq![]))
    }
}

/// `withdrawDeposit`: `amount` leaves the caller's deposit and is sent to the
/// caller; without a deposit nothing happens.
pub open spec fn spec_withdraw_deposit(s: Store, ctx: ChainContext, token: PaymentToken, nonce: u64, amount: u128) -> Step {
    let balance = deposit_of(s, ctx.caller, token, nonce);
    if balance == 0 {
        Ok((s, seq![]))
    } else if balance < amount {
        Err(MarketError::BalanceTooLow)
    } else {
        let rest = (balance - amount) as u128;
        Ok((
            with_deposit(s, ctx.caller, token, nonce, rest),
            seq![deposit_event(ctx.caller, token, nonce, rest), transfer(ctx.caller, token, nonce, amount)],
        ))
    }
}

/// Fails unless `buyer` has a deposit of at least `amount`.
pub open spec fn spec_has_balance(s: Store, buyer: Address, token: PaymentToken, nonce: u64, amount: u128) -> Result<
    (),
    MarketError,
> {
    let balance = deposit_of(s, buyer, token, nonce);
    if balance == 0 {
        Err(MarketError::NoBalance)
    } else if balance < amount {
        Err(MarketError::BalanceTooLow)
    } else {
        Ok(())
    }
}

/// Takes `amount` out of the deposit of `buyer`, which must cover it.
pub open spec fn spec_has_balance_and_deduct(s: Store, buyer: Address, token: PaymentToken, nonce: u64, amount: u128) -> Step {
    match spec_has_balance(s, buyer, token, nonce, amount) {
        Err(e) => Err(e),
        Ok(_) => {
            let rest = (deposit_of(s, buyer, token, nonce) - amount) as u128;
            Ok((with_deposit(s, buyer, token, nonce, rest), seq![deposit_event(buyer, token, nonce, rest)]))
        },
    }
}

/// The deposits of the buyers.
pub trait PoolsModule: StorageModule + EventsModule {
    /// Adds the payment to the caller's deposit (see `spec_deposit`).
    fn deposit(&mut self, ctx: &ChainContext, payment: Payment) -> (r: Result<Vec<Action>, MarketError>)
        requires
            old(self).inv(),
        ensures
            final(self).inv(),
            endpoint_matches(spec_deposit(old(self).store(), *ctx, payment), r, final(self).store()),
            r is Err ==> final(self).store() == old(self).store(),
    ;

    /// Sends part of the caller's deposit back (see `spec_withdraw_deposit`).
    fn withdraw_deposit(&mut self, ctx: &ChainContext, token: PaymentToken, nonce: u64, amount: u128) -> (r: Result<
        Vec<Action>,
        MarketError,
    >)
        requires
            old(self).inv(),
        ensures
            final(self).inv(),
            endpoint_matches(spec_withdraw_deposit(old(self).store(), *ctx, token, nonce, amount), r, final(self).store()),
            r is Err ==> final(self).store() == old(self).store(),
    ;

    /// Takes `amount` out of the deposit of `buyer` (see `spec_has_balance_and_deduct`).
    fn has_balance_and_deduct(
        &mut self,
        buyer: Address,
        token: PaymentToken,
        nonce: u64,
        amount: u128,
        acts: &mut Vec<Action>,
    ) -> (r: Result<(), MarketError>)
        requires
            old(self).inv(),
        ensures
            final(self).inv(),
            step_matches(
                spec_has_balance_and_deduct(old(self).store(), buyer, token, nonce, amount),
                r,
                final(self).store(),
                old(acts)@,
                final(acts)@,
            ),
            r is Err ==> final(self).store() == old(self).store(),
    ;

    /// Fails unless `buyer` has a deposit of at least `amount` (see `spec_has_balance`).
    fn has_balance(&self, buyer: Address, token: PaymentToken, nonce: u64, amount: u128) -> (r: Result<(), MarketError>)
        requires
            self.inv(),
        ensures
            r == spec_has_balance(self.store(), buyer, token, nonce, amount),
    ;
}

impl PoolsModule for Marketplace {
    fn deposit(&mut self, ctx: &ChainContext, payment: Payment) -> (r: Result<Vec<Action>, MarketError>) {
        let saved = self.duplicate();
        let r = self.attempt_deposit(ctx, payment);
        if r.is_err() {
            *self = saved;
        }
        r
    }

    fn withdraw_deposit(&mut self, ctx: &ChainContext, token: PaymentToken, nonce: u64, amount: u128) -> (r: Result<
        Vec<Action>,
        MarketError,
    >) {
        let saved = self.duplicate();
        let r = self.attempt_withdraw_deposit(ctx, token, nonce, amount);
        if r.is_err() {
            *self = saved;
        }
        r
    }

    fn has_balance_and_deduct(
        &mut self,
        buyer: Address,
        token: PaymentToken,
        nonce: u64,
        amount: u128,
        acts: &mut Vec<Action>,
    ) -> (r: Result<(), MarketError>) {
        self.has_balance(buyer, token, nonce, amount)?;
        let key = (buyer, token, nonce);
        let rest = self.user_funds.get(&key) - amount;
        self.user_funds.set(key, rest);
        let ev = self.emit_deposit_balance(buyer, Payment { token, nonce, amount: rest });
        acts.push(Action::Event(ev));
        assert(acts@ =~= old(acts)@ + seq![deposit_event(buyer, token, nonce, rest)]);
        assert(self.store() =~= with_deposit(old(self).store(), buyer, token, nonce, rest));
        Ok(())
    }

    fn has_balance(&self, buyer: Address, token: PaymentToken, nonce: u64, amount: u128) -> (r: Result<(), MarketError>) {
        let balance = self.user_funds.get(&(buyer, token, nonce));
        if balance == 0 {
            return Err(MarketError::NoBalance);
        }
        if balance < amount {
            return Err(MarketError::BalanceTooLow);
        }
        Ok(())
    }
}

impl Marketplace {
    /// The steps of `deposit`; a failure may leave the storage part-way.
    fn attempt_deposit(&mut self, ctx: &ChainContext, payment: Payment) -> (r: Result<Vec<Action>, MarketError>)
        requires
            old(self).inv(),
        ensures
            final(self).inv(),
            endpoint_matches(spec_deposit(old(self).store(), *ctx, payment), r, final(self).store()),
    {
        if !payment.token.is_egld() {
            return Err(MarketError::EsdtNotAccepted);
        }
        let mut acts: Vec<Action> = Vec::new();
        if payment.amount > 0 {
            if !self.accepted_tokens.contains(&payment.token) {
                return Err(MarketError::DepositTokenNotWhitelisted);
            }
            let key = (ctx.caller, payment.token, payment.nonce);
            let balance = self.user_funds.get(&key);
            let total = match balance.checked_add(payment.amount) {
                Some(t) => t,
                None => {
                    return Err(MarketError::Overflow);
                },
            };
            self.user_funds.set(key, total);
            let ev = self.emit_deposit_balance(
                ctx.caller,
                Payment { token: payment.token, nonce: payment.nonce, amount: total },
            );
            acts.push(Action::Event(ev));
        }
        Ok(acts)
    }

    /// The steps of `withdraw_deposit`; a failure may leave the storage part-way.
    fn attempt_withdraw_deposit(&mut self, ctx: &ChainContext, token: PaymentToken, nonce: u64, amount: u128) -> (r: Result<
        Vec<Action>,
        MarketError,
    >)
        requires
            old(self).inv(),
        ensures
            final(self).inv(),
            endpoint_matches(spec_withdraw_deposit(old(self).store(), *ctx, token, nonce, amount), r, final(self).store()),
    {
        let mut acts: Vec<Action> = Vec::new();
        let key = (ctx.caller, token, nonce);
        let balance = self.user_funds.get(&key);
        if balance > 0 {
            if balance < amount {
                return Err(MarketError::BalanceTooLow);
            }
            let rest = balance - amount;
            self.user_funds.set(key, rest);
            let ev = self.emit_deposit_balance(ctx.caller, Payment { token, nonce, amount: rest });
            acts.push(Action::Event(ev));
            acts.push(Action::Transfer { to: ctx.caller, token, nonce, amount });
            assert(acts@ =~= seq![deposit_event(ctx.caller, token, nonce, rest), transfer(ctx.caller, token, nonce, amount)]);
            assert(self.store() =~= with_deposit(old(self).store(), ctx.caller, token, nonce, rest));
        }
        Ok(acts)
    }
}

} // verus!
