//! The escrow router: how a commission payment is split, where the escrowed
//! part goes at purchase, and how it is paid out at the end.

use vstd::prelude::*;
use crate::address::Address;
use crate::currency::{Currency, EscrowProvider};
use crate::effect::Effect;
use crate::marketplace::errors::MarketplaceError;
use crate::marketplace::records::{CommissionOrder, CommissionOrderView, MarketConfig};
use crate::marketplace::state::{MarketState, ShimejiMarketplace};

verus! {

/// The part of a commission payment that the seller gets at once: half of it,
/// rounded down.
pub open spec fn upfront_share(amount_paid: i128) -> i128 {
    (amount_paid / 2) as i128
}

/// The part of a commission payment that goes into escrow: what the upfront
/// share leaves, so the odd unit of an odd amount.
pub open spec fn escrow_share(amount_paid: i128) -> i128 {
    (amount_paid - amount_paid / 2) as i128
}

/// The payment-token transfer of `amount`, or nothing where there is nothing
/// to move.
pub open spec fn currency_transfer(
    config: MarketConfig,
    currency: Currency,
    from: Address,
    to: Address,
    amount: i128,
) -> Seq<Effect> {
    if amount <= 0 {
        Seq::empty()
    } else {
        seq![Effect::TokenTransfer { token: config.spec_token(currency), from, to, amount }]
    }
}

impl MarketState {
    /// The backend and the holder that an escrow of `amount` in `currency`
    /// gets if it is routed now.
    pub open spec fn routed_escrow(self, currency: Currency, amount: i128) -> (
        EscrowProvider,
        Address,
    ) {
        if amount > 0 && self.current_escrow_provider() == EscrowProvider::TrustlessWork {
            (EscrowProvider::TrustlessWork, self.config->0.spec_trustless_destination(currency))
        } else {
            (EscrowProvider::Internal, self.contract)
        }
    }

    /// The calls that route an escrow of `amount` in `currency` now: the
    /// transfer to the vault under the external backend, nothing under the
    /// internal one.
    pub open spec fn routing_effects(self, currency: Currency, amount: i128) -> Seq<Effect> {
        if amount > 0 && self.current_escrow_provider() == EscrowProvider::TrustlessWork {
            currency_transfer(
                self.config->0,
                currency,
                self.contract,
                self.config->0.spec_trustless_destination(currency),
                amount,
            )
        } else {
            Seq::empty()
        }
    }

    /// Why `amount` of an order's escrow cannot be paid out, if so: there is
    /// something to pay and the marketplace does not know its payment tokens.
    pub open spec fn settlement_error(self, amount: i128) -> Option<MarketplaceError> {
        if amount > 0 && self.config is None {
            Some(MarketplaceError::NotInitialized)
        } else {
            None
        }
    }

    /// The calls that pay `amount` of `order`'s escrow to `recipient`: by the
    /// backend and from the holder that the order recorded when it was created.
    pub open spec fn settlement_effects(
        self,
        order: CommissionOrderView,
        recipient: Address,
        amount: i128,
    ) -> Seq<Effect> {
        if amount <= 0 {
            Seq::empty()
        } else {
            match order.escrow_provider {
                EscrowProvider::Internal => currency_transfer(
                    self.config->0,
                    order.currency,
                    self.contract,
                    recipient,
                    amount,
                ),
                EscrowProvider::TrustlessWork => seq![
                    Effect::VaultPayout {
                        vault: order.escrow_holder,
                        caller: self.contract,
                        token: self.config->0.spec_token(order.currency),
                        to: recipient,
                        amount,
                    },
                ],
            }
        }
    }
}

impl ShimejiMarketplace {
    /// Splits a commission payment into the seller's upfront share, half of it
    /// rounded down, and the escrowed rest.
    ///
    /// Fails with `CommissionAmountNotPositive` unless the amount is positive.
    pub fn split_commission_payment(amount_paid: i128) -> (shares: Result<
        (i128, i128),
        MarketplaceError,
    >)
        ensures
            match shares {
                Ok((upfront, escrow)) => {
                    &&& amount_paid > 0
                    &&& upfront == upfront_share(amount_paid)
                    &&& escrow == escrow_share(amount_paid)
                    &&& upfront + escrow == amount_paid
                    &&& 0 <= upfront <= escrow <= upfront + 1
                },
                Err(e) => amount_paid <= 0 && e == MarketplaceError::CommissionAmountNotPositive,
            },
    {
        if amount_paid <= 0 {
            return Err(MarketplaceError::CommissionAmountNotPositive);
        }
        let upfront: i128 = amount_paid / 2;
        let escrow: i128 = amount_paid - upfront;
        Ok((upfront, escrow))
    }

    /// Adds to `effects` the payment-token transfer of `amount`, if there is
    /// anything to move.
    pub fn transfer_currency(
        effects: &mut Vec<Effect>,
        config: MarketConfig,
        currency: Currency,
        from: Address,
        to: Address,
        amount: i128,
    )
        ensures
            final(effects)@ == old(effects)@ + currency_transfer(config, currency, from, to, amount),
    {
        if amount <= 0 {
            assert(effects@ =~= old(effects)@ + Seq::<Effect>::empty());
            return ;
        }
        effects.push(Effect::TokenTransfer { token: config.token(currency), from, to, amount });
        assert(effects@ =~= old(effects)@ + currency_transfer(config, currency, from, to, amount));
    }

    /// Chooses where the escrowed part of a purchase is held, by the backend
    /// configured now, and adds to `effects` the transfer that puts it there.
    /// Returns the backend and the holder to record on the order.
    pub fn route_commission_escrow_after_purchase(
        &self,
        effects: &mut Vec<Effect>,
        currency: Currency,
        amount: i128,
    ) -> (routed: (EscrowProvider, Address))
        ensures
            routed == self@.routed_escrow(currency, amount),
            final(effects)@ == old(effects)@ + self@.routing_effects(currency, amount),
    {
        if amount <= 0 {
            assert(effects@ =~= old(effects)@ + Seq::<Effect>::empty());
            return (EscrowProvider::Internal, self.contract);
        }
        match self.config {
            Some(config) => {
                match config.escrow_provider {
                    EscrowProvider::Internal => {
                        assert(effects@ =~= old(effects)@ + Seq::<Effect>::empty());
                        (EscrowProvider::Internal, self.contract)
                    },
                    EscrowProvider::TrustlessWork => {
                        let destination = config.trustless_destination(currency);
                        Self::transfer_currency(
                            effects,
                            config,
                            currency,
                            self.contract,
                            destination,
                            amount,
                        );
                        (EscrowProvider::TrustlessWork, destination)
                    },
                }
            },
            None => {
                assert(effects@ =~= old(effects)@ + Seq::<Effect>::empty());
                (EscrowProvider::Internal, self.contract)
            },
        }
    }

    /// Adds to `effects` the call that pays `amount` of `order`'s escrow to
    /// `recipient`: a transfer from the marketplace where the order's escrow is
    /// internal, a payout by the order's vault where it is external. The
    /// configuration of the moment plays no part beyond naming the payment
    /// token.
    ///
    /// Fails with `NotInitialized`, adding nothing, if there is something to
    /// pay and the marketplace was never initialized.
    pub fn settle_commission_escrow_to(
        &self,
        effects: &mut Vec<Effect>,
        order: &CommissionOrder,
        recipient: Address,
        amount: i128,
    ) -> (done: Result<(), MarketplaceError>)
        ensures
            done == crate::marketplace::validation::checked(self@.settlement_error(amount)),
            done is Ok ==> final(effects)@ == old(effects)@ + self@.settlement_effects(
                order@,
                recipient,
                amount,
            ),
            done is Err ==> final(effects)@ == old(effects)@,
    {
        if amount <= 0 {
            assert(effects@ =~= old(effects)@ + Seq::<Effect>::empty());
            return Ok(());
        }
        let config = match self.config {
            Some(config) => config,
            None => {
                return Err(MarketplaceError::NotInitialized);
            },
        };
        match order.escrow_provider {
            EscrowProvider::Internal => {
                Self::transfer_currency(
                    effects,
                    config,
                    order.currency,
                    self.contract,
                    recipient,
                    amount,
                );
            },
            EscrowProvider::TrustlessWork => {
                effects.push(
                    Effect::VaultPayout {
                        vault: order.escrow_holder,
                        caller: self.contract,
                        token: config.token(order.currency),
                        to: recipient,
                        amount,
                    },
                );
                assert(effects@ =~= old(effects)@ + self@.settlement_effects(
                    order@,
                    recipient,
                    amount,
                ));
            },
        }
        Ok(())
    }
}

} // verus!
