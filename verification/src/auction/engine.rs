//! The auction house: its state and its operations.

use vstd::prelude::*;
use crate::address::Address;
use crate::auction::errors::AuctionError;
use crate::auction::pricing::{
    auction_checked, check_floor, check_outbid, duration_error, floor_error, outbid_error,
    rate_from_report, rate_of, MAX_AUCTION_DURATION, MIN_AUCTION_DURATION,
};
use crate::auction::records::{
    call_views, entry_views, AuctionCall, AuctionCallView, AuctionConfig, AuctionEntry,
    AuctionEntryView, AuctionInfo, AuctionInfoView, BidInfo, OraclePriceData,
};
use crate::currency::{Currency, EscrowProvider};
use crate::effect::Effect;

verus! {

/// The auction house as contracts see it. An auction's identifier is its
/// position in `auctions`.
pub struct AuctionState {
    /// The auction house's own address: it holds auctioned assets and bids.
    pub contract: Address,
    /// `None` until the auction house is initialized.
    pub config: Option<AuctionConfig>,
    pub auctions: Seq<AuctionEntryView>,
}

/// The first of two checks that fails, if either does.
pub open spec fn first_auction_error(
    first: Option<AuctionError>,
    second: Option<AuctionError>,
) -> Option<AuctionError> {
    if first is Some {
        first
    } else {
        second
    }
}

impl AuctionState {
    /// Every auction runs between one hour and thirty days, and only a
    /// finalized auction is settled. Before initialization there is none.
    pub open spec fn wf(self) -> bool {
        &&& forall|i: int|
            0 <= i < self.auctions.len() ==> {
                let info = (#[trigger] self.auctions[i]).info;
                &&& info.start_time <= info.end_time
                &&& MIN_AUCTION_DURATION <= info.end_time - info.start_time
                    <= MAX_AUCTION_DURATION
                &&& info.escrow_settled ==> info.finalized
            }
        &&& self.config is None ==> self.auctions.len() == 0
    }

    /// Why `caller` may not act as the admin, if so.
    pub open spec fn admin_error(self, caller: Address) -> Option<AuctionError> {
        if self.config is None {
            Some(AuctionError::NotInitialized)
        } else if self.config->0.admin != caller {
            Some(AuctionError::NotAdmin)
        } else {
            None
        }
    }

    /// The state with the configuration replaced.
    pub open spec fn with_config(self, config: AuctionConfig) -> AuctionState {
        AuctionState { config: Some(config), ..self }
    }

    /// The state with the auction `auction_id` replaced.
    pub open spec fn with_auction_set(self, auction_id: u64, entry: AuctionEntryView) -> AuctionState {
        AuctionState { auctions: self.auctions.update(auction_id as int, entry), ..self }
    }

    /// The escrow backend that an auction begun now would use.
    pub open spec fn current_escrow_provider(self) -> EscrowProvider {
        match self.config {
            Some(config) => config.escrow_provider,
            None => EscrowProvider::Internal,
        }
    }

    /// The price of one XLM in USDC that a comparison may use, given what the
    /// oracle reported: none where no oracle is configured or it reported
    /// nothing.
    pub open spec fn rate(self, report: Option<OraclePriceData>) -> Option<i128> {
        if self.config is Some && self.config->0.oracle is Some && report is Some {
            Some(rate_of(report->0))
        } else {
            None
        }
    }

    /// Whether a bid in `currency` on the auction `auction_id` is compared with
    /// an amount in the other currency, so that a rate is needed.
    pub open spec fn compares_across_currencies(self, auction_id: u64, currency: Currency) -> bool {
        &&& auction_id < self.auctions.len()
        &&& {
            let entry = self.auctions[auction_id as int];
            ||| entry.info.currency != currency
            ||| entry.highest_bid is Some && entry.highest_bid->0.currency != currency
        }
    }

    /// Why an auction cannot begin, if so.
    pub open spec fn create_error(
        self,
        seller: Address,
        duration_seconds: u64,
        owner: Address,
        now: u64,
    ) -> Option<AuctionError> {
        first_auction_error(
            duration_error(duration_seconds),
            if self.config is None {
                Some(AuctionError::NotInitialized)
            } else if owner != seller {
                Some(AuctionError::SellerNotOwner)
            } else if now + duration_seconds > u64::MAX {
                Some(AuctionError::EndTimeOverflow)
            } else {
                None
            },
        )
    }

    /// Why a bid cannot be placed, if so.
    pub open spec fn bid_error(
        self,
        auction_id: u64,
        amount: i128,
        currency: Currency,
        report: Option<OraclePriceData>,
        now: u64,
    ) -> Option<AuctionError> {
        if auction_id >= self.auctions.len() {
            Some(AuctionError::AuctionNotFound)
        } else {
            let entry = self.auctions[auction_id as int];
            if now > entry.info.end_time {
                Some(AuctionError::AuctionEnded)
            } else if entry.info.finalized {
                Some(AuctionError::AlreadyFinalized)
            } else {
                first_auction_error(
                    floor_error(
                        amount,
                        currency,
                        entry.info.starting_price,
                        entry.info.currency,
                        self.rate(report),
                    ),
                    first_auction_error(
                        match entry.highest_bid {
                            Some(current) => outbid_error(
                                amount,
                                currency,
                                current.amount,
                                current.currency,
                                self.rate(report),
                            ),
                            None => None,
                        },
                        if self.config is None {
                            Some(AuctionError::NotInitialized)
                        } else {
                            None
                        },
                    ),
                )
            }
        }
    }

    /// The transfers of a bid: the outbid bidder gets their bid back in the
    /// currency they bid in, then the new bid goes into custody.
    pub open spec fn bid_effects(
        self,
        auction_id: u64,
        bidder: Address,
        amount: i128,
        currency: Currency,
    ) -> Seq<Effect> {
        let pay_in = Effect::TokenTransfer {
            token: self.config->0.spec_token(currency),
            from: bidder,
            to: self.contract,
            amount,
        };
        match self.auctions[auction_id as int].highest_bid {
            Some(current) => seq![
                Effect::TokenTransfer {
                    token: self.config->0.spec_token(current.currency),
                    from: self.contract,
                    to: current.bidder,
                    amount: current.amount,
                },
                pay_in,
            ],
            None => seq![pay_in],
        }
    }

    /// Why the auction `auction_id` cannot be finalized at `now`, if so.
    pub open spec fn finalize_error(self, auction_id: u64, now: u64) -> Option<AuctionError> {
        if auction_id >= self.auctions.len() {
            Some(AuctionError::AuctionNotFound)
        } else {
            let entry = self.auctions[auction_id as int];
            if now <= entry.info.end_time {
                Some(AuctionError::NotEndedYet)
            } else if entry.info.finalized {
                Some(AuctionError::AlreadyFinalized)
            } else if self.config is None && (entry.highest_bid is Some
                || entry.info.is_item_auction) {
                Some(AuctionError::NotInitialized)
            } else {
                None
            }
        }
    }

    /// Who gets the winning bid of `entry`: the vault of the bid's currency
    /// where the auction began under the external backend, the seller
    /// otherwise.
    pub open spec fn payee(self, entry: AuctionEntryView) -> Address {
        if entry.info.escrow_provider == EscrowProvider::TrustlessWork {
            self.config->0.spec_trustless_destination(entry.highest_bid->0.currency)
        } else {
            entry.info.seller
        }
    }

    /// The transfer of the winning bid of `entry` out of custody to `to`.
    pub open spec fn payout(self, entry: AuctionEntryView, to: Address) -> AuctionCallView {
        AuctionCallView::Plain(
            Effect::TokenTransfer {
                token: self.config->0.spec_token(entry.highest_bid->0.currency),
                from: self.contract,
                to,
                amount: entry.highest_bid->0.amount,
            },
        )
    }

    /// The calls that settle the auction `auction_id`.
    ///
    /// With a winner, an auctioned item goes to the winner and the bid to the
    /// payee; an asset yet to be minted is minted for the winner, and the bid
    /// goes to the vault under the external backend and stays in custody
    /// under the internal one. Without a winner, an auctioned item returns to
    /// the seller.
    pub open spec fn finalize_effects(self, auction_id: u64) -> Seq<AuctionCallView> {
        let entry = self.auctions[auction_id as int];
        let registry = self.config->0.nft_contract;
        match entry.highest_bid {
            Some(winner) => if entry.info.is_item_auction {
                seq![
                    AuctionCallView::Plain(
                        Effect::AssetTransfer {
                            registry,
                            from: self.contract,
                            to: winner.bidder,
                            token_id: entry.info.token_id,
                        },
                    ),
                    self.payout(entry, self.payee(entry)),
                ]
            } else if entry.info.escrow_provider == EscrowProvider::TrustlessWork {
                seq![
                    AuctionCallView::Mint {
                        registry,
                        to: winner.bidder,
                        token_uri: entry.info.token_uri,
                    },
                    self.payout(entry, self.payee(entry)),
                ]
            } else {
                seq![
                    AuctionCallView::Mint {
                        registry,
                        to: winner.bidder,
                        token_uri: entry.info.token_uri,
                    },
                ]
            },
            None => if entry.info.is_item_auction {
                seq![
                    AuctionCallView::Plain(
                        Effect::AssetTransfer {
                            registry,
                            from: self.contract,
                            to: entry.info.seller,
                            token_id: entry.info.token_id,
                        },
                    ),
                ]
            } else {
                Seq::empty()
            },
        }
    }

    /// Whether finalizing `entry` makes its winning bid leave custody.
    pub open spec fn settles(entry: AuctionEntryView) -> bool {
        entry.highest_bid is Some && (entry.info.is_item_auction || entry.info.escrow_provider
            == EscrowProvider::TrustlessWork)
    }

    /// The auction `entry` after it was finalized.
    pub open spec fn finalized(entry: AuctionEntryView) -> AuctionEntryView {
        AuctionEntryView {
            info: AuctionInfoView {
                finalized: true,
                escrow_settled: entry.info.escrow_settled || Self::settles(entry),
                ..entry.info
            },
            ..entry
        }
    }
}

/// The auction house.
#[derive(Debug)]
pub struct ShimejiAuction {
    pub contract: Address,
    pub config: Option<AuctionConfig>,
    pub auctions: Vec<AuctionEntry>,
}

impl View for ShimejiAuction {
    type V = AuctionState;

    open spec fn view(&self) -> AuctionState {
        AuctionState {
            contract: self.contract,
            config: self.config,
            auctions: entry_views(self.auctions@),
        }
    }
}

impl ShimejiAuction {
    /// The auction house deployed at `contract`, not yet initialized.
    pub fn new(contract: Address) -> (house: ShimejiAuction)
        ensures
            house@.contract == contract,
            house@.config is None,
            house@.auctions.len() == 0,
            house@.wf(),
    {
        ShimejiAuction { contract, config: None, auctions: Vec::new() }
    }

    /// Sets the admin, the asset registry and the two payment tokens. The
    /// escrow backend starts as the internal one, both vault addresses start
    /// as the admin, and no oracle is configured.
    ///
    /// Fails with `AlreadyInitialized` on every call but the first.
    pub fn initialize(
        &mut self,
        admin: Address,
        nft_contract: Address,
        usdc_token: Address,
        xlm_token: Address,
    ) -> (done: Result<(), AuctionError>)
        ensures
            match done {
                Ok(()) => old(self)@.config is None && final(self)@ == old(self)@.with_config(
                    AuctionConfig {
                        admin,
                        nft_contract,
                        usdc_token,
                        xlm_token,
                        escrow_provider: EscrowProvider::Internal,
                        trustless_escrow_xlm: admin,
                        trustless_escrow_usdc: admin,
                        oracle: None,
                    },
                ),
                Err(e) => old(self)@.config is Some && e == AuctionError::AlreadyInitialized
                    && final(self)@ == old(self)@,
            },
            old(self)@.wf() ==> final(self)@.wf(),
    {
        if self.config.is_some() {
            return Err(AuctionError::AlreadyInitialized);
        }
        self.config = Some(
            AuctionConfig {
                admin,
                nft_contract,
                usdc_token,
                xlm_token,
                escrow_provider: EscrowProvider::Internal,
                trustless_escrow_xlm: admin,
                trustless_escrow_usdc: admin,
                oracle: None,
            },
        );
        Ok(())
    }

    /// The configuration, once `caller` is known to be the admin.
    pub fn require_admin(&self, caller: Address) -> (config: Result<AuctionConfig, AuctionError>)
        ensures
            match config {
                Ok(c) => self@.admin_error(caller) is None && self@.config == Some(c),
                Err(e) => self@.admin_error(caller) == Some(e),
            },
    {
        match self.config {
            None => Err(AuctionError::NotInitialized),
            Some(config) => {
                if config.admin != caller {
                    Err(AuctionError::NotAdmin)
                } else {
                    Ok(config)
                }
            },
        }
    }

    /// Names the price oracle. Only the admin may do this.
    pub fn configure_oracle(&mut self, caller: Address, oracle: Address) -> (done: Result<
        (),
        AuctionError,
    >)
        ensures
            match done {
                Ok(()) => old(self)@.admin_error(caller) is None && final(self)@
                    == old(self)@.with_config(
                    AuctionConfig { oracle: Some(oracle), ..old(self)@.config->0 },
                ),
                Err(e) => old(self)@.admin_error(caller) == Some(e) && final(self)@ == old(self)@,
            },
            old(self)@.wf() ==> final(self)@.wf(),
    {
        match self.require_admin(caller) {
            Err(e) => Err(e),
            Ok(config) => {
                self.config = Some(AuctionConfig { oracle: Some(oracle), ..config });
                Ok(())
            },
        }
    }

    /// Makes the sellers of auctions begun from now on get the winning bids
    /// directly. Only the admin may do this.
    pub fn configure_internal_escrow(&mut self, caller: Address) -> (done: Result<(), AuctionError>)
        ensures
            match done {
                Ok(()) => old(self)@.admin_error(caller) is None && final(self)@
                    == old(self)@.with_config(
                    AuctionConfig {
                        escrow_provider: EscrowProvider::Internal,
                        ..old(self)@.config->0
                    },
                ),
                Err(e) => old(self)@.admin_error(caller) == Some(e) && final(self)@ == old(self)@,
            },
            old(self)@.wf() ==> final(self)@.wf(),
    {
        match self.require_admin(caller) {
            Err(e) => Err(e),
            Ok(config) => {
                self.config = Some(
                    AuctionConfig { escrow_provider: EscrowProvider::Internal, ..config },
                );
                Ok(())
            },
        }
    }

    /// Makes the given vaults, one for each currency, get the winning bids of
    /// auctions begun from now on. Only the admin may do this.
    pub fn configure_trustless_escrow(
        &mut self,
        caller: Address,
        xlm_destination: Address,
        usdc_destination: Address,
    ) -> (done: Result<(), AuctionError>)
        ensures
            match done {
                Ok(()) => old(self)@.admin_error(caller) is None && final(self)@
                    == old(self)@.with_config(
                    AuctionConfig {
                        escrow_provider: EscrowProvider::TrustlessWork,
                        trustless_escrow_xlm: xlm_destination,
                        trustless_escrow_usdc: usdc_destination,
                        ..old(self)@.config->0
                    },
                ),
                Err(e) => old(self)@.admin_error(caller) == Some(e) && final(self)@ == old(self)@,
            },
            old(self)@.wf() ==> final(self)@.wf(),
    {
        match self.require_admin(caller) {
            Err(e) => Err(e),
            Ok(config) => {
                self.config = Some(
                    AuctionConfig {
                        escrow_provider: EscrowProvider::TrustlessWork,
                        trustless_escrow_xlm: xlm_destination,
                        trustless_escrow_usdc: usdc_destination,
                        ..config
                    },
                );
                Ok(())
            },
        }
    }

    /// The escrow backend that an auction begun now would use: the internal
    /// one until the admin chooses otherwise.
    pub fn current_escrow_provider(&self) -> (provider: EscrowProvider)
        ensures
            provider == self@.current_escrow_provider(),
    {
        match self.config {
            Some(config) => config.escrow_provider,
            None => EscrowProvider::Internal,
        }
    }

    /// The escrow backend that an auction begun now would use.
    pub fn get_escrow_provider(&self) -> (provider: EscrowProvider)
        ensures
            provider == self@.current_escrow_provider(),
    {
        self.current_escrow_provider()
    }

    /// The vault configured for `currency`.
    pub fn trustless_escrow_destination(&self, currency: Currency) -> (vault: Result<
        Address,
        AuctionError,
    >)
        ensures
            match vault {
                Ok(v) => self@.config is Some && v == self@.config->0.spec_trustless_destination(
                    currency,
                ),
                Err(e) => self@.config is None && e == AuctionError::NotInitialized,
            },
    {
        match self.config {
            Some(config) => Ok(config.trustless_destination(currency)),
            None => Err(AuctionError::NotInitialized),
        }
    }

    /// The vaults configured for XLM and for USDC, in that order.
    pub fn get_trustless_escrow_dests(&self) -> (vaults: Result<(Address, Address), AuctionError>)
        ensures
            match vaults {
                Ok((xlm, usdc)) => {
                    &&& self@.config is Some
                    &&& xlm == self@.config->0.trustless_escrow_xlm
                    &&& usdc == self@.config->0.trustless_escrow_usdc
                },
                Err(e) => self@.config is None && e == AuctionError::NotInitialized,
            },
    {
        match self.config {
            Some(config) => Ok((config.trustless_escrow_xlm, config.trustless_escrow_usdc)),
            None => Err(AuctionError::NotInitialized),
        }
    }

    /// The asset registry that holds the auctioned assets.
    pub fn nft_contract(&self) -> (registry: Result<Address, AuctionError>)
        ensures
            match registry {
                Ok(r) => self@.config is Some && r == self@.config->0.nft_contract,
                Err(e) => self@.config is None && e == AuctionError::NotInitialized,
            },
    {
        match self.config {
            Some(config) => Ok(config.nft_contract),
            None => Err(AuctionError::NotInitialized),
        }
    }

    /// Accepts a duration of one hour to thirty days.
    pub fn validate_auction_duration(duration_seconds: u64) -> (ok: Result<(), AuctionError>)
        ensures
            ok == auction_checked(duration_error(duration_seconds)),
    {
        if duration_seconds < MIN_AUCTION_DURATION {
            return Err(AuctionError::DurationTooShort);
        }
        if duration_seconds > MAX_AUCTION_DURATION {
            return Err(AuctionError::DurationTooLong);
        }
        Ok(())
    }

    /// The price of one XLM in USDC that a comparison may use, given the
    /// oracle's last report: none where no oracle is configured or it reported
    /// nothing.
    pub fn get_xlm_usdc_rate(&self, report: Option<OraclePriceData>) -> (rate: Option<i128>)
        ensures
            rate == self@.rate(report),
    {
        let config = match self.config {
            Some(config) => config,
            None => {
                return None;
            },
        };
        if config.oracle.is_none() {
            return None;
        }
        match report {
            Some(report) => Some(rate_from_report(report)),
            None => None,
        }
    }

    /// Whether a bid in `currency` on the auction `auction_id` is compared with
    /// an amount in the other currency. Where it is, the host asks the oracle
    /// before it places the bid.
    pub fn compares_across_currencies(&self, auction_id: u64, currency: Currency) -> (across: bool)
        ensures
            across == self@.compares_across_currencies(auction_id, currency),
    {
        if auction_id >= self.auctions.len() as u64 {
            return false;
        }
        let index: usize = auction_id as usize;
        if self.auctions[index].info.currency != currency {
            return true;
        }
        match self.auctions[index].highest_bid {
            Some(current) => current.currency != currency,
            None => false,
        }
    }

    /// Begins an auction of the asset `token_id` at `now`, to run for
    /// `duration_seconds`. `owner` and `token_uri` are the asset's owner and
    /// metadata reference as the registry gives them at this moment. The asset
    /// goes into custody, and the auction keeps the escrow backend configured
    /// now. Returns the auction's identifier and the call to make.
    ///
    /// Fails if the duration is not one hour to thirty days, then if the
    /// seller does not own the asset, then if the end time cannot be held.
    pub fn create_item_auction(
        &mut self,
        seller: Address,
        token_id: u64,
        starting_price: i128,
        currency: Currency,
        duration_seconds: u64,
        owner: Address,
        token_uri: String,
        now: u64,
    ) -> (created: Result<(u64, Vec<Effect>), AuctionError>)
        ensures
            match created {
                Ok((auction_id, effects)) => {
                    &&& old(self)@.create_error(seller, duration_seconds, owner, now) is None
                    &&& auction_id == old(self)@.auctions.len()
                    &&& effects@ == seq![
                        Effect::AssetTransfer {
                            registry: old(self)@.config->0.nft_contract,
                            from: seller,
                            to: old(self)@.contract,
                            token_id,
                        },
                    ]
                    &&& final(self)@ == (AuctionState {
                        auctions: old(self)@.auctions.push(
                            AuctionEntryView {
                                info: AuctionInfoView {
                                    token_uri: token_uri@,
                                    is_item_auction: true,
                                    seller,
                                    token_id,
                                    start_time: now,
                                    end_time: (now + duration_seconds) as u64,
                                    starting_price,
                                    currency,
                                    finalized: false,
                                    escrow_provider: old(self)@.current_escrow_provider(),
                                    escrow_settled: false,
                                },
                                highest_bid: None,
                            },
                        ),
                        ..old(self)@
                    })
                },
                Err(e) => {
                    &&& old(self)@.create_error(seller, duration_seconds, owner, now) == Some(e)
                    &&& final(self)@ == old(self)@
                },
            },
            old(self)@.wf() ==> final(self)@.wf(),
    {
        match Self::validate_auction_duration(duration_seconds) {
            Err(e) => {
                return Err(e);
            },
            Ok(()) => {},
        }
        let config = match self.config {
            Some(config) => config,
            None => {
                return Err(AuctionError::NotInitialized);
            },
        };
        if owner != seller {
            return Err(AuctionError::SellerNotOwner);
        }
        let end_time: u64 = match now.checked_add(duration_seconds) {
            Some(end_time) => end_time,
            None => {
                return Err(AuctionError::EndTimeOverflow);
            },
        };
        let mut effects: Vec<Effect> = Vec::new();
        effects.push(
            Effect::AssetTransfer {
                registry: config.nft_contract,
                from: seller,
                to: self.contract,
                token_id,
            },
        );
        let auction_id: u64 = self.auctions.len() as u64;
        let entry = AuctionEntry {
            info: AuctionInfo {
                token_uri,
                is_item_auction: true,
                seller,
                token_id,
                start_time: now,
                end_time,
                starting_price,
                currency,
                finalized: false,
                escrow_provider: config.escrow_provider,
                escrow_settled: false,
            },
            highest_bid: None,
        };
        let ghost begun = entry@;
        self.auctions.push(entry);
        proof {
            assert(self@.auctions =~= old(self)@.auctions.push(begun));
            assert(effects@ =~= seq![
                Effect::AssetTransfer {
                    registry: config.nft_contract,
                    from: seller,
                    to: old(self)@.contract,
                    token_id,
                },
            ]);
        }
        Ok((auction_id, effects))
    }

    /// Places a bid of `amount` in `currency` on the auction `auction_id` at
    /// `now`. `report` is the oracle's last report, if the host asked for one.
    /// The bid goes into custody; the bidder it outbids gets theirs back.
    ///
    /// Fails if the auction is unknown, over or finalized; if the bid is below
    /// the starting price; or if it does not exceed the highest bid by five
    /// percent. Across currencies both sides are compared by their worth in
    /// USDC, which fails without a rate.
    pub fn place_bid(
        &mut self,
        auction_id: u64,
        bidder: Address,
        amount: i128,
        currency: Currency,
        report: Option<OraclePriceData>,
        now: u64,
    ) -> (placed: Result<Vec<Effect>, AuctionError>)
        ensures
            match placed {
                Ok(effects) => {
                    &&& old(self)@.bid_error(auction_id, amount, currency, report, now) is None
                    &&& effects@ == old(self)@.bid_effects(auction_id, bidder, amount, currency)
                    &&& final(self)@ == old(self)@.with_auction_set(
                        auction_id,
                        AuctionEntryView {
                            highest_bid: Some(BidInfo { bidder, amount, currency }),
                            ..old(self)@.auctions[auction_id as int]
                        },
                    )
                },
                Err(e) => {
                    &&& old(self)@.bid_error(auction_id, amount, currency, report, now) == Some(e)
                    &&& final(self)@ == old(self)@
                },
            },
            old(self)@.wf() ==> final(self)@.wf(),
    {
        if auction_id >= self.auctions.len() as u64 {
            return Err(AuctionError::AuctionNotFound);
        }
        let index: usize = auction_id as usize;
        if now > self.auctions[index].info.end_time {
            return Err(AuctionError::AuctionEnded);
        }
        if self.auctions[index].info.finalized {
            return Err(AuctionError::AlreadyFinalized);
        }
        let rate = self.get_xlm_usdc_rate(report);
        match check_floor(
            amount,
            currency,
            self.auctions[index].info.starting_price,
            self.auctions[index].info.currency,
            rate,
        ) {
            Err(e) => {
                return Err(e);
            },
            Ok(()) => {},
        }
        let current_bid = self.auctions[index].highest_bid;
        match current_bid {
            Some(current) => {
                match check_outbid(amount, currency, current.amount, current.currency, rate) {
                    Err(e) => {
                        return Err(e);
                    },
                    Ok(()) => {},
                }
            },
            None => {},
        }
        let config = match self.config {
            Some(config) => config,
            None => {
                return Err(AuctionError::NotInitialized);
            },
        };
        let mut effects: Vec<Effect> = Vec::new();
        match current_bid {
            Some(current) => {
                effects.push(
                    Effect::TokenTransfer {
                        token: config.token(current.currency),
                        from: self.contract,
                        to: current.bidder,
                        amount: current.amount,
                    },
                );
            },
            None => {},
        }
        effects.push(
            Effect::TokenTransfer {
                token: config.token(currency),
                from: bidder,
                to: self.contract,
                amount,
            },
        );
        self.auctions[index].highest_bid = Some(BidInfo { bidder, amount, currency });
        proof {
            assert(effects@ =~= old(self)@.bid_effects(auction_id, bidder, amount, currency));
            assert(self@.auctions =~= old(self)@.auctions.update(
                auction_id as int,
                AuctionEntryView {
                    highest_bid: Some(BidInfo { bidder, amount, currency }),
                    ..old(self)@.auctions[auction_id as int]
                },
            ));
        }
        Ok(effects)
    }

    /// Places a bid in XLM.
    pub fn bid_xlm(
        &mut self,
        auction_id: u64,
        bidder: Address,
        amount: i128,
        report: Option<OraclePriceData>,
        now: u64,
    ) -> (placed: Result<Vec<Effect>, AuctionError>)
        ensures
            match placed {
                Ok(effects) => {
                    &&& old(self)@.bid_error(auction_id, amount, Currency::Xlm, report, now) is None
                    &&& effects@ == old(self)@.bid_effects(
                        auction_id,
                        bidder,
                        amount,
                        Currency::Xlm,
                    )
                    &&& final(self)@ == old(self)@.with_auction_set(
                        auction_id,
                        AuctionEntryView {
                            highest_bid: Some(BidInfo { bidder, amount, currency: Currency::Xlm }),
                            ..old(self)@.auctions[auction_id as int]
                        },
                    )
                },
                Err(e) => {
                    &&& old(self)@.bid_error(auction_id, amount, Currency::Xlm, report, now)
                        == Some(e)
                    &&& final(self)@ == old(self)@
                },
            },
            old(self)@.wf() ==> final(self)@.wf(),
    {
        self.place_bid(auction_id, bidder, amount, Currency::Xlm, report, now)
    }

    /// Places a bid in USDC.
    pub fn bid_usdc(
        &mut self,
        auction_id: u64,
        bidder: Address,
        amount: i128,
        report: Option<OraclePriceData>,
        now: u64,
    ) -> (placed: Result<Vec<Effect>, AuctionError>)
        ensures
            match placed {
                Ok(effects) => {
                    &&& old(self)@.bid_error(auction_id, amount, Currency::Usdc, report, now)
                        is None
                    &&& effects@ == old(self)@.bid_effects(
                        auction_id,
                        bidder,
                        amount,
                        Currency::Usdc,
                    )
                    &&& final(self)@ == old(self)@.with_auction_set(
                        auction_id,
                        AuctionEntryView {
                            highest_bid: Some(BidInfo { bidder, amount, currency: Currency::Usdc }),
                            ..old(self)@.auctions[auction_id as int]
                        },
                    )
                },
                Err(e) => {
                    &&& old(self)@.bid_error(auction_id, amount, Currency::Usdc, report, now)
                        == Some(e)
                    &&& final(self)@ == old(self)@
                },
            },
            old(self)@.wf() ==> final(self)@.wf(),
    {
        self.place_bid(auction_id, bidder, amount, Currency::Usdc, report, now)
    }

    /// Finalizes the auction `auction_id` once its time is up; anybody may.
    /// The winner gets the asset and the payee the winning bid; without a bid,
    /// an auctioned item returns to the seller.
    ///
    /// Fails if the auction is unknown, if `now` is not after its end, or if
    /// it is finalized already.
    pub fn finalize(&mut self, auction_id: u64, now: u64) -> (done: Result<
        Vec<AuctionCall>,
        AuctionError,
    >)
        ensures
            match done {
                Ok(calls) => {
                    &&& old(self)@.finalize_error(auction_id, now) is None
                    &&& call_views(calls@) == old(self)@.finalize_effects(auction_id)
                    &&& final(self)@ == old(self)@.with_auction_set(
                        auction_id,
                        AuctionState::finalized(old(self)@.auctions[auction_id as int]),
                    )
                },
                Err(e) => {
                    &&& old(self)@.finalize_error(auction_id, now) == Some(e)
                    &&& final(self)@ == old(self)@
                },
            },
            old(self)@.wf() ==> final(self)@.wf(),
    {
        if auction_id >= self.auctions.len() as u64 {
            return Err(AuctionError::AuctionNotFound);
        }
        let index: usize = auction_id as usize;
        if now <= self.auctions[index].info.end_time {
            return Err(AuctionError::NotEndedYet);
        }
        if self.auctions[index].info.finalized {
            return Err(AuctionError::AlreadyFinalized);
        }
        let is_item_auction = self.auctions[index].info.is_item_auction;
        let seller = self.auctions[index].info.seller;
        let token_id: u64 = self.auctions[index].info.token_id;
        let trustless = self.auctions[index].info.escrow_provider == EscrowProvider::TrustlessWork;
        let mut calls: Vec<AuctionCall> = Vec::new();
        let mut settled = false;
        match self.auctions[index].highest_bid {
            Some(winner) => {
                let config = match self.config {
                    Some(config) => config,
                    None => {
                        return Err(AuctionError::NotInitialized);
                    },
                };
                let payee = if trustless {
                    config.trustless_destination(winner.currency)
                } else {
                    seller
                };
                let payout = Effect::TokenTransfer {
                    token: config.token(winner.currency),
                    from: self.contract,
                    to: payee,
                    amount: winner.amount,
                };
                if is_item_auction {
                    calls.push(
                        AuctionCall::Plain(
                            Effect::AssetTransfer {
                                registry: config.nft_contract,
                                from: self.contract,
                                to: winner.bidder,
                                token_id,
                            },
                        ),
                    );
                    calls.push(AuctionCall::Plain(payout));
                    settled = true;
                } else {
                    calls.push(
                        AuctionCall::Mint {
                            registry: config.nft_contract,
                            to: winner.bidder,
                            token_uri: self.auctions[index].info.token_uri.clone(),
                        },
                    );
                    if trustless {
                        calls.push(AuctionCall::Plain(payout));
                        settled = true;
                    }
                }
            },
            None => {
                if is_item_auction {
                    let config = match self.config {
                        Some(config) => config,
                        None => {
                            return Err(AuctionError::NotInitialized);
                        },
                    };
                    calls.push(
                        AuctionCall::Plain(
                            Effect::AssetTransfer {
                                registry: config.nft_contract,
                                from: self.contract,
                                to: seller,
                                token_id,
                            },
                        ),
                    );
                }
            },
        }
        self.auctions[index].info.finalized = true;
        if settled {
            self.auctions[index].info.escrow_settled = true;
        }
        proof {
            assert(call_views(calls@) =~= old(self)@.finalize_effects(auction_id));
            assert(self@.auctions =~= old(self)@.auctions.update(
                auction_id as int,
                AuctionState::finalized(old(self)@.auctions[auction_id as int]),
            ));
        }
        Ok(calls)
    }

    /// Takes `amount` of `currency` out of custody for the admin. Only the
    /// admin may do this.
    pub fn withdraw(&self, caller: Address, currency: Currency, amount: i128) -> (taken: Result<
        Effect,
        AuctionError,
    >)
        ensures
            match taken {
                Ok(effect) => {
                    &&& self@.admin_error(caller) is None
                    &&& effect == (Effect::TokenTransfer {
                        token: self@.config->0.spec_token(currency),
                        from: self@.contract,
                        to: caller,
                        amount,
                    })
                },
                Err(e) => self@.admin_error(caller) == Some(e),
            },
    {
        match self.require_admin(caller) {
            Err(e) => Err(e),
            Ok(config) => Ok(
                Effect::TokenTransfer {
                    token: config.token(currency),
                    from: self.contract,
                    to: config.admin,
                    amount,
                },
            ),
        }
    }

    /// Takes `amount` of XLM out of custody for the admin.
    pub fn withdraw_xlm(&self, caller: Address, amount: i128) -> (taken: Result<
        Effect,
        AuctionError,
    >)
        ensures
            match taken {
                Ok(effect) => {
                    &&& self@.admin_error(caller) is None
                    &&& effect == (Effect::TokenTransfer {
                        token: self@.config->0.xlm_token,
                        from: self@.contract,
                        to: caller,
                        amount,
                    })
                },
                Err(e) => self@.admin_error(caller) == Some(e),
            },
    {
        self.withdraw(caller, Currency::Xlm, amount)
    }

    /// Takes `amount` of USDC out of custody for the admin.
    pub fn withdraw_usdc(&self, caller: Address, amount: i128) -> (taken: Result<
        Effect,
        AuctionError,
    >)
        ensures
            match taken {
                Ok(effect) => {
                    &&& self@.admin_error(caller) is None
                    &&& effect == (Effect::TokenTransfer {
                        token: self@.config->0.usdc_token,
                        from: self@.contract,
                        to: caller,
                        amount,
                    })
                },
                Err(e) => self@.admin_error(caller) == Some(e),
            },
    {
        self.withdraw(caller, Currency::Usdc, amount)
    }

    /// The auction with the given identifier.
    pub fn get_auction(&self, auction_id: u64) -> (auction: Result<AuctionInfo, AuctionError>)
        ensures
            match auction {
                Ok(a) => auction_id < self@.auctions.len() && a@
                    == self@.auctions[auction_id as int].info,
                Err(e) => auction_id >= self@.auctions.len() && e == AuctionError::AuctionNotFound,
            },
    {
        if auction_id < self.auctions.len() as u64 {
            Ok(self.auctions[auction_id as usize].info.clone())
        } else {
            Err(AuctionError::AuctionNotFound)
        }
    }

    /// The highest bid on the auction with the given identifier.
    ///
    /// Fails with `NoBids` if there is no bid on it, or no such auction.
    pub fn get_highest_bid(&self, auction_id: u64) -> (bid: Result<BidInfo, AuctionError>)
        ensures
            match bid {
                Ok(b) => auction_id < self@.auctions.len()
                    && self@.auctions[auction_id as int].highest_bid == Some(b),
                Err(e) => e == AuctionError::NoBids && (auction_id >= self@.auctions.len()
                    || self@.auctions[auction_id as int].highest_bid is None),
            },
    {
        if auction_id >= self.auctions.len() as u64 {
            return Err(AuctionError::NoBids);
        }
        match self.auctions[auction_id as usize].highest_bid {
            Some(bid) => Ok(bid),
            None => Err(AuctionError::NoBids),
        }
    }

    /// How many auctions were ever begun.
    pub fn total_auctions(&self) -> (n: u64)
        ensures
            n == self@.auctions.len(),
    {
        self.auctions.len() as u64
    }
}

} // verus!
