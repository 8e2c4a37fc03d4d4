//! Buyer-posted commissions: a buyer escrows the price of a work, the admin
//! assigns an artist, the artist delivers, the buyer approves and the artist
//! is paid; or the commission is cancelled and the buyer refunded.

use vstd::prelude::*;
use crate::address::Address;
use crate::currency::Currency;
use crate::effect::Effect;
use crate::error::ErrorKind;
use crate::text::{byte_len, byte_length, is_blank};

verus! {

/// The longest intention, in bytes, that a commission may carry.
pub const MAX_INTENTION_LEN: usize = 500;

/// The longest reference-image link, in bytes.
pub const MAX_REF_IMAGE_LEN: usize = 512;

/// The stages of a commission.
///
/// `Open` leads to `Accepted`, that to `Delivered`, that to `Completed`;
/// `Open` and `Accepted` also lead to `Cancelled`. `Completed` and `Cancelled`
/// are final.
#[derive(Clone, Copy, Debug, PartialEq, Eq, Structural, Hash)]
pub enum CommissionStatus {
    /// Posted by the buyer; no artist yet.
    Open,
    /// An artist is assigned; the payment is still in escrow.
    Accepted,
    /// The artist has delivered; the buyer has yet to approve.
    Delivered,
    /// The buyer has approved and the artist is paid.
    Completed,
    /// Cancelled; the buyer is refunded.
    Cancelled,
}

/// Each way in which a commission operation can fail.
#[derive(Clone, Copy, Debug, PartialEq, Eq, Structural, Hash)]
pub enum CommissionError {
    AlreadyInitialized,
    NotInitialized,
    NotAdmin,
    IntentionEmpty,
    IntentionTooLong,
    ReferenceImageTooLong,
    PriceXlmNotPositive,
    PriceUsdcNotPositive,
    RateNotPositive,
    CommissionNotFound,
    NotOpen,
    NotAccepted,
    NotAssignedArtist,
    NotDelivered,
    NotBuyer,
    OpenCancelNotAllowed,
    AcceptedCancelNotAllowed,
    NotCancellable,
}

impl CommissionError {
    /// The class of this failure.
    pub open spec fn spec_kind(self) -> ErrorKind {
        match self {
            CommissionError::AlreadyInitialized => ErrorKind::AlreadyInitialized,
            CommissionError::CommissionNotFound => ErrorKind::NotFound,
            CommissionError::NotAdmin
            | CommissionError::NotAssignedArtist
            | CommissionError::NotBuyer
            | CommissionError::OpenCancelNotAllowed
            | CommissionError::AcceptedCancelNotAllowed => ErrorKind::Unauthorized,
            CommissionError::IntentionEmpty
            | CommissionError::IntentionTooLong
            | CommissionError::ReferenceImageTooLong
            | CommissionError::PriceXlmNotPositive
            | CommissionError::PriceUsdcNotPositive
            | CommissionError::RateNotPositive => ErrorKind::Validation,
            CommissionError::NotInitialized
            | CommissionError::NotOpen
            | CommissionError::NotAccepted
            | CommissionError::NotDelivered
            | CommissionError::NotCancellable => ErrorKind::InvalidState,
        }
    }

    /// The class of this failure.
    #[verifier::when_used_as_spec(spec_kind)]
    pub fn kind(self) -> (k: ErrorKind)
        ensures
            k == self.spec_kind(),
    {
        match self {
            CommissionError::AlreadyInitialized => ErrorKind::AlreadyInitialized,
            CommissionError::CommissionNotFound => ErrorKind::NotFound,
            CommissionError::NotAdmin
            | CommissionError::NotAssignedArtist
            | CommissionError::NotBuyer
            | CommissionError::OpenCancelNotAllowed
            | CommissionError::AcceptedCancelNotAllowed => ErrorKind::Unauthorized,
            CommissionError::IntentionEmpty
            | CommissionError::IntentionTooLong
            | CommissionError::ReferenceImageTooLong
            | CommissionError::PriceXlmNotPositive
            | CommissionError::PriceUsdcNotPositive
            | CommissionError::RateNotPositive => ErrorKind::Validation,
            CommissionError::NotInitialized
            | CommissionError::NotOpen
            | CommissionError::NotAccepted
            | CommissionError::NotDelivered
            | CommissionError::NotCancellable => ErrorKind::InvalidState,
        }
    }

    /// The stable text by which callers recognise this failure.
    pub open spec fn spec_message(self) -> Seq<char> {
        match self {
            CommissionError::AlreadyInitialized => "already initialized"@,
            CommissionError::NotInitialized => "not initialized"@,
            CommissionError::NotAdmin => "only the admin can assign an artist"@,
            CommissionError::IntentionEmpty => "intention cannot be empty"@,
            CommissionError::IntentionTooLong => "intention too long"@,
            CommissionError::ReferenceImageTooLong => "reference_image url too long"@,
            CommissionError::PriceXlmNotPositive => "price_xlm must be positive"@,
            CommissionError::PriceUsdcNotPositive => "price_usdc must be positive"@,
            CommissionError::RateNotPositive => "xlm_usdc_rate must be positive"@,
            CommissionError::CommissionNotFound => "commission does not exist"@,
            CommissionError::NotOpen => "commission is not open"@,
            CommissionError::NotAccepted => "commission is not in accepted state"@,
            CommissionError::NotAssignedArtist =>
                "only the assigned artist can mark this commission as delivered"@,
            CommissionError::NotDelivered => "commission has not been marked as delivered yet"@,
            CommissionError::NotBuyer => "only the buyer can approve delivery"@,
            CommissionError::OpenCancelNotAllowed =>
                "only the buyer or admin can cancel an open commission"@,
            CommissionError::AcceptedCancelNotAllowed =>
                "only admin can cancel an accepted commission (dispute)"@,
            CommissionError::NotCancellable =>
                "commission cannot be cancelled in its current state"@,
        }
    }

    /// The stable text by which callers recognise this failure.
    pub fn message(self) -> (text: &'static str)
        ensures
            text@ == self.spec_message(),
    {
        match self {
            CommissionError::AlreadyInitialized => "already initialized",
            CommissionError::NotInitialized => "not initialized",
            CommissionError::NotAdmin => "only the admin can assign an artist",
            CommissionError::IntentionEmpty => "intention cannot be empty",
            CommissionError::IntentionTooLong => "intention too long",
            CommissionError::ReferenceImageTooLong => "reference_image url too long",
            CommissionError::PriceXlmNotPositive => "price_xlm must be positive",
            CommissionError::PriceUsdcNotPositive => "price_usdc must be positive",
            CommissionError::RateNotPositive => "xlm_usdc_rate must be positive",
            CommissionError::CommissionNotFound => "commission does not exist",
            CommissionError::NotOpen => "commission is not open",
            CommissionError::NotAccepted => "commission is not in accepted state",
            CommissionError::NotAssignedArtist =>
                "only the assigned artist can mark this commission as delivered",
            CommissionError::NotDelivered => "commission has not been marked as delivered yet",
            CommissionError::NotBuyer => "only the buyer can approve delivery",
            CommissionError::OpenCancelNotAllowed =>
                "only the buyer or admin can cancel an open commission",
            CommissionError::AcceptedCancelNotAllowed =>
                "only admin can cancel an accepted commission (dispute)",
            CommissionError::NotCancellable =>
                "commission cannot be cancelled in its current state",
        }
    }
}

/// What the commission desk is told when it is initialized.
#[derive(Clone, Copy, Debug, PartialEq, Eq, Structural)]
pub struct CommissionConfig {
    pub admin: Address,
    pub usdc_token: Address,
    pub xlm_token: Address,
}

impl CommissionConfig {
    /// The payment-token contract of `currency`.
    pub open spec fn spec_token(self, currency: Currency) -> Address {
        match currency {
            Currency::Xlm => self.xlm_token,
            Currency::Usdc => self.usdc_token,
        }
    }

    /// The payment-token contract of `currency`.
    #[verifier::when_used_as_spec(spec_token)]
    pub fn token(self, currency: Currency) -> (token: Address)
        ensures
            token == self.spec_token(currency),
    {
        match currency {
            Currency::Xlm => self.xlm_token,
            Currency::Usdc => self.usdc_token,
        }
    }
}

/// A buyer's request for a work, with the price they escrowed.
#[derive(Debug, PartialEq, Eq)]
pub struct CommissionRequest {
    pub buyer: Address,
    pub intention: String,
    /// A link to a reference image; empty where the buyer gave none.
    pub reference_image: String,
    pub price_xlm: i128,
    pub price_usdc: i128,
    pub xlm_usdc_rate: i128,
    /// The currency in which the buyer paid.
    pub currency: Currency,
    pub status: CommissionStatus,
    /// The placeholder asset minted for this commission; 0 until an artist is
    /// assigned.
    pub token_id: u64,
    /// The artist, once one is assigned.
    pub artist: Option<Address>,
    pub created_at: u64,
}

/// A commission as contracts see it.
pub struct CommissionRequestView {
    pub buyer: Address,
    pub intention: Seq<char>,
    pub reference_image: Seq<char>,
    pub price_xlm: i128,
    pub price_usdc: i128,
    pub xlm_usdc_rate: i128,
    pub currency: Currency,
    pub status: CommissionStatus,
    pub token_id: u64,
    pub artist: Option<Address>,
    pub created_at: u64,
}

impl View for CommissionRequest {
    type V = CommissionRequestView;

    open spec fn view(&self) -> CommissionRequestView {
        CommissionRequestView {
            buyer: self.buyer,
            intention: self.intention@,
            reference_image: self.reference_image@,
            price_xlm: self.price_xlm,
            price_usdc: self.price_usdc,
            xlm_usdc_rate: self.xlm_usdc_rate,
            currency: self.currency,
            status: self.status,
            token_id: self.token_id,
            artist: self.artist,
            created_at: self.created_at,
        }
    }
}

impl Clone for CommissionRequest {
    fn clone(&self) -> (copy: CommissionRequest)
        ensures
            copy@ == self@,
    {
        CommissionRequest {
            buyer: self.buyer,
            intention: self.intention.clone(),
            reference_image: self.reference_image.clone(),
            price_xlm: self.price_xlm,
            price_usdc: self.price_usdc,
            xlm_usdc_rate: self.xlm_usdc_rate,
            currency: self.currency,
            status: self.status,
            token_id: self.token_id,
            artist: self.artist,
            created_at: self.created_at,
        }
    }
}

impl CommissionRequestView {
    /// What the buyer escrowed: the price in the currency they paid in.
    pub open spec fn escrowed(self) -> i128 {
        match self.currency {
            Currency::Xlm => self.price_xlm,
            Currency::Usdc => self.price_usdc,
        }
    }

    /// What holds of every commission: it has an artist from the moment it is
    /// accepted until it is completed, and its texts and prices are those that
    /// a request may carry.
    pub open spec fn wf(self) -> bool {
        &&& self.status == CommissionStatus::Open ==> self.artist is None
        &&& self.status == CommissionStatus::Accepted || self.status == CommissionStatus::Delivered
            || self.status == CommissionStatus::Completed ==> self.artist is Some
        &&& request_error(
            self.intention,
            self.reference_image,
            self.price_xlm,
            self.price_usdc,
            self.xlm_usdc_rate,
        ) is None
    }
}

/// The views of a run of commissions, in order.
pub open spec fn commission_views(commissions: Seq<CommissionRequest>) -> Seq<
    CommissionRequestView,
> {
    Seq::new(commissions.len(), |i: int| commissions[i]@)
}

/// Why a commission cannot be posted with these texts and prices, if so.
pub open spec fn request_error(
    intention: Seq<char>,
    reference_image: Seq<char>,
    price_xlm: i128,
    price_usdc: i128,
    xlm_usdc_rate: i128,
) -> Option<CommissionError> {
    if intention.len() == 0 {
        Some(CommissionError::IntentionEmpty)
    } else if byte_len(intention) > MAX_INTENTION_LEN {
        Some(CommissionError::IntentionTooLong)
    } else if byte_len(reference_image) > MAX_REF_IMAGE_LEN {
        Some(CommissionError::ReferenceImageTooLong)
    } else if price_xlm <= 0 {
        Some(CommissionError::PriceXlmNotPositive)
    } else if price_usdc <= 0 {
        Some(CommissionError::PriceUsdcNotPositive)
    } else if xlm_usdc_rate <= 0 {
        Some(CommissionError::RateNotPositive)
    } else {
        None
    }
}

/// The commission desk as contracts see it. A commission's identifier is its
/// position in `commissions`.
pub struct CommissionState {
    /// The desk's own address: it holds the escrowed payments.
    pub contract: Address,
    /// `None` until the desk is initialized.
    pub config: Option<CommissionConfig>,
    pub commissions: Seq<CommissionRequestView>,
}

impl CommissionState {
    /// Every commission is sound, and before initialization there is none.
    pub open spec fn wf(self) -> bool {
        &&& forall|i: int|
            0 <= i < self.commissions.len() ==> (#[trigger] self.commissions[i]).wf()
        &&& self.config is None ==> self.commissions.len() == 0
    }

    /// The transfer of the escrowed payment of `commission` from the desk to
    /// `to`.
    pub open spec fn release(self, commission: CommissionRequestView, to: Address) -> Effect {
        Effect::TokenTransfer {
            token: self.config->0.spec_token(commission.currency),
            from: self.contract,
            to,
            amount: commission.escrowed(),
        }
    }

    /// The state with the commission `commission_id` replaced.
    pub open spec fn with_commission_set(
        self,
        commission_id: u64,
        commission: CommissionRequestView,
    ) -> CommissionState {
        CommissionState {
            commissions: self.commissions.update(commission_id as int, commission),
            ..self
        }
    }

    /// Why a commission cannot be posted, if so.
    pub open spec fn create_error(
        self,
        intention: Seq<char>,
        reference_image: Seq<char>,
        price_xlm: i128,
        price_usdc: i128,
        xlm_usdc_rate: i128,
    ) -> Option<CommissionError> {
        let refused = request_error(intention, reference_image, price_xlm, price_usdc, xlm_usdc_rate);
        if refused is Some {
            refused
        } else if self.config is None {
            Some(CommissionError::NotInitialized)
        } else {
            None
        }
    }

    /// Why `caller` cannot assign an artist to the commission `commission_id`,
    /// if so.
    pub open spec fn assign_error(self, caller: Address, commission_id: u64) -> Option<
        CommissionError,
    > {
        if self.config is None {
            Some(CommissionError::NotInitialized)
        } else if self.config->0.admin != caller {
            Some(CommissionError::NotAdmin)
        } else if commission_id >= self.commissions.len() {
            Some(CommissionError::CommissionNotFound)
        } else if self.commissions[commission_id as int].status != CommissionStatus::Open {
            Some(CommissionError::NotOpen)
        } else {
            None
        }
    }

    /// Why `artist` cannot mark the commission `commission_id` delivered, if
    /// so.
    pub open spec fn deliver_error(self, artist: Address, commission_id: u64) -> Option<
        CommissionError,
    > {
        if commission_id >= self.commissions.len() {
            Some(CommissionError::CommissionNotFound)
        } else if self.commissions[commission_id as int].status != CommissionStatus::Accepted {
            Some(CommissionError::NotAccepted)
        } else if self.commissions[commission_id as int].artist != Some(artist) {
            Some(CommissionError::NotAssignedArtist)
        } else {
            None
        }
    }

    /// Why `buyer` cannot approve the commission `commission_id`, if so.
    pub open spec fn approve_error(self, buyer: Address, commission_id: u64) -> Option<
        CommissionError,
    > {
        if commission_id >= self.commissions.len() {
            Some(CommissionError::CommissionNotFound)
        } else if self.commissions[commission_id as int].status != CommissionStatus::Delivered {
            Some(CommissionError::NotDelivered)
        } else if self.commissions[commission_id as int].buyer != buyer {
            Some(CommissionError::NotBuyer)
        } else if self.config is None {
            Some(CommissionError::NotInitialized)
        } else if self.commissions[commission_id as int].artist is None {
            Some(CommissionError::NotAssignedArtist)
        } else {
            None
        }
    }

    /// Why `caller` cannot cancel the commission `commission_id`, if so. An
    /// open commission is cancelled by its buyer or by the admin, an accepted
    /// one by the admin alone, any other by nobody.
    pub open spec fn cancel_error(self, caller: Address, commission_id: u64) -> Option<
        CommissionError,
    > {
        if commission_id >= self.commissions.len() {
            Some(CommissionError::CommissionNotFound)
        } else if self.config is None {
            Some(CommissionError::NotInitialized)
        } else {
            let commission = self.commissions[commission_id as int];
            match commission.status {
                CommissionStatus::Open => if commission.buyer != caller && self.config->0.admin
                    != caller {
                    Some(CommissionError::OpenCancelNotAllowed)
                } else {
                    None
                },
                CommissionStatus::Accepted => if self.config->0.admin != caller {
                    Some(CommissionError::AcceptedCancelNotAllowed)
                } else {
                    None
                },
                _ => Some(CommissionError::NotCancellable),
            }
        }
    }
}

/// The commission desk.
#[derive(Debug)]
pub struct ShimejiCommission {
    pub contract: Address,
    pub config: Option<CommissionConfig>,
    pub commissions: Vec<CommissionRequest>,
}

impl View for ShimejiCommission {
    type V = CommissionState;

    open spec fn view(&self) -> CommissionState {
        CommissionState {
            contract: self.contract,
            config: self.config,
            commissions: commission_views(self.commissions@),
        }
    }
}

impl ShimejiCommission {
    /// The desk deployed at `contract`, not yet initialized.
    pub fn new(contract: Address) -> (desk: ShimejiCommission)
        ensures
            desk@.contract == contract,
            desk@.config is None,
            desk@.commissions.len() == 0,
            desk@.wf(),
    {
        ShimejiCommission { contract, config: None, commissions: Vec::new() }
    }

    /// Sets the admin and the two payment tokens.
    ///
    /// Fails with `AlreadyInitialized` on every call but the first.
    pub fn initialize(&mut self, admin: Address, usdc_token: Address, xlm_token: Address) -> (done:
        Result<(), CommissionError>)
        ensures
            match done {
                Ok(()) => old(self)@.config is None && final(self)@ == (CommissionState {
                    config: Some(CommissionConfig { admin, usdc_token, xlm_token }),
                    ..old(self)@
                }),
                Err(e) => old(self)@.config is Some && e == CommissionError::AlreadyInitialized
                    && final(self)@ == old(self)@,
            },
            old(self)@.wf() ==> final(self)@.wf(),
    {
        if self.config.is_some() {
            return Err(CommissionError::AlreadyInitialized);
        }
        self.config = Some(CommissionConfig { admin, usdc_token, xlm_token });
        Ok(())
    }

    /// Posts a commission at `now`: the buyer says what they want and escrows
    /// the price in `currency` with the desk. Returns the commission's
    /// identifier and the transfer to make.
    ///
    /// Fails if the intention is empty or longer than 500 bytes, if the
    /// reference link is longer than 512 bytes, or if a price or the rate is
    /// not positive.
    pub fn create_commission(
        &mut self,
        buyer: Address,
        intention: String,
        reference_image: String,
        price_xlm: i128,
        price_usdc: i128,
        xlm_usdc_rate: i128,
        currency: Currency,
        now: u64,
    ) -> (created: Result<(u64, Vec<Effect>), CommissionError>)
        ensures
            match created {
                Ok((commission_id, effects)) => {
                    let commission = CommissionRequestView {
                        buyer,
                        intention: intention@,
                        reference_image: reference_image@,
                        price_xlm,
                        price_usdc,
                        xlm_usdc_rate,
                        currency,
                        status: CommissionStatus::Open,
                        token_id: 0,
                        artist: None,
                        created_at: now,
                    };
                    &&& old(self)@.create_error(
                        intention@,
                        reference_image@,
                        price_xlm,
                        price_usdc,
                        xlm_usdc_rate,
                    ) is None
                    &&& commission_id == old(self)@.commissions.len()
                    &&& effects@ == seq![
                        Effect::TokenTransfer {
                            token: old(self)@.config->0.spec_token(currency),
                            from: buyer,
                            to: old(self)@.contract,
                            amount: commission.escrowed(),
                        },
                    ]
                    &&& final(self)@ == (CommissionState {
                        commissions: old(self)@.commissions.push(commission),
                        ..old(self)@
                    })
                },
                Err(e) => {
                    &&& old(self)@.create_error(
                        intention@,
                        reference_image@,
                        price_xlm,
                        price_usdc,
                        xlm_usdc_rate,
                    ) == Some(e)
                    &&& final(self)@ == old(self)@
                },
            },
            old(self)@.wf() ==> final(self)@.wf(),
    {
        if is_blank(&intention) {
            return Err(CommissionError::IntentionEmpty);
        }
        if byte_length(&intention) > MAX_INTENTION_LEN {
            return Err(CommissionError::IntentionTooLong);
        }
        if byte_length(&reference_image) > MAX_REF_IMAGE_LEN {
            return Err(CommissionError::ReferenceImageTooLong);
        }
        if price_xlm <= 0 {
            return Err(CommissionError::PriceXlmNotPositive);
        }
        if price_usdc <= 0 {
            return Err(CommissionError::PriceUsdcNotPositive);
        }
        if xlm_usdc_rate <= 0 {
            return Err(CommissionError::RateNotPositive);
        }
        let config = match self.config {
            Some(config) => config,
            None => {
                return Err(CommissionError::NotInitialized);
            },
        };
        let amount: i128 = match currency {
            Currency::Xlm => price_xlm,
            Currency::Usdc => price_usdc,
        };
        let mut effects: Vec<Effect> = Vec::new();
        effects.push(
            Effect::TokenTransfer {
                token: config.token(currency),
                from: buyer,
                to: self.contract,
                amount,
            },
        );
        let commission_id: u64 = self.commissions.len() as u64;
        let commission = CommissionRequest {
            buyer,
            intention,
            reference_image,
            price_xlm,
            price_usdc,
            xlm_usdc_rate,
            currency,
            status: CommissionStatus::Open,
            token_id: 0,
            artist: None,
            created_at: now,
        };
        let ghost posted = commission@;
        self.commissions.push(commission);
        proof {
            assert(self@.commissions =~= old(self)@.commissions.push(posted));
            assert(effects@ =~= seq![
                Effect::TokenTransfer {
                    token: config.spec_token(currency),
                    from: buyer,
                    to: old(self)@.contract,
                    amount: posted.escrowed(),
                },
            ]);
        }
        Ok((commission_id, effects))
    }

    /// Records that `artist` took the open commission `commission_id`, for
    /// which the placeholder asset `token_id` was minted. Only the admin may do
    /// this.
    ///
    /// Fails if the caller is not the admin, then if the commission is
    /// unknown, then if it is not open.
    pub fn assign_artist(
        &mut self,
        caller: Address,
        commission_id: u64,
        artist: Address,
        token_id: u64,
    ) -> (done: Result<(), CommissionError>)
        ensures
            match done {
                Ok(()) => {
                    &&& old(self)@.assign_error(caller, commission_id) is None
                    &&& final(self)@ == old(self)@.with_commission_set(
                        commission_id,
                        CommissionRequestView {
                            status: CommissionStatus::Accepted,
                            artist: Some(artist),
                            token_id,
                            ..old(self)@.commissions[commission_id as int]
                        },
                    )
                },
                Err(e) => {
                    &&& old(self)@.assign_error(caller, commission_id) == Some(e)
                    &&& final(self)@ == old(self)@
                },
            },
            old(self)@.wf() ==> final(self)@.wf(),
    {
        let config = match self.config {
            Some(config) => config,
            None => {
                return Err(CommissionError::NotInitialized);
            },
        };
        if config.admin != caller {
            return Err(CommissionError::NotAdmin);
        }
        if commission_id >= self.commissions.len() as u64 {
            return Err(CommissionError::CommissionNotFound);
        }
        let index: usize = commission_id as usize;
        if self.commissions[index].status != CommissionStatus::Open {
            return Err(CommissionError::NotOpen);
        }
        self.commissions[index].status = CommissionStatus::Accepted;
        self.commissions[index].artist = Some(artist);
        self.commissions[index].token_id = token_id;
        proof {
            assert(self@.commissions =~= old(self)@.commissions.update(
                commission_id as int,
                CommissionRequestView {
                    status: CommissionStatus::Accepted,
                    artist: Some(artist),
                    token_id,
                    ..old(self)@.commissions[commission_id as int]
                },
            ));
        }
        Ok(())
    }

    /// Marks the accepted commission `commission_id` delivered.
    ///
    /// Fails if the commission is unknown, then if it is not accepted, then if
    /// the caller is not its artist.
    pub fn mark_delivered(&mut self, artist: Address, commission_id: u64) -> (done: Result<
        (),
        CommissionError,
    >)
        ensures
            match done {
                Ok(()) => {
                    &&& old(self)@.deliver_error(artist, commission_id) is None
                    &&& final(self)@ == old(self)@.with_commission_set(
                        commission_id,
                        CommissionRequestView {
                            status: CommissionStatus::Delivered,
                            ..old(self)@.commissions[commission_id as int]
                        },
                    )
                },
                Err(e) => {
                    &&& old(self)@.deliver_error(artist, commission_id) == Some(e)
                    &&& final(self)@ == old(self)@
                },
            },
            old(self)@.wf() ==> final(self)@.wf(),
    {
        if commission_id >= self.commissions.len() as u64 {
            return Err(CommissionError::CommissionNotFound);
        }
        let index: usize = commission_id as usize;
        if self.commissions[index].status != CommissionStatus::Accepted {
            return Err(CommissionError::NotAccepted);
        }
        let assigned = match self.commissions[index].artist {
            Some(assigned) => assigned == artist,
            None => false,
        };
        if !assigned {
            return Err(CommissionError::NotAssignedArtist);
        }
        self.commissions[index].status = CommissionStatus::Delivered;
        proof {
            assert(self@.commissions =~= old(self)@.commissions.update(
                commission_id as int,
                CommissionRequestView {
                    status: CommissionStatus::Delivered,
                    ..old(self)@.commissions[commission_id as int]
                },
            ));
        }
        Ok(())
    }

    /// Approves the delivered commission `commission_id`: the escrowed payment
    /// goes to the artist and the commission is completed.
    ///
    /// Fails if the commission is unknown, then if it is not delivered, then
    /// if the caller is not its buyer.
    pub fn approve_delivery(&mut self, buyer: Address, commission_id: u64) -> (done: Result<
        Vec<Effect>,
        CommissionError,
    >)
        ensures
            match done {
                Ok(effects) => {
                    let commission = old(self)@.commissions[commission_id as int];
                    &&& old(self)@.approve_error(buyer, commission_id) is None
                    &&& effects@ == seq![old(self)@.release(commission, commission.artist->0)]
                    &&& final(self)@ == old(self)@.with_commission_set(
                        commission_id,
                        CommissionRequestView { status: CommissionStatus::Completed, ..commission },
                    )
                },
                Err(e) => {
                    &&& old(self)@.approve_error(buyer, commission_id) == Some(e)
                    &&& final(self)@ == old(self)@
                },
            },
            old(self)@.wf() ==> final(self)@.wf(),
    {
        if commission_id >= self.commissions.len() as u64 {
            return Err(CommissionError::CommissionNotFound);
        }
        let index: usize = commission_id as usize;
        if self.commissions[index].status != CommissionStatus::Delivered {
            return Err(CommissionError::NotDelivered);
        }
        if self.commissions[index].buyer != buyer {
            return Err(CommissionError::NotBuyer);
        }
        let config = match self.config {
            Some(config) => config,
            None => {
                return Err(CommissionError::NotInitialized);
            },
        };
        let artist = match self.commissions[index].artist {
            Some(artist) => artist,
            None => {
                return Err(CommissionError::NotAssignedArtist);
            },
        };
        let effects = self.release_escrow(config, index, artist);
        self.commissions[index].status = CommissionStatus::Completed;
        proof {
            assert(self@.commissions =~= old(self)@.commissions.update(
                commission_id as int,
                CommissionRequestView {
                    status: CommissionStatus::Completed,
                    ..old(self)@.commissions[commission_id as int]
                },
            ));
        }
        Ok(effects)
    }

    /// The transfer of the escrowed payment of the commission at `index` to
    /// `to`.
    fn release_escrow(&self, config: CommissionConfig, index: usize, to: Address) -> (effects: Vec<
        Effect,
    >)
        requires
            index < self.commissions.len(),
            self.config == Some(config),
        ensures
            effects@ == seq![self@.release(self@.commissions[index as int], to)],
    {
        let currency = self.commissions[index].currency;
        let amount: i128 = match currency {
            Currency::Xlm => self.commissions[index].price_xlm,
            Currency::Usdc => self.commissions[index].price_usdc,
        };
        let mut effects: Vec<Effect> = Vec::new();
        effects.push(
            Effect::TokenTransfer { token: config.token(currency), from: self.contract, to, amount },
        );
        proof {
            assert(effects@ =~= seq![self@.release(self@.commissions[index as int], to)]);
        }
        effects
    }

    /// Cancels the commission `commission_id` and returns the escrowed payment
    /// to the buyer. An open commission is cancelled by its buyer or by the
    /// admin; an accepted one by the admin alone, to settle a dispute.
    ///
    /// Fails if the commission is unknown, then if the caller may not cancel
    /// it in its stage, or if it is delivered or has ended.
    pub fn cancel_commission(&mut self, caller: Address, commission_id: u64) -> (done: Result<
        Vec<Effect>,
        CommissionError,
    >)
        ensures
            match done {
                Ok(effects) => {
                    let commission = old(self)@.commissions[commission_id as int];
                    &&& old(self)@.cancel_error(caller, commission_id) is None
                    &&& effects@ == seq![old(self)@.release(commission, commission.buyer)]
                    &&& final(self)@ == old(self)@.with_commission_set(
                        commission_id,
                        CommissionRequestView { status: CommissionStatus::Cancelled, ..commission },
                    )
                },
                Err(e) => {
                    &&& old(self)@.cancel_error(caller, commission_id) == Some(e)
                    &&& final(self)@ == old(self)@
                },
            },
            old(self)@.wf() ==> final(self)@.wf(),
    {
        if commission_id >= self.commissions.len() as u64 {
            return Err(CommissionError::CommissionNotFound);
        }
        let index: usize = commission_id as usize;
        let config = match self.config {
            Some(config) => config,
            None => {
                return Err(CommissionError::NotInitialized);
            },
        };
        let buyer = self.commissions[index].buyer;
        match self.commissions[index].status {
            CommissionStatus::Open => {
                if buyer != caller && config.admin != caller {
                    return Err(CommissionError::OpenCancelNotAllowed);
                }
            },
            CommissionStatus::Accepted => {
                if config.admin != caller {
                    return Err(CommissionError::AcceptedCancelNotAllowed);
                }
            },
            _ => {
                return Err(CommissionError::NotCancellable);
            },
        }
        let effects = self.release_escrow(config, index, buyer);
        self.commissions[index].status = CommissionStatus::Cancelled;
        proof {
            assert(self@.commissions =~= old(self)@.commissions.update(
                commission_id as int,
                CommissionRequestView {
                    status: CommissionStatus::Cancelled,
                    ..old(self)@.commissions[commission_id as int]
                },
            ));
        }
        Ok(effects)
    }

    /// The commission with the given identifier.
    pub fn get_commission(&self, commission_id: u64) -> (commission: Result<
        CommissionRequest,
        CommissionError,
    >)
        ensures
            match commission {
                Ok(c) => commission_id < self@.commissions.len() && c@
                    == self@.commissions[commission_id as int],
                Err(e) => commission_id >= self@.commissions.len() && e
                    == CommissionError::CommissionNotFound,
            },
    {
        if commission_id < self.commissions.len() as u64 {
            Ok(self.commissions[commission_id as usize].clone())
        } else {
            Err(CommissionError::CommissionNotFound)
        }
    }

    /// How many commissions were ever posted.
    pub fn total_commissions(&self) -> (n: u64)
        ensures
            n == self@.commissions.len(),
    {
        self.commissions.len() as u64
    }
}

} // verus!
