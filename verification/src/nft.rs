//! The asset registry: who owns each collectible, where its metadata lives,
//! and who may change either.

use vstd::prelude::*;
use crate::address::Address;
use crate::error::ErrorKind;
use crate::text::{byte_len, byte_length, is_blank};

verus! {

/// The shortest metadata reference, in bytes, that the registry accepts.
pub const MIN_TOKEN_URI_LEN: usize = 7;

/// What a token is: a finished collectible, or the placeholder of a
/// commission whose art its creator still owes.
#[derive(Clone, Copy, Debug, PartialEq, Eq, Structural, Hash)]
pub enum TokenKind {
    Finished,
    CommissionEgg,
}

/// Each way in which a registry operation can fail.
#[derive(Clone, Copy, Debug, PartialEq, Eq, Structural, Hash)]
pub enum NftError {
    AlreadyInitialized,
    NotInitialized,
    NotAdmin,
    NotMinter,
    NotMetadataUpdater,
    TokenUriEmpty,
    TokenUriTooShort,
    TokenNotFound,
    NotTokenCreator,
    CreatorUpdatesDisabled,
    NotOwner,
}

impl NftError {
    /// The class of this failure.
    pub open spec fn spec_kind(self) -> ErrorKind {
        match self {
            NftError::AlreadyInitialized => ErrorKind::AlreadyInitialized,
            NftError::NotInitialized | NftError::CreatorUpdatesDisabled => ErrorKind::InvalidState,
            NftError::NotAdmin
            | NftError::NotMinter
            | NftError::NotMetadataUpdater
            | NftError::NotTokenCreator
            | NftError::NotOwner => ErrorKind::Unauthorized,
            NftError::TokenUriEmpty | NftError::TokenUriTooShort => ErrorKind::Validation,
            NftError::TokenNotFound => ErrorKind::NotFound,
        }
    }

    /// The class of this failure.
    #[verifier::when_used_as_spec(spec_kind)]
    pub fn kind(self) -> (k: ErrorKind)
        ensures
            k == self.spec_kind(),
    {
        match self {
            NftError::AlreadyInitialized => ErrorKind::AlreadyInitialized,
            NftError::NotInitialized | NftError::CreatorUpdatesDisabled => ErrorKind::InvalidState,
            NftError::NotAdmin
            | NftError::NotMinter
            | NftError::NotMetadataUpdater
            | NftError::NotTokenCreator
            | NftError::NotOwner => ErrorKind::Unauthorized,
            NftError::TokenUriEmpty | NftError::TokenUriTooShort => ErrorKind::Validation,
            NftError::TokenNotFound => ErrorKind::NotFound,
        }
    }

    /// The stable text by which callers recognise this failure.
    pub open spec fn spec_message(self) -> Seq<char> {
        match self {
            NftError::AlreadyInitialized => "already initialized"@,
            NftError::NotInitialized => "not initialized"@,
            NftError::NotAdmin => "only the admin can do this"@,
            NftError::NotMinter => "only the minter can mint"@,
            NftError::NotMetadataUpdater => "only the metadata updater can update token uris"@,
            NftError::TokenUriEmpty => "token_uri cannot be empty"@,
            NftError::TokenUriTooShort => "token_uri too short"@,
            NftError::TokenNotFound => "token does not exist"@,
            NftError::NotTokenCreator => "not token creator"@,
            NftError::CreatorUpdatesDisabled => "creator metadata updates disabled"@,
            NftError::NotOwner => "not the owner"@,
        }
    }

    /// The stable text by which callers recognise this failure.
    pub fn message(self) -> (text: &'static str)
        ensures
            text@ == self.spec_message(),
    {
        match self {
            NftError::AlreadyInitialized => "already initialized",
            NftError::NotInitialized => "not initialized",
            NftError::NotAdmin => "only the admin can do this",
            NftError::NotMinter => "only the minter can mint",
            NftError::NotMetadataUpdater => "only the metadata updater can update token uris",
            NftError::TokenUriEmpty => "token_uri cannot be empty",
            NftError::TokenUriTooShort => "token_uri too short",
            NftError::TokenNotFound => "token does not exist",
            NftError::NotTokenCreator => "not token creator",
            NftError::CreatorUpdatesDisabled => "creator metadata updates disabled",
            NftError::NotOwner => "not the owner",
        }
    }
}

/// What the registry keeps of one token.
#[derive(Debug, PartialEq, Eq)]
pub struct TokenRecord {
    pub owner: Address,
    pub token_uri: String,
    pub creator: Address,
    pub kind: TokenKind,
    pub creator_can_update_metadata: bool,
}

/// A token as contracts see it.
pub struct TokenView {
    pub owner: Address,
    pub token_uri: Seq<char>,
    pub creator: Address,
    pub kind: TokenKind,
    pub creator_can_update_metadata: bool,
}

impl View for TokenRecord {
    type V = TokenView;

    open spec fn view(&self) -> TokenView {
        TokenView {
            owner: self.owner,
            token_uri: self.token_uri@,
            creator: self.creator,
            kind: self.kind,
            creator_can_update_metadata: self.creator_can_update_metadata,
        }
    }
}

impl Clone for TokenRecord {
    fn clone(&self) -> (copy: TokenRecord)
        ensures
            copy@ == self@,
    {
        TokenRecord {
            owner: self.owner,
            token_uri: self.token_uri.clone(),
            creator: self.creator,
            kind: self.kind,
            creator_can_update_metadata: self.creator_can_update_metadata,
        }
    }
}

/// The views of a run of tokens, in order.
pub open spec fn token_views(tokens: Seq<TokenRecord>) -> Seq<TokenView> {
    Seq::new(tokens.len(), |i: int| tokens[i]@)
}

/// The registry as contracts see it. A token's identifier is its position in
/// `tokens`.
pub struct NftState {
    /// `None` until the registry is initialized.
    pub admin: Option<Address>,
    /// Who alone may mint finished tokens, once set; until then the admin may.
    pub minter: Option<Address>,
    /// Who alone may replace metadata references, once set; until then the
    /// admin may.
    pub metadata_updater: Option<Address>,
    pub tokens: Seq<TokenView>,
}

/// Why `token_uri` cannot be a token's metadata reference, if so: it is
/// empty, or shorter than 7 bytes.
pub open spec fn token_uri_error(token_uri: Seq<char>) -> Option<NftError> {
    if token_uri.len() == 0 {
        Some(NftError::TokenUriEmpty)
    } else if byte_len(token_uri) < MIN_TOKEN_URI_LEN {
        Some(NftError::TokenUriTooShort)
    } else {
        None
    }
}

/// The first of two checks that fails, if either does.
pub open spec fn first_nft_error(first: Option<NftError>, second: Option<NftError>) -> Option<
    NftError,
> {
    if first is Some {
        first
    } else {
        second
    }
}

/// What a check that found `error` returns.
pub open spec fn nft_checked(error: Option<NftError>) -> Result<(), NftError> {
    match error {
        Some(e) => Err(e),
        None => Ok(()),
    }
}

impl NftState {
    /// Every token's metadata reference is one that the registry accepts, and
    /// before initialization there is no token.
    pub open spec fn wf(self) -> bool {
        &&& forall|i: int|
            0 <= i < self.tokens.len() ==> token_uri_error((#[trigger] self.tokens[i]).token_uri)
                is None
        &&& self.admin is None ==> self.tokens.len() == 0 && self.minter is None
            && self.metadata_updater is None
    }

    /// Why `caller` may not act as the admin, if so.
    pub open spec fn admin_error(self, caller: Address) -> Option<NftError> {
        if self.admin is None {
            Some(NftError::NotInitialized)
        } else if self.admin->0 != caller {
            Some(NftError::NotAdmin)
        } else {
            None
        }
    }

    /// Why `caller` may not mint a finished token, if so: a minter is set and
    /// it is not the caller, or none is set and the caller is not the admin.
    pub open spec fn minter_error(self, caller: Address) -> Option<NftError> {
        if self.admin is None {
            Some(NftError::NotInitialized)
        } else if self.minter is Some {
            if self.minter->0 != caller {
                Some(NftError::NotMinter)
            } else {
                None
            }
        } else if self.admin->0 != caller {
            Some(NftError::NotAdmin)
        } else {
            None
        }
    }

    /// Why `caller` may not replace a metadata reference, if so: an updater is
    /// set and it is not the caller, or none is set and the caller is not the
    /// admin.
    pub open spec fn updater_error(self, caller: Address) -> Option<NftError> {
        if self.metadata_updater is Some {
            if self.metadata_updater->0 != caller {
                Some(NftError::NotMetadataUpdater)
            } else {
                None
            }
        } else {
            self.admin_error(caller)
        }
    }

    /// Whose signature a mint of a finished token needs: the minter's once
    /// one is set, the admin's until then.
    pub open spec fn minting_authority(self) -> Option<Address> {
        if self.admin is None {
            None
        } else if self.minter is Some {
            self.minter
        } else {
            self.admin
        }
    }

    /// Whose signature the replacement of a metadata reference needs, where it
    /// is not the creator's: the updater's once one is set, the admin's until
    /// then.
    pub open spec fn update_authority(self) -> Option<Address> {
        if self.metadata_updater is Some {
            self.metadata_updater
        } else {
            self.admin
        }
    }

    /// Why there is no token `token_id`, if so.
    pub open spec fn token_error(self, token_id: u64) -> Option<NftError> {
        if token_id >= self.tokens.len() {
            Some(NftError::TokenNotFound)
        } else {
            None
        }
    }

    /// Why `creator` cannot act as the creator of the token `token_id`, if so.
    pub open spec fn creator_error(self, creator: Address, token_id: u64) -> Option<NftError> {
        if token_id >= self.tokens.len() {
            Some(NftError::TokenNotFound)
        } else if self.tokens[token_id as int].creator != creator {
            Some(NftError::NotTokenCreator)
        } else {
            None
        }
    }

    /// Why `creator` cannot replace the metadata reference of the token
    /// `token_id` by `new_uri`, if so.
    pub open spec fn creator_update_error(
        self,
        creator: Address,
        token_id: u64,
        new_uri: Seq<char>,
    ) -> Option<NftError> {
        first_nft_error(
            token_uri_error(new_uri),
            first_nft_error(
                self.creator_error(creator, token_id),
                if !self.tokens[token_id as int].creator_can_update_metadata {
                    Some(NftError::CreatorUpdatesDisabled)
                } else {
                    None
                },
            ),
        )
    }

    /// Why `from` cannot hand over the token `token_id`, if so.
    pub open spec fn transfer_error(self, from: Address, token_id: u64) -> Option<NftError> {
        if token_id >= self.tokens.len() {
            Some(NftError::TokenNotFound)
        } else if self.tokens[token_id as int].owner != from {
            Some(NftError::NotOwner)
        } else {
            None
        }
    }

    /// The state with one more token.
    pub open spec fn with_token(self, token: TokenView) -> NftState {
        NftState { tokens: self.tokens.push(token), ..self }
    }

    /// The state with the token `token_id` replaced.
    pub open spec fn with_token_set(self, token_id: u64, token: TokenView) -> NftState {
        NftState { tokens: self.tokens.update(token_id as int, token), ..self }
    }
}

/// Accepts a metadata reference that is not empty and at least 7 bytes long.
pub fn validate_token_uri(token_uri: &String) -> (ok: Result<(), NftError>)
    ensures
        ok == nft_checked(token_uri_error(token_uri@)),
{
    if is_blank(token_uri) {
        return Err(NftError::TokenUriEmpty);
    }
    if byte_length(token_uri) < MIN_TOKEN_URI_LEN {
        return Err(NftError::TokenUriTooShort);
    }
    Ok(())
}

/// Whether the registry holds a token `token_id`.
pub fn token_exists(registry: &ShimejiNft, token_id: u64) -> (found: bool)
    ensures
        found == (token_id < registry@.tokens.len()),
        found ==> token_id < registry.tokens.len(),
{
    token_id < registry.tokens.len() as u64
}

/// Passes if the registry holds a token `token_id`.
pub fn require_existing_token(registry: &ShimejiNft, token_id: u64) -> (ok: Result<(), NftError>)
    ensures
        ok == nft_checked(registry@.token_error(token_id)),
        ok is Ok ==> token_id < registry.tokens.len(),
{
    if !token_exists(registry, token_id) {
        return Err(NftError::TokenNotFound);
    }
    Ok(())
}

/// The asset registry.
#[derive(Debug)]
pub struct ShimejiNft {
    pub admin: Option<Address>,
    pub minter: Option<Address>,
    pub metadata_updater: Option<Address>,
    pub tokens: Vec<TokenRecord>,
}

impl View for ShimejiNft {
    type V = NftState;

    open spec fn view(&self) -> NftState {
        NftState {
            admin: self.admin,
            minter: self.minter,
            metadata_updater: self.metadata_updater,
            tokens: token_views(self.tokens@),
        }
    }
}

impl ShimejiNft {
    /// The registry before initialization: no admin, no token.
    pub fn new() -> (registry: ShimejiNft)
        ensures
            registry@.admin is None,
            registry@.minter is None,
            registry@.metadata_updater is None,
            registry@.tokens.len() == 0,
            registry@.wf(),
    {
        ShimejiNft { admin: None, minter: None, metadata_updater: None, tokens: Vec::new() }
    }

    /// Records a new token and returns its identifier: the number of tokens
    /// minted before it.
    fn mint_internal(
        &mut self,
        to: Address,
        token_uri: String,
        creator: Address,
        token_kind: TokenKind,
        creator_can_update_metadata: bool,
    ) -> (token_id: u64)
        ensures
            token_id == old(self)@.tokens.len(),
            final(self)@ == old(self)@.with_token(
                TokenView {
                    owner: to,
                    token_uri: token_uri@,
                    creator,
                    kind: token_kind,
                    creator_can_update_metadata,
                },
            ),
    {
        let token_id: u64 = self.tokens.len() as u64;
        let token = TokenRecord {
            owner: to,
            token_uri,
            creator,
            kind: token_kind,
            creator_can_update_metadata,
        };
        let ghost minted = token@;
        self.tokens.push(token);
        proof {
            assert(self@.tokens =~= old(self)@.tokens.push(minted));
        }
        token_id
    }

    /// Sets the admin.
    ///
    /// Fails with `AlreadyInitialized` on every call but the first.
    pub fn initialize(&mut self, admin: Address) -> (done: Result<(), NftError>)
        ensures
            match done {
                Ok(()) => old(self)@.admin is None && final(self)@ == (NftState {
                    admin: Some(admin),
                    ..old(self)@
                }),
                Err(e) => old(self)@.admin is Some && e == NftError::AlreadyInitialized
                    && final(self)@ == old(self)@,
            },
            old(self)@.wf() ==> final(self)@.wf(),
    {
        if self.admin.is_some() {
            return Err(NftError::AlreadyInitialized);
        }
        self.admin = Some(admin);
        Ok(())
    }

    /// Mints a finished token to `to`, who is also its creator; the creator
    /// cannot change its metadata. Until a minter is set only the admin may
    /// mint; from then on only the minter.
    ///
    /// Fails if the metadata reference is not acceptable, then if the caller
    /// may not mint.
    pub fn mint(&mut self, caller: Address, to: Address, token_uri: String) -> (minted: Result<
        u64,
        NftError,
    >)
        ensures
            match minted {
                Ok(token_id) => {
                    &&& first_nft_error(token_uri_error(token_uri@), old(self)@.minter_error(caller))
                        is None
                    &&& token_id == old(self)@.tokens.len()
                    &&& final(self)@ == old(self)@.with_token(
                        TokenView {
                            owner: to,
                            token_uri: token_uri@,
                            creator: to,
                            kind: TokenKind::Finished,
                            creator_can_update_metadata: false,
                        },
                    )
                },
                Err(e) => {
                    &&& first_nft_error(token_uri_error(token_uri@), old(self)@.minter_error(caller))
                        == Some(e)
                    &&& final(self)@ == old(self)@
                },
            },
            old(self)@.wf() ==> final(self)@.wf(),
    {
        match validate_token_uri(&token_uri) {
            Err(e) => {
                return Err(e);
            },
            Ok(()) => {},
        }
        let admin = match self.admin {
            Some(admin) => admin,
            None => {
                return Err(NftError::NotInitialized);
            },
        };
        match self.minter {
            Some(minter) => {
                if minter != caller {
                    return Err(NftError::NotMinter);
                }
            },
            None => {
                if admin != caller {
                    return Err(NftError::NotAdmin);
                }
            },
        }
        Ok(self.mint_internal(to, token_uri, to, TokenKind::Finished, false))
    }

    /// Mints a commission egg to `to`: a placeholder whose creator may replace
    /// its metadata until they freeze it. Only the admin may do this.
    ///
    /// Fails if the metadata reference is not acceptable, then if the caller is
    /// not the admin.
    pub fn mint_commission_egg(
        &mut self,
        caller: Address,
        to: Address,
        creator: Address,
        token_uri: String,
    ) -> (minted: Result<u64, NftError>)
        ensures
            match minted {
                Ok(token_id) => {
                    &&& first_nft_error(token_uri_error(token_uri@), old(self)@.admin_error(caller))
                        is None
                    &&& token_id == old(self)@.tokens.len()
                    &&& final(self)@ == old(self)@.with_token(
                        TokenView {
                            owner: to,
                            token_uri: token_uri@,
                            creator,
                            kind: TokenKind::CommissionEgg,
                            creator_can_update_metadata: true,
                        },
                    )
                },
                Err(e) => {
                    &&& first_nft_error(token_uri_error(token_uri@), old(self)@.admin_error(caller))
                        == Some(e)
                    &&& final(self)@ == old(self)@
                },
            },
            old(self)@.wf() ==> final(self)@.wf(),
    {
        match validate_token_uri(&token_uri) {
            Err(e) => {
                return Err(e);
            },
            Ok(()) => {},
        }
        match self.require_admin(caller) {
            Err(e) => {
                return Err(e);
            },
            Ok(()) => {},
        }
        Ok(self.mint_internal(to, token_uri, creator, TokenKind::CommissionEgg, true))
    }

    /// Whose signature a mint of a finished token needs. A caller may mint
    /// exactly if they are that address.
    pub fn minting_authority(&self) -> (signer: Result<Address, NftError>)
        ensures
            match signer {
                Ok(s) => self@.minting_authority() == Some(s) && self@.minter_error(s) is None,
                Err(e) => self@.minting_authority() is None && e == NftError::NotInitialized,
            },
            forall|caller: Address|
                #[trigger] self@.minter_error(caller) is None <==> self@.minting_authority()
                    == Some(caller),
    {
        match self.admin {
            None => Err(NftError::NotInitialized),
            Some(admin) => match self.minter {
                Some(minter) => Ok(minter),
                None => Ok(admin),
            },
        }
    }

    /// Whose signature the replacement of a metadata reference needs. A caller
    /// may replace one exactly if they are that address.
    pub fn update_authority(&self) -> (signer: Result<Address, NftError>)
        ensures
            match signer {
                Ok(s) => self@.update_authority() == Some(s) && self@.updater_error(s) is None,
                Err(e) => self@.update_authority() is None && e == NftError::NotInitialized,
            },
            forall|caller: Address|
                #[trigger] self@.updater_error(caller) is None <==> self@.update_authority()
                    == Some(caller),
    {
        match self.metadata_updater {
            Some(updater) => Ok(updater),
            None => match self.admin {
                Some(admin) => Ok(admin),
                None => Err(NftError::NotInitialized),
            },
        }
    }

    /// Passes if `caller` is the admin.
    pub fn require_admin(&self, caller: Address) -> (ok: Result<(), NftError>)
        ensures
            ok == nft_checked(self@.admin_error(caller)),
    {
        match self.admin {
            None => Err(NftError::NotInitialized),
            Some(admin) => {
                if admin != caller {
                    Err(NftError::NotAdmin)
                } else {
                    Ok(())
                }
            },
        }
    }

    /// Replaces the metadata reference of the token `token_id`. Until a
    /// metadata updater is set only the admin may do this; from then on only
    /// the updater.
    ///
    /// Fails if the new reference is not acceptable, then if the token is
    /// unknown, then if the caller may not update.
    pub fn update_token_uri(&mut self, caller: Address, token_id: u64, new_uri: String) -> (done:
        Result<(), NftError>)
        ensures
            match done {
                Ok(()) => {
                    &&& first_nft_error(
                        token_uri_error(new_uri@),
                        first_nft_error(
                            old(self)@.token_error(token_id),
                            old(self)@.updater_error(caller),
                        ),
                    ) is None
                    &&& final(self)@ == old(self)@.with_token_set(
                        token_id,
                        TokenView { token_uri: new_uri@, ..old(self)@.tokens[token_id as int] },
                    )
                },
                Err(e) => {
                    &&& first_nft_error(
                        token_uri_error(new_uri@),
                        first_nft_error(
                            old(self)@.token_error(token_id),
                            old(self)@.updater_error(caller),
                        ),
                    ) == Some(e)
                    &&& final(self)@ == old(self)@
                },
            },
            old(self)@.wf() ==> final(self)@.wf(),
    {
        match validate_token_uri(&new_uri) {
            Err(e) => {
                return Err(e);
            },
            Ok(()) => {},
        }
        match require_existing_token(self, token_id) {
            Err(e) => {
                return Err(e);
            },
            Ok(()) => {},
        }
        match self.metadata_updater {
            Some(updater) => {
                if updater != caller {
                    return Err(NftError::NotMetadataUpdater);
                }
            },
            None => {
                match self.require_admin(caller) {
                    Err(e) => {
                        return Err(e);
                    },
                    Ok(()) => {},
                }
            },
        }
        let ghost replaced = new_uri@;
        self.tokens[token_id as usize].token_uri = new_uri;
        proof {
            assert(self@.tokens =~= old(self)@.tokens.update(
                token_id as int,
                TokenView { token_uri: replaced, ..old(self)@.tokens[token_id as int] },
            ));
        }
        Ok(())
    }

    /// Replaces the metadata reference of the token `token_id` on behalf of
    /// its creator, as long as the creator has not frozen it.
    ///
    /// Fails if the new reference is not acceptable, then if the token is
    /// unknown, then if the caller is not its creator, then if the creator's
    /// updates are disabled.
    pub fn update_token_uri_as_creator(
        &mut self,
        creator: Address,
        token_id: u64,
        new_uri: String,
    ) -> (done: Result<(), NftError>)
        ensures
            match done {
                Ok(()) => {
                    &&& old(self)@.creator_update_error(creator, token_id, new_uri@) is None
                    &&& final(self)@ == old(self)@.with_token_set(
                        token_id,
                        TokenView { token_uri: new_uri@, ..old(self)@.tokens[token_id as int] },
                    )
                },
                Err(e) => {
                    &&& old(self)@.creator_update_error(creator, token_id, new_uri@) == Some(e)
                    &&& final(self)@ == old(self)@
                },
            },
            old(self)@.wf() ==> final(self)@.wf(),
    {
        match validate_token_uri(&new_uri) {
            Err(e) => {
                return Err(e);
            },
            Ok(()) => {},
        }
        match require_existing_token(self, token_id) {
            Err(e) => {
                return Err(e);
            },
            Ok(()) => {},
        }
        let index: usize = token_id as usize;
        if self.tokens[index].creator != creator {
            return Err(NftError::NotTokenCreator);
        }
        if !self.tokens[index].creator_can_update_metadata {
            return Err(NftError::CreatorUpdatesDisabled);
        }
        let ghost replaced = new_uri@;
        self.tokens[index].token_uri = new_uri;
        proof {
            assert(self@.tokens =~= old(self)@.tokens.update(
                token_id as int,
                TokenView { token_uri: replaced, ..old(self)@.tokens[token_id as int] },
            ));
        }
        Ok(())
    }

    /// Ends, for good, the creator's right to replace the metadata reference
    /// of the token `token_id`.
    ///
    /// Fails if the token is unknown, then if the caller is not its creator.
    pub fn freeze_creator_metadata_updates(&mut self, creator: Address, token_id: u64) -> (done:
        Result<(), NftError>)
        ensures
            match done {
                Ok(()) => {
                    &&& old(self)@.creator_error(creator, token_id) is None
                    &&& final(self)@ == old(self)@.with_token_set(
                        token_id,
                        TokenView {
                            creator_can_update_metadata: false,
                            ..old(self)@.tokens[token_id as int]
                        },
                    )
                },
                Err(e) => {
                    &&& old(self)@.creator_error(creator, token_id) == Some(e)
                    &&& final(self)@ == old(self)@
                },
            },
            old(self)@.wf() ==> final(self)@.wf(),
    {
        match require_existing_token(self, token_id) {
            Err(e) => {
                return Err(e);
            },
            Ok(()) => {},
        }
        let index: usize = token_id as usize;
        if self.tokens[index].creator != creator {
            return Err(NftError::NotTokenCreator);
        }
        self.tokens[index].creator_can_update_metadata = false;
        proof {
            assert(self@.tokens =~= old(self)@.tokens.update(
                token_id as int,
                TokenView {
                    creator_can_update_metadata: false,
                    ..old(self)@.tokens[token_id as int]
                },
            ));
        }
        Ok(())
    }

    /// Names the only address that may mint finished tokens from now on. Only
    /// the admin may do this.
    pub fn set_minter(&mut self, caller: Address, minter: Address) -> (done: Result<(), NftError>)
        ensures
            done == nft_checked(old(self)@.admin_error(caller)),
            done is Ok ==> final(self)@ == (NftState { minter: Some(minter), ..old(self)@ }),
            done is Err ==> final(self)@ == old(self)@,
            old(self)@.wf() ==> final(self)@.wf(),
    {
        match self.require_admin(caller) {
            Err(e) => {
                return Err(e);
            },
            Ok(()) => {},
        }
        self.minter = Some(minter);
        Ok(())
    }

    /// Names the only address that may replace metadata references from now
    /// on, besides creators. Only the admin may do this.
    pub fn set_metadata_updater(&mut self, caller: Address, updater: Address) -> (done: Result<
        (),
        NftError,
    >)
        ensures
            done == nft_checked(old(self)@.admin_error(caller)),
            done is Ok ==> final(self)@ == (NftState {
                metadata_updater: Some(updater),
                ..old(self)@
            }),
            done is Err ==> final(self)@ == old(self)@,
            old(self)@.wf() ==> final(self)@.wf(),
    {
        match self.require_admin(caller) {
            Err(e) => {
                return Err(e);
            },
            Ok(()) => {},
        }
        self.metadata_updater = Some(updater);
        Ok(())
    }

    /// Hands the token `token_id` from `from`, the caller, to `to`.
    ///
    /// Fails if the token is unknown, then if `from` does not own it.
    pub fn transfer(&mut self, from: Address, to: Address, token_id: u64) -> (done: Result<
        (),
        NftError,
    >)
        ensures
            done == nft_checked(old(self)@.transfer_error(from, token_id)),
            done is Ok ==> final(self)@ == old(self)@.with_token_set(
                token_id,
                TokenView { owner: to, ..old(self)@.tokens[token_id as int] },
            ),
            done is Err ==> final(self)@ == old(self)@,
            old(self)@.wf() ==> final(self)@.wf(),
    {
        if token_id >= self.tokens.len() as u64 {
            return Err(NftError::TokenNotFound);
        }
        let index: usize = token_id as usize;
        if self.tokens[index].owner != from {
            return Err(NftError::NotOwner);
        }
        self.tokens[index].owner = to;
        proof {
            assert(self@.tokens =~= old(self)@.tokens.update(
                token_id as int,
                TokenView { owner: to, ..old(self)@.tokens[token_id as int] },
            ));
        }
        Ok(())
    }

    /// The owner of the token `token_id`.
    pub fn owner_of(&self, token_id: u64) -> (owner: Result<Address, NftError>)
        ensures
            match owner {
                Ok(o) => token_id < self@.tokens.len() && o == self@.tokens[token_id as int].owner,
                Err(e) => token_id >= self@.tokens.len() && e == NftError::TokenNotFound,
            },
    {
        if token_id < self.tokens.len() as u64 {
            Ok(self.tokens[token_id as usize].owner)
        } else {
            Err(NftError::TokenNotFound)
        }
    }

    /// The metadata reference of the token `token_id`.
    pub fn token_uri(&self, token_id: u64) -> (uri: Result<String, NftError>)
        ensures
            match uri {
                Ok(u) => token_id < self@.tokens.len() && u@
                    == self@.tokens[token_id as int].token_uri,
                Err(e) => token_id >= self@.tokens.len() && e == NftError::TokenNotFound,
            },
    {
        if token_id < self.tokens.len() as u64 {
            Ok(self.tokens[token_id as usize].token_uri.clone())
        } else {
            Err(NftError::TokenNotFound)
        }
    }

    /// The creator of the token `token_id`.
    pub fn creator_of(&self, token_id: u64) -> (creator: Result<Address, NftError>)
        ensures
            match creator {
                Ok(c) => token_id < self@.tokens.len() && c
                    == self@.tokens[token_id as int].creator,
                Err(e) => token_id >= self@.tokens.len() && e == NftError::TokenNotFound,
            },
    {
        if token_id < self.tokens.len() as u64 {
            Ok(self.tokens[token_id as usize].creator)
        } else {
            Err(NftError::TokenNotFound)
        }
    }

    /// The kind of the token `token_id`.
    pub fn token_kind(&self, token_id: u64) -> (kind: Result<TokenKind, NftError>)
        ensures
            match kind {
                Ok(k) => token_id < self@.tokens.len() && k == self@.tokens[token_id as int].kind,
                Err(e) => token_id >= self@.tokens.len() && e == NftError::TokenNotFound,
            },
    {
        if token_id < self.tokens.len() as u64 {
            Ok(self.tokens[token_id as usize].kind)
        } else {
            Err(NftError::TokenNotFound)
        }
    }

    /// Whether the token `token_id` is a commission egg.
    pub fn is_commission_egg(&self, token_id: u64) -> (egg: Result<bool, NftError>)
        ensures
            match egg {
                Ok(b) => token_id < self@.tokens.len() && b == (self@.tokens[token_id as int].kind
                    == TokenKind::CommissionEgg),
                Err(e) => token_id >= self@.tokens.len() && e == NftError::TokenNotFound,
            },
    {
        match self.token_kind(token_id) {
            Ok(kind) => Ok(kind == TokenKind::CommissionEgg),
            Err(e) => Err(e),
        }
    }

    /// Whether the creator of the token `token_id` may still replace its
    /// metadata reference.
    pub fn creator_can_update_metadata(&self, token_id: u64) -> (allowed: Result<bool, NftError>)
        ensures
            match allowed {
                Ok(b) => token_id < self@.tokens.len() && b
                    == self@.tokens[token_id as int].creator_can_update_metadata,
                Err(e) => token_id >= self@.tokens.len() && e == NftError::TokenNotFound,
            },
    {
        if token_id < self.tokens.len() as u64 {
            Ok(self.tokens[token_id as usize].creator_can_update_metadata)
        } else {
            Err(NftError::TokenNotFound)
        }
    }

    /// How many tokens were ever minted.
    pub fn total_supply(&self) -> (n: u64)
        ensures
            n == self@.tokens.len(),
    {
        self.tokens.len() as u64
    }
}

} // verus!
