use shimeji_contracts::address::Address;
use shimeji_contracts::error::ErrorKind;
use shimeji_contracts::nft::{
    require_existing_token, token_exists, validate_token_uri, NftError, ShimejiNft, TokenKind,
};

const ADMIN: Address = Address { kind: shimeji_contracts::address::AddressKind::Account, hi: 0, lo: 1 };

fn person(n: u128) -> Address {
    Address::account(7, n)
}

fn registry() -> ShimejiNft {
    let mut registry = ShimejiNft::new();
    registry.initialize(ADMIN).unwrap();
    registry
}

fn uri(text: &str) -> String {
    text.to_string()
}

#[test]
fn a_metadata_reference_has_seven_bytes_at_least() {
    assert_eq!(validate_token_uri(&uri("")), Err(NftError::TokenUriEmpty));
    assert_eq!(validate_token_uri(&uri("ipfs:/")), Err(NftError::TokenUriTooShort));
    assert_eq!(validate_token_uri(&uri("ipfs://")), Ok(()));
    // three letters of two bytes each and one of one are seven bytes
    assert_eq!(validate_token_uri(&uri("éééa")), Ok(()));
    assert_eq!(validate_token_uri(&uri("ééé")), Err(NftError::TokenUriTooShort));
    assert_eq!(NftError::TokenUriTooShort.message(), "token_uri too short");
    assert_eq!(NftError::TokenUriEmpty.message(), "token_uri cannot be empty");
    assert_eq!(NftError::TokenUriEmpty.kind(), ErrorKind::Validation);
}

#[test]
fn minting_is_for_the_admin_until_a_minter_is_named() {
    let mut fresh = ShimejiNft::new();
    assert_eq!(fresh.mint(ADMIN, ADMIN, uri("ipfs://a")), Err(NftError::NotInitialized));
    assert_eq!(fresh.mint(ADMIN, ADMIN, uri("")), Err(NftError::TokenUriEmpty));
    assert_eq!(fresh.set_minter(ADMIN, ADMIN), Err(NftError::NotInitialized));
    assert_eq!(fresh.initialize(ADMIN), Ok(()));
    let again = fresh.initialize(person(1)).unwrap_err();
    assert_eq!(again, NftError::AlreadyInitialized);
    assert_eq!(again.message(), "already initialized");

    let mut r = registry();
    let minter = person(1);
    assert_eq!(r.mint(minter, minter, uri("ipfs://a")), Err(NftError::NotAdmin));
    assert_eq!(r.set_minter(minter, minter), Err(NftError::NotAdmin));
    assert_eq!(r.set_metadata_updater(minter, minter), Err(NftError::NotAdmin));
    assert_eq!(r.require_admin(ADMIN), Ok(()));
    r.set_minter(ADMIN, minter).unwrap();
    // from now on the admin cannot mint finished tokens, but can mint eggs
    assert_eq!(r.mint(ADMIN, ADMIN, uri("ipfs://a")), Err(NftError::NotMinter));
    assert_eq!(r.mint(minter, person(2), uri("ipfs://a")), Ok(0));
    assert_eq!(
        r.mint_commission_egg(minter, person(2), person(3), uri("ipfs://b")),
        Err(NftError::NotAdmin)
    );
    assert_eq!(r.mint_commission_egg(ADMIN, person(2), person(3), uri("short")),
        Err(NftError::TokenUriTooShort));
    assert_eq!(r.mint_commission_egg(ADMIN, person(2), person(3), uri("ipfs://b")), Ok(1));
    assert_eq!(r.total_supply(), 2);
    assert_eq!(r.token_kind(0), Ok(TokenKind::Finished));
    assert_eq!(r.token_kind(1), Ok(TokenKind::CommissionEgg));
    assert_eq!(r.creator_of(0), Ok(person(2)));
    assert_eq!(r.creator_of(1), Ok(person(3)));
    assert_eq!(r.owner_of(1), Ok(person(2)));
    assert!(token_exists(&r, 1));
    assert!(!token_exists(&r, 2));
    assert_eq!(require_existing_token(&r, 1), Ok(()));
    assert_eq!(require_existing_token(&r, 2), Err(NftError::TokenNotFound));
}

#[test]
fn unknown_tokens_are_reported() {
    let mut r = registry();
    assert_eq!(r.owner_of(0), Err(NftError::TokenNotFound));
    assert_eq!(r.token_uri(0), Err(NftError::TokenNotFound));
    assert_eq!(r.creator_of(0), Err(NftError::TokenNotFound));
    assert_eq!(r.token_kind(0), Err(NftError::TokenNotFound));
    assert_eq!(r.is_commission_egg(0), Err(NftError::TokenNotFound));
    assert_eq!(r.creator_can_update_metadata(0), Err(NftError::TokenNotFound));
    assert_eq!(r.transfer(ADMIN, person(1), 0), Err(NftError::TokenNotFound));
    assert_eq!(r.freeze_creator_metadata_updates(ADMIN, 0), Err(NftError::TokenNotFound));
    assert_eq!(r.update_token_uri(ADMIN, 0, uri("ipfs://x")), Err(NftError::TokenNotFound));
    assert_eq!(
        r.update_token_uri_as_creator(ADMIN, 0, uri("ipfs://x")),
        Err(NftError::TokenNotFound)
    );
    assert_eq!(NftError::TokenNotFound.kind(), ErrorKind::NotFound);
    assert_eq!(NftError::TokenNotFound.message(), "token does not exist");
}

#[test]
fn only_the_owner_hands_a_token_over() {
    let mut r = registry();
    let alice = person(1);
    let bob = person(2);
    r.mint(ADMIN, alice, uri("ipfs://a")).unwrap();
    let refused = r.transfer(bob, bob, 0).unwrap_err();
    assert_eq!(refused, NftError::NotOwner);
    assert_eq!(refused.message(), "not the owner");
    assert_eq!(refused.kind(), ErrorKind::Unauthorized);
    assert_eq!(r.owner_of(0), Ok(alice));
    assert_eq!(r.transfer(alice, bob, 0), Ok(()));
    assert_eq!(r.owner_of(0), Ok(bob));
    // the creator stays
    assert_eq!(r.creator_of(0), Ok(alice));
    assert_eq!(r.transfer(alice, bob, 0), Err(NftError::NotOwner));
}

#[test]
fn metadata_is_replaced_by_the_updater_or_the_creator() {
    let mut r = registry();
    let owner = person(1);
    let creator = person(2);
    let updater = person(3);
    r.mint_commission_egg(ADMIN, owner, creator, uri("ipfs://egg")).unwrap();

    assert_eq!(r.update_token_uri(owner, 0, uri("ipfs://x")), Err(NftError::NotAdmin));
    assert_eq!(r.update_token_uri(ADMIN, 0, uri("x")), Err(NftError::TokenUriTooShort));
    r.set_metadata_updater(ADMIN, updater).unwrap();
    assert_eq!(r.update_token_uri(ADMIN, 0, uri("ipfs://x")), Err(NftError::NotMetadataUpdater));
    assert_eq!(r.update_token_uri(updater, 0, uri("ipfs://by-updater")), Ok(()));
    assert_eq!(r.token_uri(0), Ok(uri("ipfs://by-updater")));

    let refused = r.update_token_uri_as_creator(owner, 0, uri("ipfs://x")).unwrap_err();
    assert_eq!(refused, NftError::NotTokenCreator);
    assert_eq!(refused.message(), "not token creator");
    assert_eq!(r.update_token_uri_as_creator(creator, 0, uri("")), Err(NftError::TokenUriEmpty));
    assert_eq!(r.update_token_uri_as_creator(creator, 0, uri("ipfs://by-creator")), Ok(()));
    assert_eq!(r.token_uri(0), Ok(uri("ipfs://by-creator")));

    assert_eq!(r.freeze_creator_metadata_updates(owner, 0), Err(NftError::NotTokenCreator));
    assert_eq!(r.freeze_creator_metadata_updates(creator, 0), Ok(()));
    assert_eq!(r.creator_can_update_metadata(0), Ok(false));
    let refused = r.update_token_uri_as_creator(creator, 0, uri("ipfs://late")).unwrap_err();
    assert_eq!(refused, NftError::CreatorUpdatesDisabled);
    assert_eq!(refused.kind(), ErrorKind::InvalidState);
    assert_eq!(r.token_uri(0), Ok(uri("ipfs://by-creator")));
    // the updater is not bound by the freeze
    assert_eq!(r.update_token_uri(updater, 0, uri("ipfs://final")), Ok(()));
    assert_eq!(r.is_commission_egg(0), Ok(true));
}
