use htlc::amount::U256;
use htlc::escrow::{Paid, Payment};
use htlc::factory::HtlcFactory;
use htlc::hash::commitment;
use htlc::token::{Approval, Error, MintError, Psp22Token, Transfer};
use htlc::types::{Address, CallEnv};

fn alice() -> Address {
    Address { bytes: [1u8; 32] }
}

fn bob() -> Address {
    Address { bytes: [2u8; 32] }
}

fn charlie() -> Address {
    Address { bytes: [3u8; 32] }
}

#[test]
fn new_works() {
    let token = Psp22Token::new(alice(), 1000);
    assert_eq!(token.total_supply(), 1000);
    assert_eq!(token.balance_of(alice()), 1000);
    assert_eq!(token.balance_of(bob()), 0);
    assert_eq!(
        token.issue_record(alice()),
        Transfer { from: None, to: Some(alice()), value: 1000 }
    );
}

#[test]
fn transfer_works() {
    let mut token = Psp22Token::new(alice(), 1000);

    assert_eq!(token.transfer(alice(), bob(), 100).map(|_| ()), Ok(()));
    assert_eq!(token.balance_of(alice()), 900);
    assert_eq!(token.balance_of(bob()), 100);
    assert_eq!(token.total_supply(), 1000);
}

#[test]
fn transfer_fails_insufficient_balance() {
    let mut token = Psp22Token::new(alice(), 1000);

    assert_eq!(
        token.transfer(alice(), bob(), 2000).map(|_| ()),
        Err(Error::InsufficientBalance)
    );
    assert_eq!(token.balance_of(alice()), 1000);
    assert_eq!(token.balance_of(bob()), 0);
}

#[test]
fn approve_works() {
    let mut token = Psp22Token::new(alice(), 1000);

    assert_eq!(token.approve(alice(), bob(), 200).map(|_| ()), Ok(()));
    assert_eq!(token.allowance(alice(), bob()), 200);
    assert_eq!(token.allowance(bob(), alice()), 0);
}

#[test]
fn transfer_from_works() {
    let mut token = Psp22Token::new(alice(), 1000);

    assert_eq!(token.approve(alice(), bob(), 200).map(|_| ()), Ok(()));

    assert_eq!(
        token.transfer_from(bob(), alice(), charlie(), 100).map(|_| ()),
        Ok(())
    );

    assert_eq!(token.balance_of(alice()), 900);
    assert_eq!(token.balance_of(charlie()), 100);
    assert_eq!(token.allowance(alice(), bob()), 100);
}

#[test]
fn transfer_returns_its_record() {
    let mut token = Psp22Token::new(alice(), 1000);
    assert_eq!(
        token.transfer(alice(), bob(), 100),
        Ok(Transfer { from: Some(alice()), to: Some(bob()), value: 100 })
    );
    assert_eq!(
        token.transfer_from_to(&bob(), &charlie(), 40),
        Ok(Transfer { from: Some(bob()), to: Some(charlie()), value: 40 })
    );
    assert_eq!(token.balance_of(bob()), 60);
    assert_eq!(token.balance_of(charlie()), 40);
    assert_eq!(
        token.approve(bob(), alice(), 7),
        Ok(Approval { owner: bob(), spender: alice(), value: 7 })
    );
}

#[test]
fn transfer_to_oneself_changes_nothing() {
    let mut token = Psp22Token::new(alice(), 1000);
    assert!(token.transfer(alice(), alice(), 1000).is_ok());
    assert_eq!(token.balance_of(alice()), 1000);
    assert_eq!(token.transfer(alice(), alice(), 1001), Err(Error::InsufficientBalance));
    assert!(token.transfer(bob(), bob(), 0).is_ok());
    assert_eq!(token.balance_of(bob()), 0);
    assert_eq!(token.total_supply(), 1000);
}

#[test]
fn transfer_of_everything_and_of_nothing() {
    let mut token = Psp22Token::new(alice(), u128::MAX);
    assert!(token.transfer(alice(), bob(), u128::MAX).is_ok());
    assert_eq!(token.balance_of(alice()), 0);
    assert_eq!(token.balance_of(bob()), u128::MAX);
    assert!(token.transfer(alice(), bob(), 0).is_ok());
    assert_eq!(token.balance_of(bob()), u128::MAX);
    assert_eq!(token.transfer(alice(), bob(), 1), Err(Error::InsufficientBalance));
}

#[test]
fn transfer_from_checks_allowance_before_balance() {
    let mut token = Psp22Token::new(alice(), 1000);
    assert_eq!(
        token.transfer_from(bob(), alice(), charlie(), 1),
        Err(Error::InsufficientAllowance)
    );
    assert_eq!(
        token.transfer_from(bob(), charlie(), alice(), 1),
        Err(Error::InsufficientAllowance)
    );
    token.approve(charlie(), bob(), 50).unwrap();
    assert_eq!(
        token.transfer_from(bob(), charlie(), alice(), 50),
        Err(Error::InsufficientBalance)
    );
    assert_eq!(token.allowance(charlie(), bob()), 50);
    assert_eq!(token.balance_of(alice()), 1000);
    token.approve(alice(), bob(), 200).unwrap();
    token.approve(alice(), bob(), 30).unwrap();
    assert_eq!(token.allowance(alice(), bob()), 30);
    assert_eq!(
        token.transfer_from(bob(), alice(), charlie(), 31),
        Err(Error::InsufficientAllowance)
    );
    assert!(token.transfer_from(bob(), alice(), charlie(), 30).is_ok());
    assert_eq!(token.allowance(alice(), bob()), 0);
    assert_eq!(token.balance_of(charlie()), 30);
}

#[test]
fn token_escrow_moves_tokens_and_deposit() {
    let secret = [0x5Au8; 32];
    let h = commitment(&secret);
    let token_account = Address { bytes: [9u8; 32] };
    let factory_account = Address { bytes: [40u8; 32] };
    let escrow_account = Address { bytes: [50u8; 32] };
    let (creator, beneficiary, resolver) = (alice(), bob(), charlie());

    let mut token = Psp22Token::new(creator, 1000);
    token.approve(creator, factory_account, 500).unwrap();
    let mut escrow_native: u128 = 0;
    let mut resolver_native: u128 = 0;

    let factory = HtlcFactory::new([0xCD; 32]);
    let attached = CallEnv {
        caller: creator,
        transferred_value: U256::from_u128(10),
        block_number: 0,
    };
    let creation = factory
        .create_psp22_escrow(
            &attached,
            token_account,
            U256::from_u128(500),
            beneficiary,
            h,
            100,
            U256::from_u128(10),
            None,
        )
        .unwrap();
    let mut escrow = creation.instantiation.construct(factory_account, 0).unwrap();
    escrow_native += creation.instantiation.endowment.lo;
    let pull = creation.funding(creator, escrow_account).unwrap();
    assert_eq!(pull.token, token_account);
    let pulled = token
        .transfer_from(factory_account, pull.from, pull.to, pull.amount.to_u128().unwrap())
        .is_ok();
    assert!(creation.conclude(escrow_account, pulled).is_ok());
    assert_eq!(escrow_native, 10);
    assert_eq!(token.balance_of(escrow_account), 500);
    assert_eq!(token.balance_of(creator), 500);

    let at = CallEnv { caller: resolver, transferred_value: U256::zero(), block_number: 99 };
    let settlement = escrow.claim(&at, secret).unwrap();
    let principal_paid = match settlement.principal {
        Payment::PSP22 { token: ledger, to, amount, .. } => {
            assert_eq!(ledger, token_account);
            token.transfer(escrow_account, to, amount.to_u128().unwrap()).is_ok()
        }
        Payment::Native { .. } => false,
    };
    assert!(principal_paid);
    match settlement.deposit {
        Some(Payment::Native { to, amount }) => {
            assert_eq!(to, resolver);
            escrow_native -= amount.lo;
            resolver_native += amount.lo;
        }
        _ => panic!("the deposit is paid in native value"),
    }
    assert_eq!(escrow.settle_claim(Paid::All), Ok(()));
    assert_eq!(token.balance_of(beneficiary), 500);
    assert_eq!(token.balance_of(escrow_account), 0);
    assert_eq!(resolver_native, 10);
    assert_eq!(escrow_native, 0);
    assert!(escrow.claimed);
}

#[test]
fn mint_is_for_the_owner() {
    let mut token = Psp22Token::new(alice(), 1000);
    assert_eq!(token.owner(), alice());
    assert_eq!(token.mint(bob(), bob(), 5), Err(MintError::NotOwner));
    assert_eq!(token.total_supply(), 1000);
    assert_eq!(
        token.mint(alice(), bob(), 5),
        Ok(Some(Transfer { from: None, to: Some(bob()), value: 5 }))
    );
    assert_eq!(token.balance_of(bob()), 5);
    assert_eq!(token.total_supply(), 1005);
    assert_eq!(token.mint(alice(), alice(), 20).map(|_| ()), Ok(()));
    assert_eq!(token.balance_of(alice()), 1020);
    assert_eq!(token.total_supply(), 1025);
    assert_eq!(token.mint(alice(), bob(), 0), Ok(None));
    assert_eq!(token.total_supply(), 1025);
}

#[test]
fn mint_stops_at_the_largest_supply() {
    let mut token = Psp22Token::new(alice(), u128::MAX - 1);
    assert_eq!(token.mint(alice(), bob(), 2), Err(MintError::Overflow));
    assert_eq!(token.mint(bob(), bob(), 2), Err(MintError::NotOwner));
    assert_eq!(token.balance_of(bob()), 0);
    assert!(token.mint(alice(), bob(), 1).is_ok());
    assert_eq!(token.total_supply(), u128::MAX);
    assert_eq!(token.mint(alice(), bob(), 1), Err(MintError::Overflow));
}

#[test]
fn entries_and_restore_round_trip() {
    let mut token = Psp22Token::new(alice(), 1000);
    token.transfer(alice(), bob(), 100).unwrap();
    token.approve(alice(), charlie(), 40).unwrap();
    let (holders, grants) = token.entries();
    assert_eq!(holders, vec![(alice(), 900), (bob(), 100)]);
    assert_eq!(grants, vec![((alice(), charlie()), 40)]);
    let back = Psp22Token::restore(token.owner(), token.total_supply(), holders, grants).unwrap();
    assert_eq!(back.balance_of(alice()), 900);
    assert_eq!(back.balance_of(bob()), 100);
    assert_eq!(back.allowance(alice(), charlie()), 40);
    assert_eq!(back.total_supply(), 1000);
    assert_eq!(back.owner(), alice());
}

#[test]
fn restore_rejects_what_is_no_ledger() {
    assert!(Psp22Token::restore(alice(), 0, vec![], vec![]).is_some());
    assert!(Psp22Token::restore(alice(), 10, vec![(alice(), 4), (bob(), 6)], vec![]).is_some());
    assert!(Psp22Token::restore(alice(), 11, vec![(alice(), 4), (bob(), 6)], vec![]).is_none());
    assert!(Psp22Token::restore(alice(), 10, vec![(alice(), 4), (alice(), 6)], vec![]).is_none());
    assert!(Psp22Token::restore(
        alice(),
        u128::MAX,
        vec![(alice(), u128::MAX), (bob(), 1)],
        vec![]
    )
    .is_none());
    assert!(Psp22Token::restore(
        alice(),
        0,
        vec![],
        vec![((alice(), bob()), 1), ((alice(), bob()), 2)]
    )
    .is_none());
    assert!(Psp22Token::restore(
        alice(),
        0,
        vec![],
        vec![((alice(), bob()), 1), ((bob(), alice()), 2)]
    )
    .is_some());
}
