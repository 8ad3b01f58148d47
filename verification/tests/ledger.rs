use token_ledger::erc20_token::{
    allowance, another_approve, another_transfer, approve, balance_of, decimals, initialize, mint,
    name, symbol, total_supply, transfer, transfer_from, Allowance, Balance, CustomError,
    MintState, MyError, Token, TokenAccountState,
};
use token_ledger::identity::Identity;

fn ident(n: u128) -> Identity {
    Identity { hi: 0, lo: n }
}

fn blank_token() -> Token {
    Token {
        name: String::new(),
        symbol: String::new(),
        total_supply: 0,
        decimals: 0,
    }
}

#[test]
fn initialize_token_credits_owner() {
    let owner = ident(1);
    let mut token = blank_token();
    let mut owner_balance = Balance {
        owner: Identity::null(),
        amount: 0,
    };
    let r = initialize(
        &mut token,
        &mut owner_balance,
        owner,
        String::from("Quest"),
        String::from("QST"),
        1_000_000,
    );
    assert_eq!(r, Ok(()));
    assert_eq!(name(&token), "Quest");
    assert_eq!(symbol(&token), "QST");
    assert_eq!(decimals(&token), 0);
    assert_eq!(total_supply(&token), 1_000_000);
    assert_eq!(owner_balance.owner, owner);
    assert_eq!(balance_of(&owner_balance), 1_000_000);
}

#[test]
fn transfer_moves_amount() {
    let owner = ident(1);
    let recipient_id = ident(2);
    let mut sender = Balance {
        owner,
        amount: 1_000_000,
    };
    let mut recipient = Balance {
        owner: recipient_id,
        amount: 0,
    };
    let r = transfer(owner, &mut sender, &mut recipient, 400);
    assert_eq!(r, Ok(()));
    assert_eq!(balance_of(&sender), 999_600);
    assert_eq!(balance_of(&recipient), 400);
}

#[test]
fn transfer_insufficient_funds_changes_nothing() {
    let owner = ident(1);
    let mut sender = Balance { owner, amount: 30 };
    let mut recipient = Balance {
        owner: ident(2),
        amount: 7,
    };
    let r = transfer(owner, &mut sender, &mut recipient, 31);
    assert_eq!(r, Err(MyError::InsufficientFunds));
    assert_eq!(balance_of(&sender), 30);
    assert_eq!(balance_of(&recipient), 7);
}

#[test]
fn transfer_from_over_allowance_fails_and_changes_nothing() {
    let owner = ident(1);
    let spender = ident(2);
    let mut record = Allowance {
        owner: Identity::null(),
        spender: Identity::null(),
        amount: 0,
        bump: 0,
    };
    let ev = approve(&mut record, owner, spender, 100).unwrap();
    assert_eq!(ev.owner, owner);
    assert_eq!(ev.spender, spender);
    assert_eq!(ev.amount, 100);
    assert_eq!(allowance(&record), 100);

    let mut sender = Balance { owner, amount: 500 };
    let mut recipient = Balance {
        owner: ident(3),
        amount: 0,
    };
    let r = transfer_from(spender, &mut sender, &mut recipient, &mut record, 150);
    assert_eq!(r, Err(MyError::AllowanceExceeded));
    assert_eq!(allowance(&record), 100);
    assert_eq!(balance_of(&sender), 500);
    assert_eq!(balance_of(&recipient), 0);
}

#[test]
fn transfer_from_within_allowance_succeeds() {
    let owner = ident(1);
    let spender = ident(2);
    let mut record = Allowance {
        owner: Identity::null(),
        spender: Identity::null(),
        amount: 0,
        bump: 0,
    };
    assert!(approve(&mut record, owner, spender, 100).is_ok());

    let mut sender = Balance { owner, amount: 500 };
    let mut recipient = Balance {
        owner: ident(3),
        amount: 0,
    };
    let r = transfer_from(spender, &mut sender, &mut recipient, &mut record, 60);
    assert_eq!(r, Ok(()));
    assert_eq!(allowance(&record), 40);
    assert_eq!(balance_of(&sender), 440);
    assert_eq!(balance_of(&recipient), 60);
}

#[test]
fn transfer_from_insufficient_funds_is_atomic() {
    let owner = ident(1);
    let spender = ident(2);
    let mut record = Allowance {
        owner,
        spender,
        amount: 1_000,
        bump: 0,
    };
    let mut sender = Balance { owner, amount: 50 };
    let mut recipient = Balance {
        owner: ident(3),
        amount: 9,
    };
    let r = transfer_from(spender, &mut sender, &mut recipient, &mut record, 60);
    assert_eq!(r, Err(MyError::InsufficientFunds));
    assert_eq!(allowance(&record), 1_000);
    assert_eq!(balance_of(&sender), 50);
    assert_eq!(balance_of(&recipient), 9);
}

#[test]
fn approve_overwrites_previous_allowance() {
    let owner = ident(1);
    let spender = ident(2);
    let mut record = Allowance {
        owner: Identity::null(),
        spender: Identity::null(),
        amount: 0,
        bump: 3,
    };
    assert!(approve(&mut record, owner, spender, 70).is_ok());
    assert!(approve(&mut record, owner, spender, 25).is_ok());
    assert_eq!(allowance(&record), 25);
    assert_eq!(record.bump, 3);
}

#[test]
fn approve_rejects_null_identities() {
    let mut record = Allowance {
        owner: ident(1),
        spender: ident(2),
        amount: 55,
        bump: 4,
    };
    let before = record;
    assert_eq!(
        approve(&mut record, Identity::null(), ident(2), 10),
        Err(CustomError::ZeroAddress)
    );
    assert_eq!(
        approve(&mut record, ident(1), Identity::null(), 10),
        Err(CustomError::ZeroAddress)
    );
    assert_eq!(record, before);
    assert_eq!(allowance(&record), 55);
}

#[test]
fn conservation_over_a_run_of_transfers() {
    let a = ident(1);
    let b = ident(2);
    let c = ident(3);
    let mut bal_a = Balance {
        owner: a,
        amount: 600,
    };
    let mut bal_b = Balance {
        owner: b,
        amount: 300,
    };
    let mut bal_c = Balance {
        owner: c,
        amount: 100,
    };
    let before = bal_a.amount + bal_b.amount + bal_c.amount;

    assert_eq!(transfer(a, &mut bal_a, &mut bal_b, 250), Ok(()));
    assert_eq!(transfer(b, &mut bal_b, &mut bal_c, 400), Ok(()));
    assert_eq!(
        transfer(c, &mut bal_c, &mut bal_a, 501),
        Err(MyError::InsufficientFunds)
    );
    assert_eq!(transfer(c, &mut bal_c, &mut bal_a, 500), Ok(()));

    assert_eq!(bal_a.amount + bal_b.amount + bal_c.amount, before);
    assert_eq!(bal_a.amount, 850);
    assert_eq!(bal_b.amount, 150);
    assert_eq!(bal_c.amount, 0);
}

#[test]
fn mint_to_null_identity_fails_and_keeps_supply() {
    let mut state = MintState { total_supply: 1_000 };
    let mut account = TokenAccountState {
        owner: Identity::default(),
        balance: 0,
    };
    let r = mint(&mut state, &mut account, 500);
    assert_eq!(r, Err(CustomError::ZeroAddress));
    assert_eq!(state.total_supply, 1_000);
    assert_eq!(account.balance, 0);
}

#[test]
fn mint_reports_null_source() {
    let mut state = MintState { total_supply: 1_000 };
    let mut account = TokenAccountState {
        owner: ident(9),
        balance: 40,
    };
    let ev = mint(&mut state, &mut account, 500).unwrap();
    assert!(ev.from.is_null());
    assert_eq!(ev.to, ident(9));
    assert_eq!(ev.amount, 500);
    assert_eq!(state.total_supply, 1_500);
    assert_eq!(account.balance, 540);
}

#[test]
fn mint_overflow_is_atomic() {
    let mut state = MintState {
        total_supply: u64::MAX - 10,
    };
    let mut account = TokenAccountState {
        owner: ident(9),
        balance: 0,
    };
    let r = mint(&mut state, &mut account, 11);
    assert_eq!(r, Err(CustomError::MathOverflow));
    assert_eq!(state.total_supply, u64::MAX - 10);
    assert_eq!(account.balance, 0);

    let mut full = TokenAccountState {
        owner: ident(8),
        balance: u64::MAX,
    };
    let mut small_state = MintState { total_supply: 0 };
    let r2 = mint(&mut small_state, &mut full, 1);
    assert_eq!(r2, Err(CustomError::MathOverflow));
    assert_eq!(small_state.total_supply, 0);
    assert_eq!(full.balance, u64::MAX);
}

#[test]
fn another_transfer_rejects_null_identities() {
    let mut from_null = TokenAccountState {
        owner: Identity::null(),
        balance: 100,
    };
    let mut to_acc = TokenAccountState {
        owner: ident(2),
        balance: 0,
    };
    assert_eq!(
        another_transfer(&mut from_null, &mut to_acc, 10),
        Err(CustomError::ZeroAddress)
    );

    let mut from_acc = TokenAccountState {
        owner: ident(1),
        balance: 100,
    };
    let mut to_null = TokenAccountState {
        owner: Identity::null(),
        balance: 0,
    };
    assert_eq!(
        another_transfer(&mut from_acc, &mut to_null, 10),
        Err(CustomError::ZeroAddress)
    );
    assert_eq!(from_acc.balance, 100);
}

#[test]
fn another_transfer_moves_and_reports() {
    let mut from_acc = TokenAccountState {
        owner: ident(1),
        balance: 100,
    };
    let mut to_acc = TokenAccountState {
        owner: ident(2),
        balance: 5,
    };
    assert_eq!(
        another_transfer(&mut from_acc, &mut to_acc, 101),
        Err(CustomError::InsufficientBalance)
    );
    let ev = another_transfer(&mut from_acc, &mut to_acc, 100).unwrap();
    assert_eq!(ev.from, ident(1));
    assert_eq!(ev.to, ident(2));
    assert_eq!(ev.amount, 100);
    assert_eq!(from_acc.balance, 0);
    assert_eq!(to_acc.balance, 105);
}

#[test]
fn another_transfer_overflow_never_wraps() {
    let mut from_acc = TokenAccountState {
        owner: ident(1),
        balance: 50,
    };
    let mut to_acc = TokenAccountState {
        owner: ident(2),
        balance: u64::MAX - 10,
    };
    let r = another_transfer(&mut from_acc, &mut to_acc, 11);
    assert_eq!(r, Err(CustomError::MathOverflow));
    assert_eq!(from_acc.balance, 50);
    assert_eq!(to_acc.balance, u64::MAX - 10);
}

#[test]
fn another_approve_checks_identities_and_stamps_bump() {
    let mut record = Allowance {
        owner: Identity::null(),
        spender: Identity::null(),
        amount: 0,
        bump: 0,
    };
    assert_eq!(
        another_approve(&mut record, Identity::null(), ident(2), 10, 5),
        Err(CustomError::ZeroAddress)
    );
    assert_eq!(
        another_approve(&mut record, ident(1), Identity::null(), 10, 5),
        Err(CustomError::ZeroAddress)
    );
    assert_eq!(record.amount, 0);

    let ev = another_approve(&mut record, ident(1), ident(2), 10, 5).unwrap();
    assert_eq!(ev.owner, ident(1));
    assert_eq!(ev.spender, ident(2));
    assert_eq!(ev.amount, 10);
    assert_eq!(record.bump, 5);
    assert_eq!(allowance(&record), 10);
}
