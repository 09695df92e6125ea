use fund_sol::{
    create, donate, withdraw, withdraw_to_floor, Create, Donate, Fundraiser, FundraiserAccount,
    Identity, LedgerError, Wallet, Withdraw, RECORD_SPACE,
};

fn fresh_record(admin: Identity, lamports: u64) -> FundraiserAccount {
    FundraiserAccount {
        fundraiser: Fundraiser {
            name: String::new(),
            description: String::new(),
            amount_donated: 0,
            admin,
        },
        lamports,
    }
}

/// The reserve floor the default rent schedule yields for the record's
/// allocated size, taken from the outside crate itself.
fn default_floor() -> u64 {
    anchor_lang::solana_program::rent::Rent::default().minimum_balance(RECORD_SPACE)
}

#[test]
fn create_initializes_record() {
    let a = Identity::new(11);
    let mut ctx = Create {
        fundraiser: fresh_record(Identity::new(0), 42),
        user: Wallet { key: a, lamports: 1_000 },
    };
    let r = create(&mut ctx, "Flood Relief".to_string(), "help flood victims".to_string());
    assert!(r.is_ok());
    assert_eq!(ctx.fundraiser.fundraiser.name, "Flood Relief");
    assert_eq!(ctx.fundraiser.fundraiser.description, "help flood victims");
    assert_eq!(ctx.fundraiser.fundraiser.amount_donated, 0);
    assert_eq!(ctx.fundraiser.fundraiser.admin, a);
    assert_eq!(ctx.fundraiser.lamports, 42);
    assert_eq!(ctx.user, Wallet { key: a, lamports: 1_000 });
}

#[test]
fn donate_moves_value_and_accumulates() {
    let mut ctx = Donate {
        fundraiser: fresh_record(Identity::new(1), 100),
        user: Wallet { key: Identity::new(2), lamports: 800 },
    };
    let r = donate(&mut ctx, 500);
    assert!(r.is_ok());
    assert_eq!(ctx.fundraiser.fundraiser.amount_donated, 500);
    assert_eq!(ctx.fundraiser.lamports, 600);
    assert_eq!(ctx.user.lamports, 300);
}

#[test]
fn donate_accumulates_over_a_run() {
    let mut ctx = Donate {
        fundraiser: fresh_record(Identity::new(1), 0),
        user: Wallet { key: Identity::new(2), lamports: 10_000 },
    };
    let amounts = [500u64, 300, 1, 0, 1_199];
    for amount in amounts {
        assert!(donate(&mut ctx, amount).is_ok());
    }
    assert_eq!(ctx.fundraiser.fundraiser.amount_donated, 2_000);
    assert_eq!(ctx.fundraiser.lamports, 2_000);
    assert_eq!(ctx.user.lamports, 8_000);
}

#[test]
fn donate_of_zero_succeeds_and_changes_nothing() {
    let mut ctx = Donate {
        fundraiser: fresh_record(Identity::new(1), 77),
        user: Wallet { key: Identity::new(2), lamports: 0 },
    };
    let before = ctx.clone();
    let r = donate(&mut ctx, 0);
    assert!(r.is_ok());
    assert_eq!(ctx, before);
}

#[test]
fn donate_exact_balance_drains_donor() {
    let mut ctx = Donate {
        fundraiser: fresh_record(Identity::new(1), 0),
        user: Wallet { key: Identity::new(2), lamports: 250 },
    };
    let r = donate(&mut ctx, 250);
    assert!(r.is_ok());
    assert_eq!(ctx.user.lamports, 0);
    assert_eq!(ctx.fundraiser.lamports, 250);
    assert_eq!(ctx.fundraiser.fundraiser.amount_donated, 250);
}

#[test]
fn failed_donate_leaves_everything_unchanged() {
    let mut ctx = Donate {
        fundraiser: fresh_record(Identity::new(1), 100),
        user: Wallet { key: Identity::new(2), lamports: 499 },
    };
    ctx.fundraiser.fundraiser.amount_donated = 100;
    let before = ctx.clone();
    let r = donate(&mut ctx, 500);
    assert_eq!(r, Err(LedgerError::InsufficientFunds));
    assert_eq!(ctx, before);
    assert_eq!(ctx.fundraiser.fundraiser.amount_donated, 100);
}

#[test]
fn withdraw_drains_to_reserve_floor() {
    let a = Identity::new(5);
    let floor = default_floor();
    let mut ctx = Withdraw {
        fundraiser: fresh_record(a, floor + 800),
        admin: Wallet { key: a, lamports: 10 },
    };
    ctx.fundraiser.fundraiser.amount_donated = 800;
    let r = withdraw(&mut ctx);
    assert!(r.is_ok());
    assert_eq!(ctx.fundraiser.lamports, floor);
    assert_eq!(ctx.fundraiser.fundraiser.amount_donated, 0);
    assert_eq!(ctx.admin.lamports, 810);
}

#[test]
fn reserve_floor_matches_rent_schedule() {
    // The default schedule charges 6960 lamports per byte over the
    // record's 9000 allocated bytes plus 128 bytes of account overhead.
    assert_eq!(default_floor(), 6_960 * (128 + 9_000));
    assert_eq!(default_floor(), 63_530_880);
    let a = Identity::new(5);
    let mut ctx = Withdraw {
        fundraiser: fresh_record(a, 63_530_880 + 1),
        admin: Wallet { key: a, lamports: 0 },
    };
    let r = withdraw(&mut ctx);
    assert!(r.is_ok());
    assert_eq!(ctx.fundraiser.lamports, 63_530_880);
    assert_eq!(ctx.admin.lamports, 1);
}

#[test]
fn withdraw_with_nothing_above_floor_is_insufficient() {
    let a = Identity::new(5);
    let mut ctx = Withdraw {
        fundraiser: fresh_record(a, default_floor()),
        admin: Wallet { key: a, lamports: 10 },
    };
    let before = ctx.clone();
    let r = withdraw(&mut ctx);
    assert_eq!(r, Err(LedgerError::InsufficientFunds));
    assert_eq!(ctx, before);
}

#[test]
fn withdraw_sweeps_balance_beyond_the_accumulator() {
    // The accumulator counts contributions since the last settlement, but
    // settlement drains everything above the floor, even balance that
    // arrived through some other channel.
    let a = Identity::new(5);
    let floor = default_floor();
    let mut ctx = Withdraw {
        fundraiser: fresh_record(a, floor + 1_000),
        admin: Wallet { key: a, lamports: 0 },
    };
    ctx.fundraiser.fundraiser.amount_donated = 300;
    let r = withdraw(&mut ctx);
    assert!(r.is_ok());
    assert_eq!(ctx.fundraiser.lamports, floor);
    assert_eq!(ctx.admin.lamports, 1_000);
    assert_eq!(ctx.fundraiser.fundraiser.amount_donated, 0);
}

#[test]
fn withdraw_by_non_admin_is_unauthorized() {
    let a = Identity::new(5);
    let b = Identity::new(6);
    let mut ctx = Withdraw {
        fundraiser: fresh_record(a, 1_000_000),
        admin: Wallet { key: b, lamports: 10 },
    };
    ctx.fundraiser.fundraiser.amount_donated = 123;
    let before = ctx.clone();
    let r = withdraw_to_floor(&mut ctx, 100);
    assert_eq!(r, Err(LedgerError::Unauthorized));
    assert_eq!(ctx, before);
}

#[test]
fn withdraw_below_floor_is_insufficient() {
    let a = Identity::new(5);
    let mut ctx = Withdraw {
        fundraiser: fresh_record(a, 100),
        admin: Wallet { key: a, lamports: 10 },
    };
    let before = ctx.clone();
    // The floor exceeds the held balance: the gap must be reported, never
    // wrapped into a huge withdrawal.
    let r = withdraw_to_floor(&mut ctx, 5_000);
    assert_eq!(r, Err(LedgerError::InsufficientFunds));
    assert_eq!(ctx, before);
}

#[test]
fn withdraw_at_exact_floor_is_insufficient() {
    let a = Identity::new(5);
    let mut ctx = Withdraw {
        fundraiser: fresh_record(a, 5_000),
        admin: Wallet { key: a, lamports: 10 },
    };
    let before = ctx.clone();
    let r = withdraw_to_floor(&mut ctx, 5_000);
    assert_eq!(r, Err(LedgerError::InsufficientFunds));
    assert_eq!(ctx, before);
}
