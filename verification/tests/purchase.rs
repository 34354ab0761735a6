use solana_raffle::payment::{checked_fee, checked_wallet_limit, is_native_mint};
use solana_raffle::{
    buy_ticket, BuyTicketCtx, GlobalAccount, Payment, Pubkey, RaffleAccount, RaffleError,
    RaffleTicket, UserAccount,
};

const NATIVE_MINT: [u8; 32] = [
    6, 155, 136, 87, 254, 171, 129, 132, 251, 104, 127, 99, 70, 24, 192, 53, 218, 196, 57, 220, 26,
    235, 59, 85, 152, 160, 240, 0, 0, 0, 0, 1,
];

fn pu_key(n: u8) -> Pubkey {
    Pubkey { bytes: [n; 32] }
}

fn pu_global() -> GlobalAccount {
    GlobalAccount {
        authority: pu_key(1),
        vault: pu_key(2),
        total_raffles: 1,
        wl_collections: [Pubkey::default(); 10],
    }
}

fn pu_raffle(total_supply: u32, price: u64) -> RaffleAccount {
    RaffleAccount {
        idx: 0,
        authority: pu_key(3),
        spl_mint: pu_key(4),
        mint: pu_key(50),
        price,
        total_supply,
        total_sales: 0,
        winner_idx: 0,
        start_date: 100,
        end_date: 200,
        is_deposited: true,
        is_claimed: false,
        is_withdrawn: false,
        tickets: vec![RaffleTicket { uid: [0u8; 12] }; total_supply as usize],
    }
}

fn pu_ctx(total_supply: u32, price: u64) -> BuyTicketCtx {
    BuyTicketCtx {
        buyer: pu_key(10),
        global_account: pu_global(),
        raffle_account: pu_raffle(total_supply, price),
        user_account: None,
        spl_mint: pu_key(4),
        user_token_balance: 1_000_000,
    }
}

const UID_A: [u8; 12] = [1, 2, 3, 4, 5, 6, 7, 8, 9, 10, 11, 12];
const UID_B: [u8; 12] = [9; 12];

#[test]
fn buyer_reaches_the_wallet_cap_and_no_more() {
    let mut ctx = pu_ctx(100, 10);
    let first = buy_ticket(&mut ctx, 0, UID_A, 5, 150);
    assert_eq!(
        first,
        Ok(Payment {
            is_native: false,
            vault: pu_key(2),
            total_amount: 50,
            fee_amount: 0,
            remain_amount: 50,
        })
    );
    assert_eq!(ctx.raffle_account.total_sales, 5);
    assert_eq!(
        ctx.user_account,
        Some(UserAccount { raffle_idx: 0, authority: pu_key(10), uid: UID_A, amount: 5 })
    );

    let before = ctx.clone();
    assert_eq!(buy_ticket(&mut ctx, 0, UID_A, 36, 150), Err(RaffleError::WalletLimitExceed));
    assert_eq!(ctx, before);

    let third = buy_ticket(&mut ctx, 0, UID_A, 35, 150);
    assert_eq!(
        third,
        Ok(Payment {
            is_native: false,
            vault: pu_key(2),
            total_amount: 350,
            fee_amount: 3,
            remain_amount: 347,
        })
    );
    assert_eq!(ctx.raffle_account.total_sales, 40);
    assert_eq!(
        ctx.user_account,
        Some(UserAccount { raffle_idx: 0, authority: pu_key(10), uid: UID_A, amount: 40 })
    );
    assert_eq!(buy_ticket(&mut ctx, 0, UID_A, 1, 150), Err(RaffleError::WalletLimitExceed));
}

#[test]
fn purchase_fills_the_next_slots_in_order() {
    let mut ctx = pu_ctx(10, 1000);
    assert!(buy_ticket(&mut ctx, 0, UID_A, 3, 100).is_ok());
    ctx.user_account = None;
    ctx.buyer = pu_key(11);
    assert!(buy_ticket(&mut ctx, 0, UID_B, 2, 200).is_ok());
    let tickets: Vec<[u8; 12]> = ctx.raffle_account.tickets.iter().map(|t| t.uid).collect();
    let z = [0u8; 12];
    assert_eq!(tickets, vec![UID_A, UID_A, UID_A, UID_B, UID_B, z, z, z, z, z]);
    assert_eq!(ctx.raffle_account.total_sales, 5);
    assert!(ctx.raffle_account.is_wf());
    let mut expected = pu_raffle(10, 1000);
    expected.total_sales = 5;
    for i in 0..3 {
        expected.tickets[i] = RaffleTicket { uid: UID_A };
    }
    for i in 3..5 {
        expected.tickets[i] = RaffleTicket { uid: UID_B };
    }
    assert_eq!(ctx.raffle_account, expected);
    assert_eq!(
        ctx.user_account,
        Some(UserAccount { raffle_idx: 0, authority: pu_key(11), uid: UID_B, amount: 2 })
    );
}

#[test]
fn fee_is_one_percent_rounded_down() {
    for (price, amount, total, fee) in [
        (1000u64, 5u32, 5000u64, 50u64),
        (10, 5, 50, 0),
        (33, 3, 99, 0),
        (25, 4, 100, 1),
        (199, 1, 199, 1),
        (100, 2, 200, 2),
        (12345, 7, 86415, 864),
        (0, 7, 0, 0),
    ] {
        let mut ctx = pu_ctx(100, price);
        let payment = buy_ticket(&mut ctx, 0, UID_A, amount, 150).unwrap();
        assert_eq!(payment.total_amount, total);
        assert_eq!(payment.fee_amount, fee);
        assert_eq!(payment.remain_amount, total - fee);
        assert_eq!(payment.vault, pu_key(2));
    }
    assert_eq!(checked_fee(0), Ok(0));
    assert_eq!(checked_fee(99), Ok(0));
    assert_eq!(checked_fee(100), Ok(1));
    assert_eq!(checked_fee(10_000), Ok(100));
    assert_eq!(checked_fee(u64::MAX / 100), Ok(1844674407370955));
    assert_eq!(checked_fee(u64::MAX / 100 + 1), Err(RaffleError::NumericOverflow));
}

#[test]
fn wallet_limit_is_forty_percent_rounded_down() {
    assert_eq!(checked_wallet_limit(0), Ok(0));
    assert_eq!(checked_wallet_limit(1), Ok(0));
    assert_eq!(checked_wallet_limit(2), Ok(0));
    assert_eq!(checked_wallet_limit(3), Ok(1));
    assert_eq!(checked_wallet_limit(4), Ok(1));
    assert_eq!(checked_wallet_limit(5), Ok(2));
    assert_eq!(checked_wallet_limit(99), Ok(39));
    assert_eq!(checked_wallet_limit(100), Ok(40));
    assert_eq!(checked_wallet_limit(10000), Ok(4000));
    assert_eq!(checked_wallet_limit(1_073_741), Ok(429_496));
    assert_eq!(checked_wallet_limit(1_073_742), Err(RaffleError::NumericOverflow));
    assert_eq!(checked_wallet_limit(u32::MAX), Err(RaffleError::NumericOverflow));
}

#[test]
fn purchase_needs_an_open_window() {
    let mut ctx = pu_ctx(100, 10);
    let before = ctx.clone();
    assert_eq!(buy_ticket(&mut ctx, 0, UID_A, 5, 99), Err(RaffleError::RaffleNotStarted));
    assert_eq!(buy_ticket(&mut ctx, 0, UID_A, 5, 201), Err(RaffleError::RaffleExpired));
    assert_eq!(ctx, before);
    assert!(buy_ticket(&mut ctx, 0, UID_A, 5, 100).is_ok());
    assert!(buy_ticket(&mut ctx, 0, UID_A, 5, 200).is_ok());
}

#[test]
fn purchase_needs_a_deposited_prize() {
    let mut ctx = pu_ctx(100, 10);
    ctx.raffle_account.is_deposited = false;
    let before = ctx.clone();
    assert_eq!(buy_ticket(&mut ctx, 0, UID_A, 5, 150), Err(RaffleError::PrizeNotDeposited));
    // the window is looked at first
    assert_eq!(buy_ticket(&mut ctx, 0, UID_A, 5, 50), Err(RaffleError::RaffleNotStarted));
    assert_eq!(ctx, before);
}

#[test]
fn purchase_of_no_tickets_is_refused() {
    let mut ctx = pu_ctx(100, 10);
    let before = ctx.clone();
    assert_eq!(buy_ticket(&mut ctx, 0, UID_A, 0, 150), Err(RaffleError::InvalidAmount));
    assert_eq!(ctx, before);
}

#[test]
fn purchase_counts_without_wrapping() {
    let mut ctx = pu_ctx(100, 10);
    ctx.user_account =
        Some(UserAccount { raffle_idx: 0, authority: pu_key(10), uid: UID_A, amount: u32::MAX });
    let before = ctx.clone();
    assert_eq!(buy_ticket(&mut ctx, 0, UID_A, 1, 150), Err(RaffleError::NumericOverflow));
    assert_eq!(ctx, before);

    // a supply whose cap cannot be worked out in 32 bits
    let mut big = pu_ctx(0, 10);
    big.raffle_account.total_supply = 1_073_742;
    big.raffle_account.tickets = vec![RaffleTicket { uid: [0u8; 12] }; 1_073_742];
    assert_eq!(buy_ticket(&mut big, 0, UID_A, 1, 150), Err(RaffleError::NumericOverflow));

    // a price that cannot be multiplied in 64 bits
    let mut dear = pu_ctx(100, u64::MAX);
    dear.user_token_balance = u64::MAX;
    assert_eq!(buy_ticket(&mut dear, 0, UID_A, 2, 150), Err(RaffleError::NumericOverflow));
    assert_eq!(buy_ticket(&mut dear, 0, UID_A, 1, 150), Err(RaffleError::NumericOverflow));
    let mut fits = pu_ctx(100, u64::MAX / 100);
    fits.user_token_balance = u64::MAX;
    let payment = buy_ticket(&mut fits, 0, UID_A, 1, 150).unwrap();
    assert_eq!(payment.total_amount, 184467440737095516);
    assert_eq!(payment.fee_amount, 1844674407370955);
    assert_eq!(payment.remain_amount, 184467440737095516 - 1844674407370955);
}

#[test]
fn purchase_is_paid_in_the_asset_of_the_raffle() {
    let mut ctx = pu_ctx(100, 10);
    ctx.spl_mint = pu_key(5);
    let before = ctx.clone();
    assert_eq!(buy_ticket(&mut ctx, 0, UID_A, 5, 150), Err(RaffleError::InvalidMint));
    assert_eq!(ctx, before);
    // the cap is looked at before the asset
    assert_eq!(buy_ticket(&mut ctx, 0, UID_A, 41, 150), Err(RaffleError::WalletLimitExceed));
}

#[test]
fn record_of_another_owner_is_refused() {
    let mut ctx = pu_ctx(100, 10);
    assert!(buy_ticket(&mut ctx, 0, UID_A, 5, 150).is_ok());
    ctx.buyer = pu_key(11);
    let before = ctx.clone();
    assert_eq!(buy_ticket(&mut ctx, 0, UID_A, 5, 150), Err(RaffleError::InvalidWallet));
    assert_eq!(ctx, before);
    // the asset is looked at before the owner
    ctx.spl_mint = pu_key(5);
    assert_eq!(buy_ticket(&mut ctx, 0, UID_A, 5, 150), Err(RaffleError::InvalidMint));
}

#[test]
fn later_purchase_keeps_the_record_and_adds_to_it() {
    let mut ctx = pu_ctx(100, 10);
    ctx.user_account =
        Some(UserAccount { raffle_idx: 7, authority: pu_key(10), uid: UID_B, amount: 4 });
    assert!(buy_ticket(&mut ctx, 0, UID_A, 6, 150).is_ok());
    assert_eq!(
        ctx.user_account,
        Some(UserAccount { raffle_idx: 7, authority: pu_key(10), uid: UID_B, amount: 10 })
    );
    assert_eq!(ctx.raffle_account.tickets[5], RaffleTicket { uid: UID_A });
}

#[test]
fn first_purchase_opens_the_record_under_the_given_index() {
    let mut ctx = pu_ctx(100, 10);
    assert!(buy_ticket(&mut ctx, 42, UID_B, 1, 150).is_ok());
    assert_eq!(
        ctx.user_account,
        Some(UserAccount { raffle_idx: 42, authority: pu_key(10), uid: UID_B, amount: 1 })
    );
}

#[test]
fn purchase_needs_the_balance() {
    let mut ctx = pu_ctx(100, 10);
    ctx.user_token_balance = 49;
    let before = ctx.clone();
    assert_eq!(buy_ticket(&mut ctx, 0, UID_A, 5, 150), Err(RaffleError::InsufficientBalance));
    assert_eq!(ctx, before);
    ctx.user_token_balance = 50;
    assert!(buy_ticket(&mut ctx, 0, UID_A, 5, 150).is_ok());
    assert_eq!(ctx.user_token_balance, 50);
}

#[test]
fn purchase_does_not_pass_the_supply() {
    let mut ctx = pu_ctx(10, 1);
    for n in 0..2u8 {
        ctx.buyer = pu_key(20 + n);
        ctx.user_account = None;
        assert!(buy_ticket(&mut ctx, 0, [n; 12], 4, 150).is_ok());
    }
    assert_eq!(ctx.raffle_account.total_sales, 8);
    ctx.buyer = pu_key(30);
    ctx.user_account = None;
    let before = ctx.clone();
    assert_eq!(buy_ticket(&mut ctx, 0, UID_A, 3, 150), Err(RaffleError::SupplyLimitExceed));
    assert_eq!(ctx, before);
    // the balance is looked at before the supply
    ctx.user_token_balance = 2;
    assert_eq!(buy_ticket(&mut ctx, 0, UID_A, 3, 150), Err(RaffleError::InsufficientBalance));
    ctx.user_token_balance = 2;
    assert!(buy_ticket(&mut ctx, 0, UID_A, 2, 150).is_ok());
    assert_eq!(ctx.raffle_account.total_sales, 10);
    assert_eq!(ctx.raffle_account.tickets[9], RaffleTicket { uid: UID_A });
    ctx.buyer = pu_key(31);
    ctx.user_account = None;
    assert_eq!(buy_ticket(&mut ctx, 0, UID_B, 1, 150), Err(RaffleError::SupplyLimitExceed));
}

#[test]
fn small_raffle_sells_nothing_under_the_cap() {
    // forty percent of two tickets is no ticket at all
    let mut ctx = pu_ctx(2, 1);
    assert_eq!(buy_ticket(&mut ctx, 0, UID_A, 1, 150), Err(RaffleError::WalletLimitExceed));
    let mut three = pu_ctx(3, 1);
    assert!(buy_ticket(&mut three, 0, UID_A, 1, 150).is_ok());
    assert_eq!(buy_ticket(&mut three, 0, UID_A, 1, 150), Err(RaffleError::WalletLimitExceed));
}

#[test]
fn native_mint_is_told_from_tokens() {
    assert!(is_native_mint(&Pubkey { bytes: NATIVE_MINT }));
    assert!(!is_native_mint(&pu_key(4)));
    assert!(!is_native_mint(&Pubkey::default()));
    let mut almost = NATIVE_MINT;
    almost[31] = 2;
    assert!(!is_native_mint(&Pubkey { bytes: almost }));
    assert_eq!(
        anchor_spl::token::spl_token::native_mint::id().to_bytes(),
        NATIVE_MINT
    );
}

#[test]
fn payment_in_native_currency_is_marked() {
    let mut ctx = pu_ctx(100, 1000);
    ctx.raffle_account.spl_mint = Pubkey { bytes: NATIVE_MINT };
    ctx.spl_mint = Pubkey { bytes: NATIVE_MINT };
    let payment = buy_ticket(&mut ctx, 0, UID_A, 1, 150).unwrap();
    assert_eq!(
        payment,
        Payment {
            is_native: true,
            vault: pu_key(2),
            total_amount: 1000,
            fee_amount: 10,
            remain_amount: 990,
        }
    );
}
