use solana_raffle::{
    create_raffle, CreateRaffleCtx, GlobalAccount, Pubkey, RaffleAccount, RaffleError,
    RaffleTicket,
};

fn cr_key(n: u8) -> Pubkey {
    Pubkey { bytes: [n; 32] }
}

fn cr_ctx(total_raffles: u32) -> CreateRaffleCtx {
    CreateRaffleCtx {
        authority: cr_key(3),
        global_account: GlobalAccount {
            authority: cr_key(1),
            vault: cr_key(2),
            total_raffles,
            wl_collections: [Pubkey::default(); 10],
        },
        spl_mint: cr_key(4),
        raffle_account: RaffleAccount::default(),
    }
}

#[test]
fn create_raffle_fills_every_field() {
    let mut ctx = cr_ctx(7);
    assert_eq!(create_raffle(&mut ctx, 7, 100, 10, 1000, 2000, 500), Ok(()));
    let expected = RaffleAccount {
        idx: 7,
        authority: cr_key(3),
        spl_mint: cr_key(4),
        mint: Pubkey::default(),
        price: 10,
        total_supply: 100,
        total_sales: 0,
        winner_idx: 0,
        start_date: 1000,
        end_date: 2000,
        is_deposited: false,
        is_claimed: false,
        is_withdrawn: false,
        tickets: vec![RaffleTicket { uid: [0u8; 12] }; 100],
    };
    assert_eq!(ctx.raffle_account, expected);
    assert!(ctx.raffle_account.is_wf());
    assert_eq!(ctx.global_account.total_raffles, 8);
    assert_eq!(ctx.global_account.authority, cr_key(1));
    assert_eq!(ctx.global_account.vault, cr_key(2));
    assert_eq!(ctx.authority, cr_key(3));
    assert_eq!(ctx.spl_mint, cr_key(4));
}

#[test]
fn create_raffle_replaces_what_was_in_place() {
    let mut ctx = cr_ctx(0);
    ctx.raffle_account.is_claimed = true;
    ctx.raffle_account.winner_idx = 4;
    ctx.raffle_account.mint = cr_key(9);
    ctx.raffle_account.tickets = vec![RaffleTicket { uid: [5u8; 12] }; 3];
    assert_eq!(create_raffle(&mut ctx, 0, 2, 0, 0, 1, 0), Ok(()));
    assert_eq!(ctx.raffle_account.tickets, vec![RaffleTicket { uid: [0u8; 12] }; 2]);
    assert_eq!(ctx.raffle_account.winner_idx, 0);
    assert!(!ctx.raffle_account.is_claimed);
    assert_eq!(ctx.raffle_account.mint, Pubkey::default());
    assert_eq!(ctx.raffle_account.price, 0);
}

#[test]
fn create_raffle_needs_a_supply() {
    let mut ctx = cr_ctx(0);
    let before = ctx.clone();
    assert_eq!(create_raffle(&mut ctx, 0, 0, 10, 1000, 2000, 500), Err(RaffleError::InvalidAmount));
    assert_eq!(ctx, before);
    // an empty supply is reported before a wrong index
    assert_eq!(create_raffle(&mut ctx, 5, 0, 10, 1000, 2000, 500), Err(RaffleError::InvalidAmount));
}

#[test]
fn create_raffle_goes_in_order_of_index() {
    let mut ctx = cr_ctx(3);
    let before = ctx.clone();
    assert_eq!(
        create_raffle(&mut ctx, 2, 10, 10, 1000, 2000, 500),
        Err(RaffleError::InvalidRaffleIndex)
    );
    assert_eq!(
        create_raffle(&mut ctx, 4, 10, 10, 1000, 2000, 500),
        Err(RaffleError::InvalidRaffleIndex)
    );
    // a wrong index is reported before a wrong date
    assert_eq!(
        create_raffle(&mut ctx, 4, 10, 10, 2000, 1000, 500),
        Err(RaffleError::InvalidRaffleIndex)
    );
    assert_eq!(ctx, before);
    assert_eq!(create_raffle(&mut ctx, 3, 10, 10, 1000, 2000, 500), Ok(()));
    assert_eq!(ctx.global_account.total_raffles, 4);
    assert_eq!(
        create_raffle(&mut ctx, 3, 10, 10, 1000, 2000, 500),
        Err(RaffleError::InvalidRaffleIndex)
    );
    assert_eq!(create_raffle(&mut ctx, 4, 10, 10, 1000, 2000, 500), Ok(()));
    assert_eq!(ctx.raffle_account.idx, 4);
}

#[test]
fn create_raffle_checks_the_window() {
    let mut ctx = cr_ctx(0);
    let before = ctx.clone();
    assert_eq!(create_raffle(&mut ctx, 0, 10, 10, 2000, 2000, 500), Err(RaffleError::InvalidDate));
    assert_eq!(create_raffle(&mut ctx, 0, 10, 10, 2001, 2000, 500), Err(RaffleError::InvalidDate));
    assert_eq!(create_raffle(&mut ctx, 0, 10, 10, 1000, 2000, 2000), Err(RaffleError::InvalidDate));
    assert_eq!(create_raffle(&mut ctx, 0, 10, 10, 1000, 2000, 2001), Err(RaffleError::InvalidDate));
    assert_eq!(ctx, before);
    // a window may have started already, as long as it has not ended
    assert_eq!(create_raffle(&mut ctx, 0, 10, 10, 1000, 2000, 1999), Ok(()));
}

#[test]
fn create_raffle_counter_does_not_wrap() {
    let mut ctx = cr_ctx(u32::MAX);
    let before = ctx.clone();
    assert_eq!(
        create_raffle(&mut ctx, u32::MAX, 10, 10, 1000, 2000, 500),
        Err(RaffleError::NumericOverflow)
    );
    assert_eq!(ctx, before);
}

#[test]
fn raffle_size_counts_header_and_slots() {
    assert_eq!(RaffleAccount::size(0), 207);
    assert_eq!(RaffleAccount::size(1), 219);
    assert_eq!(RaffleAccount::size(100), 1407);
    assert_eq!(RaffleAccount::size(10000), 120207);
}

#[test]
fn default_raffle_is_empty_and_well_formed() {
    let raffle = RaffleAccount::default();
    assert!(raffle.is_wf());
    assert_eq!(raffle.total_supply, 0);
    assert_eq!(raffle.tickets.len(), 0);
    assert_eq!(raffle.authority, Pubkey::default());
}

#[test]
fn is_wf_tells_malformed_raffles() {
    let mut ctx = cr_ctx(0);
    assert_eq!(create_raffle(&mut ctx, 0, 4, 1, 0, 10, 0), Ok(()));
    let good = ctx.raffle_account.clone();
    assert!(good.is_wf());

    let mut short = good.clone();
    short.tickets.pop();
    assert!(!short.is_wf());

    let mut oversold = good.clone();
    oversold.total_sales = 5;
    assert!(!oversold.is_wf());

    let mut winner = good.clone();
    winner.winner_idx = 1;
    assert!(!winner.is_wf());

    let mut stray = good.clone();
    stray.tickets[2] = RaffleTicket { uid: [0, 0, 0, 0, 0, 0, 0, 0, 0, 0, 0, 1] };
    assert!(!stray.is_wf());
    stray.total_sales = 3;
    assert!(stray.is_wf());
    stray.winner_idx = 3;
    assert!(stray.is_wf());
}
