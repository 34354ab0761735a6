use solana_raffle::pubkey::bytes_eq;
use solana_raffle::{
    add_prize, add_whitelist, buy_ticket, claim_prize, create_raffle, initialize, reveal_winner,
    withdraw_raffle, AddPrizeCtx, AddWhitelistCtx, BuyTicketCtx, ClaimPrizeCtx, Collection,
    CreateRaffleCtx, CustodyStep, GlobalAccount, InitializeCtx, Metadata, Pubkey, RaffleAccount,
    RaffleError, RevealWinnerCtx, TokenAccount, TokenStandard, UserAccount, WithdrawRaffleCtx,
};

fn lc_key(n: u8) -> Pubkey {
    Pubkey::new_from_array([n; 32])
}

#[test]
fn raffle_runs_from_creation_to_settlement() {
    let admin = lc_key(1);
    let vault = lc_key(2);
    let creator = lc_key(3);
    let token = lc_key(4);
    let prize = lc_key(50);
    let collection = lc_key(60);

    let mut init = InitializeCtx {
        authority: admin,
        vault,
        global_account: GlobalAccount {
            authority: Pubkey::default(),
            vault: Pubkey::default(),
            total_raffles: 0,
            wl_collections: [Pubkey::default(); 10],
        },
    };
    assert_eq!(initialize(&mut init), Ok(()));
    let mut wl = AddWhitelistCtx { authority: admin, global_account: init.global_account };
    assert_eq!(add_whitelist(&mut wl, collection), Ok(()));

    let mut create = CreateRaffleCtx {
        authority: creator,
        global_account: wl.global_account,
        spl_mint: token,
        raffle_account: RaffleAccount::default(),
    };
    assert_eq!(create_raffle(&mut create, 0, 10, 1000, 100, 200, 50), Ok(()));
    let global = create.global_account;
    assert_eq!(global.total_raffles, 1);

    // nothing is sold before the prize is in custody
    let mut early = BuyTicketCtx {
        buyer: lc_key(10),
        global_account: global,
        raffle_account: create.raffle_account.clone(),
        user_account: None,
        spl_mint: token,
        user_token_balance: 10_000,
    };
    assert_eq!(buy_ticket(&mut early, 0, [1; 12], 1, 150), Err(RaffleError::PrizeNotDeposited));

    let mut deposit = AddPrizeCtx {
        authority: creator,
        global_account: global,
        raffle_account: create.raffle_account.clone(),
        mint: prize,
        metadata: Metadata {
            token_standard: Some(TokenStandard::NonFungible),
            collection: Some(Collection { verified: true, key: collection }),
        },
        token_account: TokenAccount { mint: prize, owner: creator, amount: 1 },
    };
    assert_eq!(
        add_prize(&mut deposit, 0),
        Ok([CustodyStep::Approve { amount: 1 }, CustodyStep::Freeze])
    );
    let mut raffle = deposit.raffle_account.clone();
    assert_eq!(raffle.mint, prize);

    let mut escrow: u64 = 0;
    let mut fees: u64 = 0;
    let mut records: Vec<UserAccount> = Vec::new();
    let mut sold_before = 0;
    for (n, amount) in [(10u8, 4u32), (11, 3), (12, 3)] {
        let mut buy = BuyTicketCtx {
            buyer: lc_key(n),
            global_account: global,
            raffle_account: raffle.clone(),
            user_account: None,
            spl_mint: token,
            user_token_balance: 10_000,
        };
        let payment = buy_ticket(&mut buy, 0, [n; 12], amount, 150).unwrap();
        assert_eq!(payment.total_amount, 1000 * amount as u64);
        assert_eq!(payment.fee_amount, 10 * amount as u64);
        assert!(buy.raffle_account.total_sales >= sold_before);
        assert!(buy.raffle_account.total_sales <= buy.raffle_account.total_supply);
        sold_before = buy.raffle_account.total_sales;
        escrow += payment.remain_amount;
        fees += payment.fee_amount;
        records.push(buy.user_account.unwrap());
        raffle = buy.raffle_account.clone();
    }
    assert_eq!(raffle.total_sales, 10);
    assert_eq!(escrow, 9900);
    assert_eq!(fees, 100);

    // sold out: the winner is drawn before the window was to close
    let mut draw = RevealWinnerCtx {
        raffle_account: raffle.clone(),
        raffle_key: lc_key(70),
        recent_slothashes: vec![5; 32],
    };
    assert_eq!(reveal_winner(&mut draw, 0, 160), Ok(()));
    raffle = draw.raffle_account.clone();
    assert!(1 <= raffle.winner_idx && raffle.winner_idx <= 10);
    assert_eq!(raffle.end_date, 160);

    // the window is shut: nobody buys after the draw
    let mut late = BuyTicketCtx {
        buyer: lc_key(13),
        global_account: global,
        raffle_account: raffle.clone(),
        user_account: None,
        spl_mint: token,
        user_token_balance: 10_000,
    };
    assert_eq!(buy_ticket(&mut late, 0, [13; 12], 1, 161), Err(RaffleError::RaffleExpired));

    let winning_uid = raffle.tickets[raffle.winner_idx as usize - 1].uid;
    let mut winners = 0;
    for record in records.iter() {
        let mut claim = ClaimPrizeCtx {
            authority: record.authority,
            raffle_account: raffle.clone(),
            user_account: *record,
        };
        let res = claim_prize(&mut claim, 0, record.uid);
        if bytes_eq(&record.uid, &winning_uid) {
            assert_eq!(res, Ok([CustodyStep::Thaw, CustodyStep::Transfer { amount: 1 }]));
            winners += 1;
            raffle = claim.raffle_account.clone();
        } else if raffle.is_claimed {
            assert_eq!(res, Err(RaffleError::PrizeAlreadyClaimed));
        } else {
            assert_eq!(res, Err(RaffleError::WinnerNotMatched));
        }
    }
    assert_eq!(winners, 1);
    assert!(raffle.is_claimed);

    let mut withdraw =
        WithdrawRaffleCtx { raffle_account: raffle.clone(), spl_mint: token, escrow_balance: escrow };
    let withdrawal = withdraw_raffle(&mut withdraw, 0, 160).unwrap();
    assert_eq!(withdrawal.amount, 9900);
    assert_eq!(withdrawal.recipient, creator);
    assert_eq!(
        withdraw_raffle(&mut withdraw, 0, 170),
        Err(RaffleError::RaffleAlreadyWithdrawn)
    );
    assert!(withdraw.raffle_account.is_wf());
}

#[test]
fn identities_compare_by_their_bytes() {
    let a = Pubkey::new_from_array([3; 32]);
    let mut bytes = [3u8; 32];
    assert_eq!(a, Pubkey { bytes });
    assert_eq!(a.to_bytes(), bytes);
    bytes[31] = 4;
    assert_ne!(a, Pubkey { bytes });
    bytes[31] = 3;
    bytes[0] = 4;
    assert_ne!(a, Pubkey { bytes });
    assert!(Pubkey::default().is_zero());
    assert!(!a.is_zero());
    let mut last = [0u8; 32];
    last[31] = 1;
    assert!(!Pubkey::new_from_array(last).is_zero());
    assert!(bytes_eq(&[1u8, 2, 3], &[1u8, 2, 3]));
    assert!(!bytes_eq(&[1u8, 2, 3], &[1u8, 2, 4]));
    assert!(bytes_eq::<0>(&[], &[]));
}

#[test]
fn default_record_is_blank() {
    let user = UserAccount::default();
    assert_eq!(
        user,
        UserAccount { raffle_idx: 0, authority: Pubkey::default(), uid: [0; 12], amount: 0 }
    );
}
