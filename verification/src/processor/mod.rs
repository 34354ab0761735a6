pub mod add_prize;
pub mod add_prize_pnft;
pub mod add_whitelist;
pub mod buy_ticket;
pub mod claim_prize;
pub mod claim_prize_pnft;
pub mod create_raffle;
pub mod initialize;
pub mod remove_whitelist;
pub mod reveal_winner;
pub mod update_setting;
pub mod withdraw_raffle;

pub use add_prize::{add_prize, AddPrizeCtx};
pub use add_prize_pnft::{add_prize_pnft, AddPrizePnftCtx};
pub use add_whitelist::{add_whitelist, AddWhitelistCtx};
pub use buy_ticket::{buy_ticket, BuyTicketCtx, Payment};
pub use claim_prize::{claim_prize, ClaimPrizeCtx};
pub use claim_prize_pnft::{claim_prize_pnft, ClaimPrizePnftCtx};
pub use create_raffle::{create_raffle, CreateRaffleCtx};
pub use initialize::{initialize, InitializeCtx};
pub use remove_whitelist::{remove_whitelist, RemoveWhitelistCtx};
pub use reveal_winner::{check_reveal, reveal_winner, winner_slot, RevealWinnerCtx};
pub use update_setting::{update_setting, UpdateSettingCtx};
pub use withdraw_raffle::{withdraw_raffle, WithdrawRaffleCtx, Withdrawal};
