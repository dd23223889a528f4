use lottery::errors::LotteryError;
use lottery::lottery::{
    buy_tickets, change_config, create_lottery, initialize, pause, resume, winner_payout,
    BuyTickets, ChangeConfig, CreateLottery, Initialize, Pause, Resume, WinnerPayout,
};
use lottery::program_accounts::{Key, Lottery, Program, Transfer};

fn key(b: u8) -> Key {
    Key { bytes: [b; 32] }
}

const ADMIN: u8 = 1;
const BUYER: u8 = 2;
const ROUND: u8 = 3;
const WINNER: u8 = 4;
const OTHER: u8 = 5;

fn fresh() -> Program {
    initialize(&Initialize { signer: key(ADMIN) })
}

fn with_round(price: u64, duration: u64, now: u64) -> Program {
    let mut p = fresh();
    let ctx = CreateLottery { admin: key(ADMIN), lottery_account: key(ROUND) };
    assert_eq!(create_lottery(&mut p, &ctx, price, duration, now), Ok(()));
    p
}

fn buy(p: &mut Program, tickets: u64, now: u64) -> Result<Vec<Transfer>, LotteryError> {
    buy_tickets(p, &BuyTickets { signer: key(BUYER), admin: key(ADMIN) }, tickets, now)
}

#[test]
fn initialize_sets_defaults() {
    let p = fresh();
    let g = p.global_state_account;
    assert_eq!(g.lotteries, 0);
    assert_eq!(g.active_lottery, None);
    assert_eq!(g.admin_authority, key(ADMIN));
    assert_eq!(g.fee, 0);
    assert!(!g.pause);
    assert!(p.lottery_account.is_none());
}

#[test]
fn full_round_scenario() {
    let mut p = fresh();
    let ctx = CreateLottery { admin: key(ADMIN), lottery_account: key(ROUND) };
    assert_eq!(create_lottery(&mut p, &ctx, 100, 3600, 1_000), Ok(()));
    let round = p.lottery_account.unwrap();
    assert_eq!(round.key, key(ROUND));
    assert_eq!(round.lottery.start_time, 1_000);
    assert_eq!(round.lottery.end_time, round.lottery.start_time + 3600);
    assert_eq!(round.lottery.lottery_number, 1);
    assert_eq!(p.global_state_account.active_lottery, Some(key(ROUND)));
    assert_eq!(p.global_state_account.lotteries, 1);

    assert_eq!(change_config(&mut p, &ChangeConfig { signer: key(ADMIN) }, Some(5), None), Ok(()));
    let ts = buy(&mut p, 3, 1_500).unwrap();
    assert_eq!(
        ts,
        vec![
            Transfer { from: key(BUYER), to: key(ROUND), amount: 300 },
            Transfer { from: key(BUYER), to: key(ADMIN), amount: 15 },
        ]
    );
    assert_eq!(p.lottery_account.unwrap().lottery.tickets_sold, 3);

    let rent: u64 = 1_113_600;
    let payout = WinnerPayout { winner: key(WINNER), admin: key(ADMIN) };
    let ts = winner_payout(&mut p, &payout, rent + 300, rent).unwrap();
    assert_eq!(
        ts,
        vec![
            Transfer { from: key(ROUND), to: key(WINNER), amount: 300 },
            Transfer { from: key(ROUND), to: key(ADMIN), amount: rent },
        ]
    );
    assert_eq!(p.global_state_account.active_lottery, None);
    assert!(p.lottery_account.is_none());
}

#[test]
fn second_round_refused_while_one_is_active() {
    let mut p = with_round(10, 60, 0);
    let before = p;
    let ctx = CreateLottery { admin: key(ADMIN), lottery_account: key(OTHER) };
    assert_eq!(create_lottery(&mut p, &ctx, 10, 60, 5), Err(LotteryError::AnotherLotteryActive));
    assert_eq!(p, before);
}

#[test]
fn purchase_adds_tickets_and_charges_price_plus_fee() {
    let mut p = with_round(7, 100, 0);
    assert_eq!(change_config(&mut p, &ChangeConfig { signer: key(ADMIN) }, Some(10), None), Ok(()));
    let ts = buy(&mut p, 4, 10).unwrap();
    assert_eq!(ts[0].amount, 28);
    assert_eq!(ts[1].amount, 2);
    let paid: u64 = ts.iter().filter(|t| t.from == key(BUYER)).map(|t| t.amount).sum();
    assert_eq!(paid, 30);
    assert_eq!(p.lottery_account.unwrap().lottery.tickets_sold, 4);
    let ts = buy(&mut p, 6, 20).unwrap();
    assert_eq!(ts[0].amount, 42);
    assert_eq!(ts[1].amount, 4);
    assert_eq!(p.lottery_account.unwrap().lottery.tickets_sold, 10);
}

#[test]
fn fee_rounds_down() {
    let mut p = with_round(10, 100, 0);
    assert_eq!(change_config(&mut p, &ChangeConfig { signer: key(ADMIN) }, Some(5), None), Ok(()));
    let ts = buy(&mut p, 1, 0).unwrap();
    assert_eq!(ts[0].amount, 10);
    assert_eq!(ts[1].amount, 0);
}

#[test]
fn zero_fee_and_zero_tickets() {
    let mut p = with_round(50, 100, 0);
    let ts = buy(&mut p, 0, 1).unwrap();
    assert_eq!(ts[0].amount, 0);
    assert_eq!(ts[1].amount, 0);
    assert_eq!(p.lottery_account.unwrap().lottery.tickets_sold, 0);
}

#[test]
fn purchase_at_or_after_end_refused() {
    let mut p = with_round(10, 100, 1_000);
    let before = p;
    assert_eq!(buy(&mut p, 1, 1_100), Err(LotteryError::LotteryAlreadyEnded));
    assert_eq!(buy(&mut p, 0, 5_000), Err(LotteryError::LotteryAlreadyEnded));
    let other = BuyTickets { signer: key(OTHER), admin: key(OTHER) };
    assert_eq!(buy_tickets(&mut p, &other, 1, 1_100), Err(LotteryError::LotteryAlreadyEnded));
    assert_eq!(p, before);
    assert!(buy(&mut p, 1, 1_099).is_ok());
}

#[test]
fn purchase_with_wrong_admin_refused() {
    let mut p = with_round(10, 100, 0);
    let ctx = BuyTickets { signer: key(BUYER), admin: key(OTHER) };
    assert_eq!(buy_tickets(&mut p, &ctx, 1, 1), Err(LotteryError::WrongAdminAccount));
    assert_eq!(p.lottery_account.unwrap().lottery.tickets_sold, 0);
}

#[test]
fn purchase_without_round_refused() {
    let mut p = fresh();
    assert_eq!(buy(&mut p, 1, 1), Err(LotteryError::LotteryNotFound));
    let payout = WinnerPayout { winner: key(WINNER), admin: key(ADMIN) };
    assert_eq!(winner_payout(&mut p, &payout, 10, 1), Err(LotteryError::LotteryNotFound));
}

#[test]
fn purchase_overflow_refused() {
    let mut p = with_round(u64::MAX / 2 + 1, 100, 0);
    assert_eq!(buy(&mut p, 2, 1), Err(LotteryError::ArithmeticOverflow));
    let mut p = with_round(1, 100, 0);
    assert_eq!(change_config(&mut p, &ChangeConfig { signer: key(ADMIN) }, Some(100), None), Ok(()));
    assert_eq!(buy(&mut p, u64::MAX, 1), Err(LotteryError::ArithmeticOverflow));
    assert_eq!(p.lottery_account.unwrap().lottery.tickets_sold, 0);
}

#[test]
fn payout_then_next_round_opens() {
    let mut p = with_round(10, 100, 0);
    let payout = WinnerPayout { winner: key(WINNER), admin: key(ADMIN) };
    let ts = winner_payout(&mut p, &payout, 1_000, 400).unwrap();
    assert_eq!(ts[0], Transfer { from: key(ROUND), to: key(WINNER), amount: 600 });
    assert_eq!(ts[1], Transfer { from: key(ROUND), to: key(ADMIN), amount: 400 });
    assert_eq!(p.global_state_account.active_lottery, None);
    let ctx = CreateLottery { admin: key(ADMIN), lottery_account: key(OTHER) };
    assert_eq!(create_lottery(&mut p, &ctx, 20, 50, 200), Ok(()));
    assert_eq!(p.global_state_account.lotteries, 2);
    assert_eq!(p.lottery_account.unwrap().lottery.lottery_number, 2);
    assert_eq!(p.global_state_account.active_lottery, Some(key(OTHER)));
}

#[test]
fn payout_checks() {
    let mut p = with_round(10, 100, 0);
    let before = p;
    let by_other = WinnerPayout { winner: key(WINNER), admin: key(OTHER) };
    assert_eq!(winner_payout(&mut p, &by_other, 1_000, 400), Err(LotteryError::NotAuthorized));
    let payout = WinnerPayout { winner: key(WINNER), admin: key(ADMIN) };
    assert_eq!(winner_payout(&mut p, &payout, 300, 400), Err(LotteryError::ArithmeticOverflow));
    assert_eq!(pause(&mut p, &Pause { admin: key(ADMIN) }), Ok(()));
    assert_eq!(winner_payout(&mut p, &payout, 1_000, 400), Err(LotteryError::ContractIsPaused));
    assert_eq!(resume(&mut p, &Resume { admin: key(ADMIN) }), Ok(()));
    assert_eq!(p, before);
    let ts = winner_payout(&mut p, &payout, 400, 400).unwrap();
    assert_eq!(ts[0].amount, 0);
    assert_eq!(ts[1].amount, 400);
}

#[test]
fn pause_blocks_gated_operations() {
    let mut p = with_round(10, 100, 0);
    assert_eq!(pause(&mut p, &Pause { admin: key(ADMIN) }), Ok(()));
    assert!(p.global_state_account.pause);
    let before = p;
    let cfg = ChangeConfig { signer: key(ADMIN) };
    assert_eq!(change_config(&mut p, &cfg, Some(3), None), Err(LotteryError::ContractIsPaused));
    let ctx = CreateLottery { admin: key(ADMIN), lottery_account: key(OTHER) };
    assert_eq!(create_lottery(&mut p, &ctx, 1, 1, 1), Err(LotteryError::ContractIsPaused));
    assert_eq!(buy(&mut p, 1, 1), Err(LotteryError::ContractIsPaused));
    assert_eq!(pause(&mut p, &Pause { admin: key(ADMIN) }), Err(LotteryError::ContractIsPaused));
    assert_eq!(p, before);
}

#[test]
fn resume_is_idempotent_and_reenables() {
    let mut p = fresh();
    let r = Resume { admin: key(ADMIN) };
    assert_eq!(resume(&mut p, &r), Ok(()));
    assert_eq!(p, fresh());
    assert_eq!(pause(&mut p, &Pause { admin: key(ADMIN) }), Ok(()));
    assert_eq!(resume(&mut p, &r), Ok(()));
    assert_eq!(resume(&mut p, &r), Ok(()));
    assert!(!p.global_state_account.pause);
    assert_eq!(change_config(&mut p, &ChangeConfig { signer: key(ADMIN) }, Some(2), None), Ok(()));
    let ctx = CreateLottery { admin: key(ADMIN), lottery_account: key(ROUND) };
    assert_eq!(create_lottery(&mut p, &ctx, 5, 10, 0), Ok(()));
    assert!(buy(&mut p, 1, 1).is_ok());
    assert_eq!(pause(&mut p, &Pause { admin: key(ADMIN) }), Ok(()));
}

#[test]
fn non_admin_refused_before_other_checks() {
    let mut p = with_round(10, 100, 0);
    assert_eq!(pause(&mut p, &Pause { admin: key(ADMIN) }), Ok(()));
    let before = p;
    let ctx = CreateLottery { admin: key(OTHER), lottery_account: key(WINNER) };
    assert_eq!(create_lottery(&mut p, &ctx, 1, u64::MAX, u64::MAX), Err(LotteryError::NotAuthorized));
    assert_eq!(pause(&mut p, &Pause { admin: key(OTHER) }), Err(LotteryError::NotAuthorized));
    assert_eq!(resume(&mut p, &Resume { admin: key(OTHER) }), Err(LotteryError::NotAuthorized));
    let cfg = ChangeConfig { signer: key(OTHER) };
    assert_eq!(change_config(&mut p, &cfg, Some(1), Some(key(OTHER))), Err(LotteryError::NotAuthorized));
    assert_eq!(p, before);
}

#[test]
fn change_config_updates_given_settings() {
    let mut p = fresh();
    let cfg = ChangeConfig { signer: key(ADMIN) };
    assert_eq!(change_config(&mut p, &cfg, Some(7), None), Ok(()));
    assert_eq!(p.global_state_account.fee, 7);
    assert_eq!(p.global_state_account.admin_authority, key(ADMIN));
    assert_eq!(change_config(&mut p, &cfg, None, Some(key(OTHER))), Ok(()));
    assert_eq!(p.global_state_account.fee, 7);
    assert_eq!(p.global_state_account.admin_authority, key(OTHER));
    assert_eq!(change_config(&mut p, &cfg, Some(1), None), Err(LotteryError::NotAuthorized));
    let cfg = ChangeConfig { signer: key(OTHER) };
    assert_eq!(change_config(&mut p, &cfg, None, None), Ok(()));
    assert_eq!(p.global_state_account.fee, 7);
}

#[test]
fn create_overflow_refused() {
    let mut p = fresh();
    let ctx = CreateLottery { admin: key(ADMIN), lottery_account: key(ROUND) };
    assert_eq!(create_lottery(&mut p, &ctx, 1, u64::MAX, 1), Err(LotteryError::ArithmeticOverflow));
    assert_eq!(p, fresh());
    assert_eq!(create_lottery(&mut p, &ctx, 1, u64::MAX - 1, 1), Ok(()));
    assert_eq!(p.lottery_account.unwrap().lottery.end_time, u64::MAX);
}

#[test]
fn key_equality_compares_every_byte() {
    let mut b = [9u8; 32];
    let a = Key { bytes: b };
    b[31] = 8;
    assert_ne!(a, Key { bytes: b });
    assert_eq!(a, key(9));
    let l = Lottery { tickets_sold: 0, lottery_number: 1, lottery_value: 2, start_time: 3, end_time: 4 };
    assert_eq!(l, l);
}

#[test]
fn later_round_is_addressed_by_the_active_reference() {
    let mut p = with_round(10, 100, 0);
    let payout = WinnerPayout { winner: key(WINNER), admin: key(ADMIN) };
    assert!(winner_payout(&mut p, &payout, 500, 100).is_ok());
    let ctx = CreateLottery { admin: key(ADMIN), lottery_account: key(OTHER) };
    assert_eq!(create_lottery(&mut p, &ctx, 3, 100, 200), Ok(()));
    let ts = buy(&mut p, 2, 250).unwrap();
    assert_eq!(ts[0], Transfer { from: key(BUYER), to: key(OTHER), amount: 6 });
    let round = p.lottery_account.unwrap();
    assert_eq!(round.key, key(OTHER));
    assert_eq!(round.lottery.lottery_number, 2);
    assert_eq!(round.lottery.tickets_sold, 2);
}
