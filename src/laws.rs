use vstd::prelude::*;

use crate::errors::LotteryError;
use crate::lottery::{
    after_winner_payout, buy_tickets_error, change_config_error, create_lottery_error,
    payout_transfers, pause_error, winner_payout_error, resume_error, with_pause, BuyTickets, ChangeConfig,
    CreateLottery, Pause, Resume, WinnerPayout,
};
use crate::program_accounts::{paid_to, Key, Program, Transfer};

verus! {

/// A new round is refused because another is active only while a round is
/// active. For the admin of an unpaused registry it is refused for that reason
/// exactly while a round is active, and otherwise it opens, as long as the round
/// counter and the end time fit their types.
pub proof fn lemma_create_lottery_refused_iff_active(
    p: Program,
    ctx: CreateLottery,
    duration: u64,
    now: u64,
)
    requires
        p.wf(),
    ensures
        create_lottery_error(p, ctx, duration, now) == Some(LotteryError::AnotherLotteryActive)
            ==> p.global_state_account.active_lottery is Some,
        ctx.admin == p.global_state_account.admin_authority && !p.global_state_account.pause ==> (
        create_lottery_error(p, ctx, duration, now) == Some(LotteryError::AnotherLotteryActive)
            <==> p.global_state_account.active_lottery is Some),
        ctx.admin == p.global_state_account.admin_authority && !p.global_state_account.pause
            && p.global_state_account.active_lottery is None && p.global_state_account.lotteries
            < u32::MAX && now + duration <= u64::MAX ==> create_lottery_error(
            p,
            ctx,
            duration,
            now,
        ) is None,
{
}

/// While the registry is not paused, a purchase in an open round at or after
/// its end time is refused as too late, whoever buys and whatever the count.
pub proof fn lemma_buy_after_end_refused(p: Program, ctx: BuyTickets, tickets: u64, now: u64)
    requires
        p.wf(),
        p.lottery_account is Some,
        !p.global_state_account.pause,
        now >= p.lottery_account.unwrap().lottery.end_time,
    ensures
        buy_tickets_error(p, ctx, tickets, now) == Some(LotteryError::LotteryAlreadyEnded),
{
}

/// A payout hands the winner the escrow less the rent reserve, leaves no round
/// active, and lets the admin open the next round at once.
pub proof fn lemma_payout_reopens(
    p: Program,
    ctx: WinnerPayout,
    escrowed: u64,
    rent_due: u64,
    next: CreateLottery,
    duration: u64,
    now: u64,
)
    requires
        p.wf(),
        winner_payout_error(p, ctx, escrowed, rent_due) is None,
        next.admin == p.global_state_account.admin_authority,
        p.global_state_account.lotteries < u32::MAX,
        now + duration <= u64::MAX,
    ensures
        payout_transfers(p, ctx, escrowed, rent_due)[0] == (Transfer {
            from: p.lottery_account.unwrap().key,
            to: ctx.winner,
            amount: (escrowed - rent_due) as u64,
        }),
        ctx.winner != ctx.admin ==> paid_to(payout_transfers(p, ctx, escrowed, rent_due), ctx.winner)
            == escrowed - rent_due,
        after_winner_payout(p).wf(),
        after_winner_payout(p).global_state_account.active_lottery is None,
        create_lottery_error(after_winner_payout(p), next, duration, now) is None,
{
    let ts = payout_transfers(p, ctx, escrowed, rent_due);
    assert(ts.drop_last().drop_last() =~= Seq::<Transfer>::empty());
    reveal_with_fuel(paid_to, 3);
}

/// Once paused, the admin's changes of configuration, new rounds and pauses are
/// refused as paused, and so is every purchase in the open round.
pub proof fn lemma_pause_blocks(
    p: Program,
    ctx: Pause,
    config: ChangeConfig,
    create: CreateLottery,
    duration: u64,
    buy: BuyTickets,
    tickets: u64,
    again: Pause,
    now: u64,
)
    requires
        p.wf(),
        pause_error(p, ctx) is None,
        config.signer == p.global_state_account.admin_authority,
        create.admin == p.global_state_account.admin_authority,
        again.admin == p.global_state_account.admin_authority,
    ensures
        ({
            let q = with_pause(p, true);
            &&& change_config_error(q, config) == Some(LotteryError::ContractIsPaused)
            &&& create_lottery_error(q, create, duration, now) == Some(
                LotteryError::ContractIsPaused,
            )
            &&& q.lottery_account is Some ==> buy_tickets_error(q, buy, tickets, now) == Some(
                LotteryError::ContractIsPaused,
            )
            &&& pause_error(q, again) == Some(LotteryError::ContractIsPaused)
        }),
{
}

/// The admin's resumption succeeds whether or not the registry is paused, a
/// second one changes nothing more, and afterwards no instruction of the admin
/// is refused as paused.
pub proof fn lemma_resume_reenables(
    p: Program,
    ctx: Resume,
    config: ChangeConfig,
    create: CreateLottery,
    duration: u64,
    buy: BuyTickets,
    tickets: u64,
    again: Pause,
    now: u64,
)
    requires
        p.wf(),
        ctx.admin == p.global_state_account.admin_authority,
        config.signer == p.global_state_account.admin_authority,
        again.admin == p.global_state_account.admin_authority,
    ensures
        resume_error(p, ctx) is None,
        resume_error(with_pause(p, false), ctx) is None,
        with_pause(with_pause(p, false), false) == with_pause(p, false),
        ({
            let q = with_pause(p, false);
            &&& change_config_error(q, config) is None
            &&& pause_error(q, again) is None
            &&& create_lottery_error(q, create, duration, now) != Some(
                LotteryError::ContractIsPaused,
            )
            &&& buy_tickets_error(q, buy, tickets, now) != Some(LotteryError::ContractIsPaused)
        }),
{
}

/// A caller other than the admin is refused as not authorized on a new round, a
/// pause, a resumption and a change of configuration, before any other check.
pub proof fn lemma_non_admin_refused(p: Program, caller: Key, duration: u64, now: u64, round: Key)
    requires
        caller != p.global_state_account.admin_authority,
    ensures
        create_lottery_error(p, CreateLottery { admin: caller, lottery_account: round }, duration, now)
            == Some(LotteryError::NotAuthorized),
        pause_error(p, Pause { admin: caller }) == Some(LotteryError::NotAuthorized),
        resume_error(p, Resume { admin: caller }) == Some(LotteryError::NotAuthorized),
        change_config_error(p, ChangeConfig { signer: caller }) == Some(LotteryError::NotAuthorized),
{
}

} // verus!
