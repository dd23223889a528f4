use vstd::prelude::*;

use crate::errors::LotteryError;
use crate::program_accounts::{paid_by, paid_to, GlobalState, Key, Lottery, LotteryAccount, Program, Transfer};

verus! {

/// Who sets the lottery up: this principal becomes the admin.
#[derive(Clone, Copy, Debug)]
pub struct Initialize {
    pub signer: Key,
}

/// Who asks for a change of configuration.
#[derive(Clone, Copy, Debug)]
pub struct ChangeConfig {
    pub signer: Key,
}

/// Who asks for a new round, and the key at which its record was created.
#[derive(Clone, Copy, Debug)]
pub struct CreateLottery {
    pub admin: Key,
    pub lottery_account: Key,
}

/// Who buys tickets, and the account named as the admin that receives the fee.
#[derive(Clone, Copy, Debug)]
pub struct BuyTickets {
    pub signer: Key,
    pub admin: Key,
}

/// Who is paid the prize, and who asks for the payout.
#[derive(Clone, Copy, Debug)]
pub struct WinnerPayout {
    pub winner: Key,
    pub admin: Key,
}

/// Who asks for a pause.
#[derive(Clone, Copy, Debug)]
pub struct Pause {
    pub admin: Key,
}

/// Who asks for a resumption.
#[derive(Clone, Copy, Debug)]
pub struct Resume {
    pub admin: Key,
}

/// The registry as it stands after set-up by `signer`.
pub open spec fn initial_state(signer: Key) -> GlobalState {
    GlobalState { lotteries: 0, active_lottery: None, admin_authority: signer, fee: 0, pause: false }
}

/// The first check that rejects a change of configuration, if any.
pub open spec fn change_config_error(p: Program, ctx: ChangeConfig) -> Option<LotteryError> {
    if ctx.signer != p.global_state_account.admin_authority {
        Some(LotteryError::NotAuthorized)
    } else if p.global_state_account.pause {
        Some(LotteryError::ContractIsPaused)
    } else {
        None
    }
}

/// The records after a change of configuration: each setting given replaces the old one.
pub open spec fn after_change_config(p: Program, new_fee: Option<u8>, new_admin: Option<Key>) -> Program {
    Program {
        global_state_account: GlobalState {
            fee: match new_fee {
                Some(f) => f,
                None => p.global_state_account.fee,
            },
            admin_authority: match new_admin {
                Some(a) => a,
                None => p.global_state_account.admin_authority,
            },
            ..p.global_state_account
        },
        ..p
    }
}

/// The first check that rejects a new round, if any.
pub open spec fn create_lottery_error(p: Program, ctx: CreateLottery, duration: u64, now: u64) -> Option<
    LotteryError,
> {
    let g = p.global_state_account;
    if ctx.admin != g.admin_authority {
        Some(LotteryError::NotAuthorized)
    } else if g.pause {
        Some(LotteryError::ContractIsPaused)
    } else if g.active_lottery is Some {
        Some(LotteryError::AnotherLotteryActive)
    } else if g.lotteries == u32::MAX || now + duration > u64::MAX {
        Some(LotteryError::ArithmeticOverflow)
    } else {
        None
    }
}

/// The records after a new round opens at `now` for `duration` seconds.
pub open spec fn after_create_lottery(
    p: Program,
    ctx: CreateLottery,
    lotery_value: u64,
    duration: u64,
    now: u64,
) -> Program {
    let g = p.global_state_account;
    let number = (g.lotteries + 1) as u32;
    Program {
        global_state_account: GlobalState {
            lotteries: number,
            active_lottery: Some(ctx.lottery_account),
            ..g
        },
        lottery_account: Some(
            LotteryAccount {
                key: ctx.lottery_account,
                lottery: Lottery {
                    tickets_sold: 0,
                    lottery_number: number,
                    lottery_value: lotery_value,
                    start_time: now,
                    end_time: (now + duration) as u64,
                },
            },
        ),
    }
}

/// What `tickets` tickets cost at `price` each.
pub open spec fn ticket_amount(tickets: u64, price: u64) -> int {
    tickets * price
}

/// The fee on a purchase of `amount`: `fee` percent of it, rounded down.
pub open spec fn ticket_fee(fee: u8, amount: int) -> int {
    (fee * amount) / 100
}

/// The first check that rejects a ticket purchase, if any.
pub open spec fn buy_tickets_error(p: Program, ctx: BuyTickets, tickets: u64, now: u64) -> Option<
    LotteryError,
> {
    let g = p.global_state_account;
    match p.lottery_account {
        None => Some(LotteryError::LotteryNotFound),
        Some(a) => {
            let amount = ticket_amount(tickets, a.lottery.lottery_value);
            if g.pause {
                Some(LotteryError::ContractIsPaused)
            } else if now >= a.lottery.end_time {
                Some(LotteryError::LotteryAlreadyEnded)
            } else if ctx.admin != g.admin_authority {
                Some(LotteryError::WrongAdminAccount)
            } else if a.lottery.tickets_sold + tickets > u64::MAX || amount > u64::MAX || g.fee
                * amount > u64::MAX {
                Some(LotteryError::ArithmeticOverflow)
            } else {
                None
            }
        },
    }
}

/// The two transfers a purchase asks for: the price into the round's escrow,
/// and the fee, on top of it, to the admin.
pub open spec fn ticket_transfers(p: Program, ctx: BuyTickets, tickets: u64) -> Seq<Transfer> {
    let a = p.lottery_account.unwrap();
    let amount = ticket_amount(tickets, a.lottery.lottery_value);
    seq![
        Transfer { from: ctx.signer, to: a.key, amount: amount as u64 },
        Transfer {
            from: ctx.signer,
            to: ctx.admin,
            amount: ticket_fee(p.global_state_account.fee, amount) as u64,
        },
    ]
}

/// The records after `tickets` more tickets are sold.
pub open spec fn after_buy_tickets(p: Program, tickets: u64) -> Program {
    let a = p.lottery_account.unwrap();
    Program {
        lottery_account: Some(
            LotteryAccount {
                lottery: Lottery {
                    tickets_sold: (a.lottery.tickets_sold + tickets) as u64,
                    ..a.lottery
                },
                ..a
            },
        ),
        ..p
    }
}

/// The first check that rejects a payout, if any.
pub open spec fn winner_payout_error(p: Program, ctx: WinnerPayout, escrowed: u64, rent_due: u64) -> Option<
    LotteryError,
> {
    let g = p.global_state_account;
    if p.lottery_account is None {
        Some(LotteryError::LotteryNotFound)
    } else if g.pause {
        Some(LotteryError::ContractIsPaused)
    } else if ctx.admin != g.admin_authority {
        Some(LotteryError::NotAuthorized)
    } else if escrowed < rent_due {
        Some(LotteryError::ArithmeticOverflow)
    } else {
        None
    }
}

/// The transfers of a payout: all the escrow above the record's rent reserve to
/// the winner, then the reserve to the admin as the record is destroyed.
pub open spec fn payout_transfers(p: Program, ctx: WinnerPayout, escrowed: u64, rent_due: u64) -> Seq<
    Transfer,
> {
    let k = p.lottery_account.unwrap().key;
    seq![
        Transfer { from: k, to: ctx.winner, amount: (escrowed - rent_due) as u64 },
        Transfer { from: k, to: ctx.admin, amount: rent_due },
    ]
}

/// The records after a payout: the round record is gone and no round is active.
pub open spec fn after_winner_payout(p: Program) -> Program {
    Program {
        global_state_account: GlobalState { active_lottery: None, ..p.global_state_account },
        lottery_account: None,
    }
}

/// The first check that rejects a pause, if any.
pub open spec fn pause_error(p: Program, ctx: Pause) -> Option<LotteryError> {
    if ctx.admin != p.global_state_account.admin_authority {
        Some(LotteryError::NotAuthorized)
    } else if p.global_state_account.pause {
        Some(LotteryError::ContractIsPaused)
    } else {
        None
    }
}

/// The records with the pause flag set to `paused`.
pub open spec fn with_pause(p: Program, paused: bool) -> Program {
    Program { global_state_account: GlobalState { pause: paused, ..p.global_state_account }, ..p }
}

/// The check that rejects a resumption, if it fails.
pub open spec fn resume_error(p: Program, ctx: Resume) -> Option<LotteryError> {
    if ctx.admin != p.global_state_account.admin_authority {
        Some(LotteryError::NotAuthorized)
    } else {
        None
    }
}

/// Sets the lottery up: `ctx.signer` becomes the admin, no round is open,
/// nothing is paused and the fee is zero.
pub fn initialize(ctx: &Initialize) -> (r: Program)
    ensures
        r.global_state_account == initial_state(ctx.signer),
        r.lottery_account is None,
        r.wf(),
{
    Program {
        global_state_account: GlobalState {
            lotteries: 0,
            active_lottery: None,
            admin_authority: ctx.signer,
            fee: 0,
            pause: false,
        },
        lottery_account: None,
    }
}

/// Replaces the fee, the admin, or both, with those given. Only the admin may,
/// and not while paused.
pub fn change_config(
    program: &mut Program,
    ctx: &ChangeConfig,
    new_fee: Option<u8>,
    new_admin: Option<Key>,
) -> (r: Result<(), LotteryError>)
    requires
        old(program).wf(),
    ensures
        final(program).wf(),
        match change_config_error(*old(program), *ctx) {
            Some(e) => r == Err::<(), LotteryError>(e) && *final(program) == *old(program),
            None => r is Ok && *final(program) == after_change_config(*old(program), new_fee, new_admin),
        },
{
    if !(ctx.signer == program.global_state_account.admin_authority) {
        return Err(LotteryError::NotAuthorized);
    }
    if program.global_state_account.pause {
        return Err(LotteryError::ContractIsPaused);
    }
    if let Some(f) = new_fee {
        program.global_state_account.fee = f;
    }
    if let Some(a) = new_admin {
        program.global_state_account.admin_authority = a;
    }
    Ok(())
}

/// Opens a round at `ctx.lottery_account`: `lotery_value` per ticket, on sale from
/// `now` for `duration` seconds, numbered after the rounds created before it.
/// Only the admin may, not while paused, and not while another round is open.
pub fn create_lottery(
    program: &mut Program,
    ctx: &CreateLottery,
    lotery_value: u64,
    duration: u64,
    now: u64,
) -> (r: Result<(), LotteryError>)
    requires
        old(program).wf(),
    ensures
        final(program).wf(),
        match create_lottery_error(*old(program), *ctx, duration, now) {
            Some(e) => r == Err::<(), LotteryError>(e) && *final(program) == *old(program),
            None => r is Ok && *final(program) == after_create_lottery(
                *old(program),
                *ctx,
                lotery_value,
                duration,
                now,
            ),
        },
{
    if !(ctx.admin == program.global_state_account.admin_authority) {
        return Err(LotteryError::NotAuthorized);
    }
    if program.global_state_account.pause {
        return Err(LotteryError::ContractIsPaused);
    }
    if program.global_state_account.active_lottery.is_some() {
        return Err(LotteryError::AnotherLotteryActive);
    }
    if program.global_state_account.lotteries == u32::MAX || duration > u64::MAX - now {
        return Err(LotteryError::ArithmeticOverflow);
    }
    let number: u32 = program.global_state_account.lotteries + 1;
    program.global_state_account.lotteries = number;
    program.global_state_account.active_lottery = Some(ctx.lottery_account);
    program.lottery_account = Some(
        LotteryAccount {
            key: ctx.lottery_account,
            lottery: Lottery {
                tickets_sold: 0,
                lottery_number: number,
                lottery_value: lotery_value,
                start_time: now,
                end_time: now + duration,
            },
        },
    );
    Ok(())
}

/// The transfers of a purchase take from the buyer the price of the tickets
/// plus the fee, and bring the price to the round's escrow.
proof fn lemma_ticket_transfers_sum(p: Program, ctx: BuyTickets, tickets: u64)
    requires
        p.lottery_account is Some,
        ctx.signer != p.lottery_account.unwrap().key,
        0 <= ticket_amount(tickets, p.lottery_account.unwrap().lottery.lottery_value) <= u64::MAX,
        0 <= ticket_fee(
            p.global_state_account.fee,
            ticket_amount(tickets, p.lottery_account.unwrap().lottery.lottery_value),
        ) <= u64::MAX,
    ensures
        ({
            let amount = ticket_amount(tickets, p.lottery_account.unwrap().lottery.lottery_value);
            let ts = ticket_transfers(p, ctx, tickets);
            &&& paid_by(ts, ctx.signer) == amount + ticket_fee(p.global_state_account.fee, amount)
            &&& ctx.admin != p.lottery_account.unwrap().key ==> paid_to(
                ts,
                p.lottery_account.unwrap().key,
            ) == amount
        }),
{
    let ts = ticket_transfers(p, ctx, tickets);
    assert(ts.drop_last().drop_last() =~= Seq::<Transfer>::empty());
    reveal_with_fuel(paid_by, 3);
    reveal_with_fuel(paid_to, 3);
}

/// Sells `tickets` tickets of the open round to `ctx.signer` at `now`, and returns
/// the transfers that pay for them: the price into the round's escrow and the
/// fee to the admin. The round is the one that the registry names as active.
/// Rejected while paused, from the round's end time on, and where `ctx.admin`
/// is not the registry's admin.
pub fn buy_tickets(program: &mut Program, ctx: &BuyTickets, tickets: u64, now: u64) -> (r: Result<
    Vec<Transfer>,
    LotteryError,
>)
    requires
        old(program).wf(),
    ensures
        final(program).wf(),
        match buy_tickets_error(*old(program), *ctx, tickets, now) {
            Some(e) => r == Err::<Vec<Transfer>, LotteryError>(e) && *final(program) == *old(program),
            None => r is Ok && r->Ok_0@ == ticket_transfers(*old(program), *ctx, tickets)
                && *final(program) == after_buy_tickets(*old(program), tickets),
        },
        r is Ok ==> ({
            let a = old(program).lottery_account.unwrap();
            let amount = ticket_amount(tickets, a.lottery.lottery_value);
            &&& final(program).lottery_account.unwrap().lottery.tickets_sold == a.lottery.tickets_sold
                + tickets
            &&& ctx.signer != a.key ==> paid_by(r->Ok_0@, ctx.signer) == amount + ticket_fee(
                old(program).global_state_account.fee,
                amount,
            )
        }),
{
    let a = match program.lottery_account {
        Some(a) => a,
        None => {
            return Err(LotteryError::LotteryNotFound);
        },
    };
    if program.global_state_account.pause {
        return Err(LotteryError::ContractIsPaused);
    }
    if now >= a.lottery.end_time {
        return Err(LotteryError::LotteryAlreadyEnded);
    }
    if !(ctx.admin == program.global_state_account.admin_authority) {
        return Err(LotteryError::WrongAdminAccount);
    }
    let fee = program.global_state_account.fee as u64;
    let price = a.lottery.lottery_value;
    if tickets > u64::MAX - a.lottery.tickets_sold {
        return Err(LotteryError::ArithmeticOverflow);
    }
    if price != 0 && tickets > u64::MAX / price {
        assert(tickets * price > u64::MAX) by (nonlinear_arith)
            requires tickets > u64::MAX / price, price > 0;
        return Err(LotteryError::ArithmeticOverflow);
    }
    proof {
        if price != 0 {
            assert(tickets * price <= (u64::MAX / price) * price) by (nonlinear_arith)
                requires tickets <= u64::MAX / price, price > 0;
            assert((u64::MAX / price) * price <= u64::MAX) by (nonlinear_arith)
                requires price > 0;
        }
    }
    let amount: u64 = tickets * price;
    if fee != 0 && amount > u64::MAX / fee {
        assert(fee * amount > u64::MAX) by (nonlinear_arith)
            requires amount > u64::MAX / fee, fee > 0;
        return Err(LotteryError::ArithmeticOverflow);
    }
    proof {
        if fee != 0 {
            assert(fee * amount <= fee * (u64::MAX / fee)) by (nonlinear_arith)
                requires amount <= u64::MAX / fee, fee > 0;
            assert(fee * (u64::MAX / fee) <= u64::MAX) by (nonlinear_arith)
                requires fee > 0;
        } else {
            assert(fee * amount == 0);
        }
    }
    let fee_to_be_paid: u64 = (fee * amount) / 100;
    let sold = Lottery { tickets_sold: a.lottery.tickets_sold + tickets, ..a.lottery };
    program.lottery_account = Some(LotteryAccount { key: a.key, lottery: sold });
    let mut transfers: Vec<Transfer> = Vec::new();
    transfers.push(Transfer { from: ctx.signer, to: a.key, amount });
    transfers.push(Transfer { from: ctx.signer, to: ctx.admin, amount: fee_to_be_paid });
    proof {
        assert(transfers@ =~= ticket_transfers(*old(program), *ctx, tickets));
        if ctx.signer != a.key {
            lemma_ticket_transfers_sum(*old(program), *ctx, tickets);
        }
    }
    Ok(transfers)
}

/// Closes the open round: pays `escrowed`, the round record's balance, less
/// `rent_due`, the reserve its record needs, to `ctx.winner`; destroys the
/// record, which returns the reserve to the admin; and clears the registry's
/// active round. Only the admin may, and not while paused.
pub fn winner_payout(program: &mut Program, ctx: &WinnerPayout, escrowed: u64, rent_due: u64) -> (r:
    Result<Vec<Transfer>, LotteryError>)
    requires
        old(program).wf(),
    ensures
        final(program).wf(),
        match winner_payout_error(*old(program), *ctx, escrowed, rent_due) {
            Some(e) => r == Err::<Vec<Transfer>, LotteryError>(e) && *final(program) == *old(program),
            None => r is Ok && r->Ok_0@ == payout_transfers(*old(program), *ctx, escrowed, rent_due)
                && *final(program) == after_winner_payout(*old(program)),
        },
{
    let a = match program.lottery_account {
        Some(a) => a,
        None => {
            return Err(LotteryError::LotteryNotFound);
        },
    };
    if program.global_state_account.pause {
        return Err(LotteryError::ContractIsPaused);
    }
    if !(ctx.admin == program.global_state_account.admin_authority) {
        return Err(LotteryError::NotAuthorized);
    }
    if escrowed < rent_due {
        return Err(LotteryError::ArithmeticOverflow);
    }
    let balance: u64 = escrowed - rent_due;
    let mut transfers: Vec<Transfer> = Vec::new();
    transfers.push(Transfer { from: a.key, to: ctx.winner, amount: balance });
    transfers.push(Transfer { from: a.key, to: ctx.admin, amount: rent_due });
    program.global_state_account.active_lottery = None;
    program.lottery_account = None;
    proof {
        assert(transfers@ =~= payout_transfers(*old(program), *ctx, escrowed, rent_due));
    }
    Ok(transfers)
}

/// Pauses the lottery. Only the admin may, and not while already paused.
pub fn pause(program: &mut Program, ctx: &Pause) -> (r: Result<(), LotteryError>)
    requires
        old(program).wf(),
    ensures
        final(program).wf(),
        match pause_error(*old(program), *ctx) {
            Some(e) => r == Err::<(), LotteryError>(e) && *final(program) == *old(program),
            None => r is Ok && *final(program) == with_pause(*old(program), true),
        },
{
    if !(ctx.admin == program.global_state_account.admin_authority) {
        return Err(LotteryError::NotAuthorized);
    }
    if program.global_state_account.pause {
        return Err(LotteryError::ContractIsPaused);
    }
    program.global_state_account.pause = true;
    Ok(())
}

/// Lifts a pause. Only the admin may; lifting when nothing is paused succeeds
/// and changes nothing.
pub fn resume(program: &mut Program, ctx: &Resume) -> (r: Result<(), LotteryError>)
    requires
        old(program).wf(),
    ensures
        final(program).wf(),
        match resume_error(*old(program), *ctx) {
            Some(e) => r == Err::<(), LotteryError>(e) && *final(program) == *old(program),
            None => r is Ok && *final(program) == with_pause(*old(program), false),
        },
{
    if !(ctx.admin == program.global_state_account.admin_authority) {
        return Err(LotteryError::NotAuthorized);
    }
    program.global_state_account.pause = false;
    Ok(())
}

} // verus!
