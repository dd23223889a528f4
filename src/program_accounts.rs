use vstd::prelude::*;

verus! {

/// The 32-byte identity of an account or of a principal.
#[derive(Clone, Copy, Debug, Eq)]
pub struct Key {
    pub bytes: [u8; 32],
}

impl PartialEq for Key {
    fn eq(&self, o: &Key) -> (r: bool) {
        let mut i: usize = 0;
        while i < 32
            invariant
                0 <= i <= 32,
                forall|j: int| 0 <= j < i ==> self.bytes[j] == o.bytes[j],
            decreases 32 - i,
        {
            if self.bytes[i] != o.bytes[i] {
                return false;
            }
            i = i + 1;
        }
        assert(self.bytes =~= o.bytes);
        true
    }
}

impl vstd::std_specs::cmp::PartialEqSpecImpl for Key {
    open spec fn obeys_eq_spec() -> bool {
        true
    }

    open spec fn eq_spec(&self, o: &Key) -> bool {
        *self == *o
    }
}

/// The data of one lottery round.
#[derive(Clone, Copy, Debug, PartialEq, Eq, Structural)]
pub struct Lottery {
    /// Tickets sold so far; only purchases raise it.
    pub tickets_sold: u64,
    /// The registry's round counter at the moment the round was created.
    pub lottery_number: u32,
    /// The price of one ticket.
    pub lottery_value: u64,
    /// Unix seconds at which the round was created.
    pub start_time: u64,
    /// Unix seconds from which no ticket is sold.
    pub end_time: u64,
}

impl Lottery {
    /// Bytes that the round's data takes in its record.
    pub const MAX_SIZE: usize = 8 + 4 + 8 + 8 + 8;
}

/// The registry: the configuration shared by every round.
#[derive(Clone, Copy, Debug, PartialEq, Eq)]
pub struct GlobalState {
    /// Rounds ever created.
    pub lotteries: u32,
    /// The key of the open round, if one is open.
    pub active_lottery: Option<Key>,
    /// The one principal allowed to administer the lottery.
    pub admin_authority: Key,
    /// Percentage of each purchase that goes to the admin.
    pub fee: u8,
    /// While set, every instruction but `resume` is rejected.
    pub pause: bool,
}

impl GlobalState {
    /// Bytes that the registry's data takes in its record.
    pub const MAX_SIZE: usize = 4 + (1 + 32) + 32 + 1 + 1;
}

/// A round record: the key it is stored at and its data.
#[derive(Clone, Copy, Debug, PartialEq, Eq)]
pub struct LotteryAccount {
    pub key: Key,
    pub lottery: Lottery,
}

/// The records that the lottery keeps: the registry and the round record that is
/// open, if any. A round record is destroyed when its round is paid out.
#[derive(Clone, Copy, Debug, PartialEq, Eq)]
pub struct Program {
    pub global_state_account: GlobalState,
    pub lottery_account: Option<LotteryAccount>,
}

impl Program {
    /// The registry's active reference is set exactly while one round record is
    /// open, and it names that record.
    pub open spec fn wf(&self) -> bool {
        match self.lottery_account {
            Some(a) => self.global_state_account.active_lottery == Some(a.key),
            None => self.global_state_account.active_lottery is None,
        }
    }
}

/// A movement of `amount` units from the balance of `from` to that of `to`,
/// which the ledger performs together with the instruction that asked for it.
#[derive(Clone, Copy, Debug, PartialEq, Eq)]
pub struct Transfer {
    pub from: Key,
    pub to: Key,
    pub amount: u64,
}

/// What the transfers `ts` take out of the balance of `k`, in all.
pub open spec fn paid_by(ts: Seq<Transfer>, k: Key) -> int
    decreases ts.len(),
{
    if ts.len() == 0 {
        0
    } else {
        paid_by(ts.drop_last(), k) + if ts.last().from == k {
            ts.last().amount as int
        } else {
            0
        }
    }
}

/// What the transfers `ts` bring to the balance of `k`, in all.
pub open spec fn paid_to(ts: Seq<Transfer>, k: Key) -> int
    decreases ts.len(),
{
    if ts.len() == 0 {
        0
    } else {
        paid_to(ts.drop_last(), k) + if ts.last().to == k {
            ts.last().amount as int
        } else {
            0
        }
    }
}

} // verus!
