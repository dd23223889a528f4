use vstd::prelude::*;

verus! {

/// Why an instruction was rejected. A rejected instruction changes nothing.
#[derive(Clone, Copy, Debug, PartialEq, Eq, Structural)]
pub enum LotteryError {
    /// A ticket purchase came at or after the round's end time.
    LotteryAlreadyEnded,
    /// The caller is not the registry's admin.
    NotAuthorized,
    /// The registry is paused.
    ContractIsPaused,
    /// The admin account handed to a ticket purchase is not the registry's admin.
    WrongAdminAccount,
    /// A round is already open.
    AnotherLotteryActive,
    /// The instruction names a round, but no round record is open.
    LotteryNotFound,
    /// A counter, a time or an amount would leave the range of its integer type.
    ArithmeticOverflow,
}

} // verus!
