//! Closing a lottery's sale.
use vstd::prelude::*;
use anchor_lang::prelude::Pubkey;
use crate::errors::{InstructionError, LotteryError};
use crate::events::LotteryClose;
use crate::keys::same_key;
use crate::state::{Lottery, LOTTERY_CLOSED, LOTTERY_OPEN};

verus! {

/// The first check that a close fails, in the order the program makes them:
/// the lottery must be open, be the one named, be closed by its owner, and its sale
/// must have ended before `now`.
pub open spec fn close_refusal(lottery: Lottery, caller: Pubkey, lottery_id: u64, now: i64) -> Option<LotteryError> {
    if lottery.status != LOTTERY_OPEN {
        Some(LotteryError::LotteryClosed)
    } else if lottery.id != lottery_id {
        Some(LotteryError::InvalidLotteryId)
    } else if lottery.owner != caller {
        Some(LotteryError::UnauthorizedOwner)
    } else if !(lottery.end_time < now) {
        Some(LotteryError::LotteryTimeUnElapsed)
    } else {
        None
    }
}

/// Whether a close stops the program: it reaches the clock check with a negative time,
/// which it reads as a `u64`.
pub open spec fn close_panics(lottery: Lottery, caller: Pubkey, lottery_id: u64, now: i64) -> bool {
    &&& lottery.status == LOTTERY_OPEN
    &&& lottery.id == lottery_id
    &&& lottery.owner == caller
    &&& now < 0
}

/// What a close answers and leaves, on inputs where it does not stop the program.
pub open spec fn close_outcome(
    lottery: Lottery,
    caller: Pubkey,
    lottery_id: u64,
    now: i64,
    r: Result<LotteryClose, InstructionError>,
    new_lottery: Lottery,
) -> bool {
    match close_refusal(lottery, caller, lottery_id, now) {
        Some(e) => r == Err::<LotteryClose, InstructionError>(InstructionError::Lottery(e))
            && new_lottery == lottery,
        None => r == Ok::<LotteryClose, InstructionError>(
            LotteryClose { lottery_id, first_ticket_id_next_lottery: 0 },
        ) && new_lottery == (Lottery { status: LOTTERY_CLOSED, ..lottery }),
    }
}

/// Closes the sale of a lottery whose time is up. `requires` leaves out the inputs on
/// which the program stops (`close_panics`); `try_close_lottery_handler` takes any input.
pub fn close_lottery_handler(
    lottery: &mut Lottery,
    caller: &Pubkey,
    lottery_id: u64,
    now: i64,
) -> (r: Result<LotteryClose, InstructionError>)
    requires
        !close_panics(*old(lottery), *caller, lottery_id, now),
    ensures
        close_outcome(*old(lottery), *caller, lottery_id, now, r, *final(lottery)),
{
    if lottery.status != LOTTERY_OPEN {
        return Err(InstructionError::Lottery(LotteryError::LotteryClosed));
    }
    if lottery.id != lottery_id {
        return Err(InstructionError::Lottery(LotteryError::InvalidLotteryId));
    }
    if !same_key(&lottery.owner, caller) {
        return Err(InstructionError::Lottery(LotteryError::UnauthorizedOwner));
    }
    let now_u64 = now as u64;
    if !(lottery.end_time < now_u64) {
        return Err(InstructionError::Lottery(LotteryError::LotteryTimeUnElapsed));
    }
    lottery.status = LOTTERY_CLOSED;
    Ok(LotteryClose { lottery_id, first_ticket_id_next_lottery: 0 })
}

/// Closes a lottery on any input: `None`, with nothing changed, where the program would
/// stop; otherwise what `close_lottery_handler` answers.
pub fn try_close_lottery_handler(
    lottery: &mut Lottery,
    caller: &Pubkey,
    lottery_id: u64,
    now: i64,
) -> (r: Option<Result<LotteryClose, InstructionError>>)
    ensures
        close_panics(*old(lottery), *caller, lottery_id, now) ==> r is None && *final(lottery) == *old(lottery),
        !close_panics(*old(lottery), *caller, lottery_id, now) ==> (r matches Some(x)
            && close_outcome(*old(lottery), *caller, lottery_id, now, x, *final(lottery))),
{
    if lottery.status == LOTTERY_OPEN && lottery.id == lottery_id && same_key(&lottery.owner, caller) && now < 0 {
        return None;
    }
    Some(close_lottery_handler(lottery, caller, lottery_id, now))
}

} // verus!
