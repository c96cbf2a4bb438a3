//! Starting a lottery.
use vstd::prelude::*;
use anchor_lang::prelude::Pubkey;
use crate::errors::{InstructionError, LotteryError};
use crate::keys::same_key;
use crate::state::{GlobalState, Lottery, LOTTERY_OPEN};

verus! {

/// The lottery that a start makes of a fresh account: the next id, a sale that ends
/// `end_time` seconds after `now`, open, owned by the caller, at the given ticket price,
/// with the given randomness seed and no winners or left-overs yet.
pub open spec fn started_lottery(
    fresh: Lottery,
    global_state: GlobalState,
    caller: Pubkey,
    force: [u8; 32],
    end_time: u64,
    lottery_coin_amount_per_ticket: u64,
    now: i64,
) -> Lottery {
    Lottery {
        id: (global_state.current_lottery_id + 1) as u64,
        end_time: (end_time + (now as u64)) as u64,
        status: LOTTERY_OPEN,
        owner: caller,
        lottery_coin_amount_per_ticket,
        guess: 0,
        force,
        winner_match3: 0,
        winner_match4: 0,
        winner_match5: 0,
        winner_match6: 0,
        remain_match3: 0,
        remain_match4: 0,
        remain_match5: 0,
        remain_match6: 0,
        ..fresh
    }
}

/// The check that a start fails: only the global owner may start a lottery.
pub open spec fn start_refusal(global_state: GlobalState, caller: Pubkey) -> Option<LotteryError> {
    if caller != global_state.owner {
        Some(LotteryError::NotOwner)
    } else {
        None
    }
}

/// Whether a start stops the program: it passes its check but the next id or the end
/// time overflows a `u64`.
pub open spec fn start_panics(global_state: GlobalState, caller: Pubkey, end_time: u64, now: i64) -> bool {
    &&& start_refusal(global_state, caller) is None
    &&& (global_state.current_lottery_id == u64::MAX || end_time + (now as u64) > u64::MAX)
}

/// What a start answers and leaves, on inputs where it does not stop the program.
pub open spec fn start_outcome(
    global_state: GlobalState,
    lottery: Lottery,
    caller: Pubkey,
    force: [u8; 32],
    end_time: u64,
    lottery_coin_amount_per_ticket: u64,
    now: i64,
    r: Result<(), InstructionError>,
    new_global_state: GlobalState,
    new_lottery: Lottery,
) -> bool {
    match start_refusal(global_state, caller) {
        Some(e) => r == Err::<(), InstructionError>(InstructionError::Lottery(e))
            && new_global_state == global_state && new_lottery == lottery,
        None => {
            &&& r is Ok
            &&& new_global_state == (GlobalState {
                current_lottery_id: (global_state.current_lottery_id + 1) as u64,
                ..global_state
            })
            &&& new_lottery == started_lottery(lottery, global_state, caller, force, end_time, lottery_coin_amount_per_ticket, now)
        },
    }
}

/// Starts the next lottery in the fresh account `lottery`. Only the global owner may.
/// After it, the program requests randomness with the seed `force`. `requires` leaves out
/// the inputs on which the program stops (`start_panics`); `try_start_lottery_handler`
/// takes any input.
pub fn start_lottery_handler(
    global_state: &mut GlobalState,
    lottery: &mut Lottery,
    caller: &Pubkey,
    force: [u8; 32],
    end_time: u64,
    lottery_coin_amount_per_ticket: u64,
    now: i64,
) -> (r: Result<(), InstructionError>)
    requires
        !start_panics(*old(global_state), *caller, end_time, now),
    ensures
        start_outcome(*old(global_state), *old(lottery), *caller, force, end_time, lottery_coin_amount_per_ticket, now, r, *final(global_state), *final(lottery)),
{
    if !same_key(caller, &global_state.owner) {
        return Err(InstructionError::Lottery(LotteryError::NotOwner));
    }
    lottery.id = global_state.current_lottery_id + 1;
    lottery.end_time = end_time + now as u64;
    lottery.status = LOTTERY_OPEN;
    lottery.owner = *caller;
    lottery.lottery_coin_amount_per_ticket = lottery_coin_amount_per_ticket;
    lottery.guess = 0;
    lottery.force = force;
    lottery.winner_match3 = 0;
    lottery.winner_match4 = 0;
    lottery.winner_match5 = 0;
    lottery.winner_match6 = 0;
    lottery.remain_match3 = 0;
    lottery.remain_match4 = 0;
    lottery.remain_match5 = 0;
    lottery.remain_match6 = 0;
    global_state.current_lottery_id = global_state.current_lottery_id + 1;
    Ok(())
}

/// Starts a lottery on any input: `None`, with nothing changed, where the program would
/// stop; otherwise what `start_lottery_handler` answers.
pub fn try_start_lottery_handler(
    global_state: &mut GlobalState,
    lottery: &mut Lottery,
    caller: &Pubkey,
    force: [u8; 32],
    end_time: u64,
    lottery_coin_amount_per_ticket: u64,
    now: i64,
) -> (r: Option<Result<(), InstructionError>>)
    ensures
        start_panics(*old(global_state), *caller, end_time, now) ==> r is None
            && *final(global_state) == *old(global_state) && *final(lottery) == *old(lottery),
        !start_panics(*old(global_state), *caller, end_time, now) ==> (r matches Some(x)
            && start_outcome(*old(global_state), *old(lottery), *caller, force, end_time, lottery_coin_amount_per_ticket, now, x, *final(global_state), *final(lottery))),
{
    if same_key(caller, &global_state.owner) {
        if global_state.current_lottery_id == u64::MAX || end_time.checked_add(now as u64).is_none() {
            return None;
        }
    }
    Some(start_lottery_handler(global_state, lottery, caller, force, end_time, lottery_coin_amount_per_ticket, now))
}

} // verus!
