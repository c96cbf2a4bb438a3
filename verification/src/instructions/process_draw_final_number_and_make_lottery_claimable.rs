//! Pricing the prizes in ANTC, depositing them, and drawing a closed lottery.
use vstd::prelude::*;
use anchor_lang::prelude::Pubkey;
use crate::errors::{InstructionError, LotteryError};
use crate::events::LotteryNumberDrawn;
use crate::keys::same_key;
use crate::state::{is_tier, GlobalState, Lottery, Reward, LOTTERY_CLAIMABLE, LOTTERY_CLOSED};

verus! {

// ---------------------------------------------------------------- pricing

/// The ANTC that a lottery's prizes are worth: the lottery coin collected, scaled by
/// `10^6` and converted at `lottery_price / antc_price`, in integer division.
pub open spec fn antc_amount(collected: u64, lottery_price: u64, antc_price: u64) -> int {
    1_000_000 * collected * lottery_price / (antc_price as int)
}

/// Whether the pricing can be computed: a nonzero ANTC price and products that fit in a `u64`.
pub open spec fn antc_amount_fits(collected: u64, lottery_price: u64, antc_price: u64) -> bool {
    &&& antc_price != 0
    &&& 1_000_000 * collected <= u64::MAX
    &&& 1_000_000 * collected * lottery_price <= u64::MAX
}

/// The check that pricing fails: only the lottery's owner may price it.
pub open spec fn calculate_refusal(lottery: Lottery, caller: Pubkey) -> Option<LotteryError> {
    if lottery.owner != caller {
        Some(LotteryError::NotOwner)
    } else {
        None
    }
}

/// Whether pricing stops the program: it passes its check and its arithmetic cannot be done.
pub open spec fn calculate_panics(lottery: Lottery, caller: Pubkey, lottery_price: u64, antc_price: u64) -> bool {
    &&& calculate_refusal(lottery, caller) is None
    &&& !antc_amount_fits(lottery.amount_collected_in_lottery_coin, lottery_price, antc_price)
}

/// What pricing answers and leaves, on inputs where it does not stop the program.
pub open spec fn calculate_outcome(
    lottery: Lottery,
    caller: Pubkey,
    lottery_price: u64,
    antc_price: u64,
    r: Result<(), InstructionError>,
    new_lottery: Lottery,
) -> bool {
    match calculate_refusal(lottery, caller) {
        Some(e) => r == Err::<(), InstructionError>(InstructionError::Lottery(e)) && new_lottery == lottery,
        None => r is Ok && new_lottery == (Lottery {
            amount_antc_for_deposit: antc_amount(lottery.amount_collected_in_lottery_coin, lottery_price, antc_price) as u64,
            ..lottery
        }),
    }
}

/// Sets the amount of ANTC to deposit for a lottery's prizes. Only the lottery's owner may.
/// `requires` leaves out the inputs on which the program stops (`calculate_panics`);
/// `try_calculate_antc_for_lottery` takes any input.
pub fn calculate_antc_for_lottery(
    lottery: &mut Lottery,
    caller: &Pubkey,
    lottery_price: u64,
    antc_price: u64,
) -> (r: Result<(), InstructionError>)
    requires
        !calculate_panics(*old(lottery), *caller, lottery_price, antc_price),
    ensures
        calculate_outcome(*old(lottery), *caller, lottery_price, antc_price, r, *final(lottery)),
{
    if !same_key(&lottery.owner, caller) {
        return Err(InstructionError::Lottery(LotteryError::NotOwner));
    }
    let scale: u64 = 1_000_000;
    let amount = scale * lottery.amount_collected_in_lottery_coin * lottery_price / antc_price;
    lottery.amount_antc_for_deposit = amount;
    Ok(())
}

/// Prices a lottery on any input: `None`, with nothing changed, where the program would
/// stop; otherwise what `calculate_antc_for_lottery` answers.
pub fn try_calculate_antc_for_lottery(
    lottery: &mut Lottery,
    caller: &Pubkey,
    lottery_price: u64,
    antc_price: u64,
) -> (r: Option<Result<(), InstructionError>>)
    ensures
        calculate_panics(*old(lottery), *caller, lottery_price, antc_price) ==> r is None
            && *final(lottery) == *old(lottery),
        !calculate_panics(*old(lottery), *caller, lottery_price, antc_price) ==> (r matches Some(x)
            && calculate_outcome(*old(lottery), *caller, lottery_price, antc_price, x, *final(lottery))),
{
    if same_key(&lottery.owner, caller) {
        let scale: u64 = 1_000_000;
        let fits = antc_price != 0 && match scale.checked_mul(lottery.amount_collected_in_lottery_coin) {
            Some(v) => v.checked_mul(lottery_price).is_some(),
            None => false,
        };
        if !fits {
            return None;
        }
    }
    Some(calculate_antc_for_lottery(lottery, caller, lottery_price, antc_price))
}

// ---------------------------------------------------------------- depositing

/// Whether a deposit is accepted: of exactly the priced amount, and the first one.
pub open spec fn deposit_accepted(lottery: Lottery, amount: u64) -> bool {
    amount == lottery.amount_antc_for_deposit && !lottery.deposited
}

/// Records the deposit of a lottery's prizes, once, of exactly the priced amount. The
/// answer is the amount of ANTC that the depositor pays into the pool.
pub fn deposit_antc_for_lottery(lottery: &mut Lottery, amount: u64) -> (r: Result<u64, InstructionError>)
    ensures
        !deposit_accepted(*old(lottery), amount) ==> r == Err::<u64, InstructionError>(InstructionError::RequireEqViolated) && *final(lottery) == *old(lottery),
        deposit_accepted(*old(lottery), amount) ==> r == Ok::<u64, InstructionError>(amount) && *final(lottery) == (Lottery { deposited: true, ..*old(lottery) }),
{
    if amount != lottery.amount_antc_for_deposit {
        return Err(InstructionError::RequireEqViolated);
    }
    if lottery.deposited {
        return Err(InstructionError::RequireEqViolated);
    }
    lottery.deposited = true;
    Ok(amount)
}

// ---------------------------------------------------------------- drawing

/// The first check that a draw fails, in the order the program makes them: the caller
/// must own the lottery, its sale must be closed, and its prizes deposited.
pub open spec fn draw_refusal(lottery: Lottery, caller: Pubkey) -> Option<LotteryError> {
    if lottery.owner != caller {
        Some(LotteryError::NotOwner)
    } else if lottery.status != LOTTERY_CLOSED {
        Some(LotteryError::LotteryOpen)
    } else if !lottery.deposited {
        Some(LotteryError::NotDeposit)
    } else {
        None
    }
}

/// The ANTC set aside for a tier: its percentage of the deposit and, from the second
/// lottery on, what the previous lottery left over in the tier.
pub open spec fn tier_pool(lottery: Lottery, prev_lottery: Lottery, rewards: Reward, tier: int) -> int {
    let base = lottery.amount_antc_for_deposit * rewards.share(tier) / 100;
    if lottery.id == 1 {
        base
    } else {
        base + prev_lottery.remain(tier)
    }
}

/// The part of an unwon tier's pool that is burned: four tenths, rounded down.
pub open spec fn burned_part(pool: int) -> int {
    pool * 4 / 10
}

/// What a tier carries over to the next lottery: the unburned rest of its pool if it has
/// no winner, nothing if it has.
pub open spec fn tier_rollover(lottery: Lottery, prev_lottery: Lottery, rewards: Reward, tier: int) -> int {
    if lottery.winners(tier) == 0 {
        let pool = tier_pool(lottery, prev_lottery, rewards, tier);
        pool - burned_part(pool)
    } else {
        0
    }
}

/// The burn of a tier: one amount if it has no winner, none if it has.
pub open spec fn tier_burns(lottery: Lottery, prev_lottery: Lottery, rewards: Reward, tier: int) -> Seq<u64> {
    if lottery.winners(tier) == 0 {
        seq![burned_part(tier_pool(lottery, prev_lottery, rewards, tier)) as u64]
    } else {
        seq![]
    }
}

/// The burns of a draw, tiers 3 to 6 in order.
pub open spec fn draw_burns(lottery: Lottery, prev_lottery: Lottery, rewards: Reward) -> Seq<u64> {
    tier_burns(lottery, prev_lottery, rewards, 3) + tier_burns(lottery, prev_lottery, rewards, 4)
        + tier_burns(lottery, prev_lottery, rewards, 5) + tier_burns(lottery, prev_lottery, rewards, 6)
}

/// The lottery after its draw: claimable, with each tier's carry-over.
pub open spec fn drawn_lottery(lottery: Lottery, prev_lottery: Lottery, rewards: Reward) -> Lottery {
    Lottery {
        status: LOTTERY_CLAIMABLE,
        remain_match3: tier_rollover(lottery, prev_lottery, rewards, 3) as u64,
        remain_match4: tier_rollover(lottery, prev_lottery, rewards, 4) as u64,
        remain_match5: tier_rollover(lottery, prev_lottery, rewards, 5) as u64,
        remain_match6: tier_rollover(lottery, prev_lottery, rewards, 6) as u64,
        ..lottery
    }
}

/// Whether a tier's settlement fits in a `u64`; it computes only where the tier has no winner.
pub open spec fn tier_fits(lottery: Lottery, prev_lottery: Lottery, rewards: Reward, tier: int) -> bool {
    lottery.winners(tier) == 0 ==> {
        &&& lottery.amount_antc_for_deposit * rewards.share(tier) <= u64::MAX
        &&& tier_pool(lottery, prev_lottery, rewards, tier) <= u64::MAX
        &&& tier_pool(lottery, prev_lottery, rewards, tier) * 4 <= u64::MAX
    }
}

/// The number of winning tickets of a lottery, all tiers together.
pub open spec fn winning_tickets(lottery: Lottery) -> int {
    lottery.winner_match3 + lottery.winner_match4 + lottery.winner_match5 + lottery.winner_match6
}

/// Whether a draw's arithmetic fits: every tier's settlement, and the count of winning
/// tickets in a `u8`.
pub open spec fn draw_fits(lottery: Lottery, prev_lottery: Lottery, rewards: Reward) -> bool {
    &&& tier_fits(lottery, prev_lottery, rewards, 3)
    &&& tier_fits(lottery, prev_lottery, rewards, 4)
    &&& tier_fits(lottery, prev_lottery, rewards, 5)
    &&& tier_fits(lottery, prev_lottery, rewards, 6)
    &&& winning_tickets(lottery) <= u8::MAX
}

/// What a draw hands on: the amounts of ANTC to burn from the pool, in order, and the event.
#[derive(Debug)]
pub struct DrawOutcome {
    pub burns: Vec<u64>,
    pub drawn: LotteryNumberDrawn,
}

/// Settles one tier: for a tier without winners, burns four tenths of its pool and returns
/// the rest to carry over; for a tier with winners, carries nothing over.
pub fn settle_tier(
    lottery: &Lottery,
    prev_lottery: &Lottery,
    rewards: &Reward,
    tier: u8,
    burns: &mut Vec<u64>,
) -> (remain: u64)
    requires
        is_tier(tier as int),
        tier_fits(*lottery, *prev_lottery, *rewards, tier as int),
    ensures
        remain == tier_rollover(*lottery, *prev_lottery, *rewards, tier as int),
        final(burns)@ == old(burns)@ + tier_burns(*lottery, *prev_lottery, *rewards, tier as int),
{
    if lottery.winners_of(tier) == 0 {
        let base = lottery.amount_antc_for_deposit * rewards.share_of(tier) / 100;
        let total_amount = if lottery.id == 1 {
            base
        } else {
            base + prev_lottery.remain_of(tier)
        };
        let amount = total_amount * 4 / 10;
        burns.push(amount);
        total_amount - amount
    } else {
        proof {
            assert(old(burns)@ + seq![] =~= old(burns)@);
        }
        0
    }
}

/// Whether a draw stops the program: it passes its checks and its arithmetic overflows.
pub open spec fn draw_panics(lottery: Lottery, prev_lottery: Lottery, rewards: Reward, caller: Pubkey) -> bool {
    &&& draw_refusal(lottery, caller) is None
    &&& !draw_fits(lottery, prev_lottery, rewards)
}

/// What a draw answers and leaves, on inputs where it does not stop the program.
pub open spec fn draw_outcome(
    lottery: Lottery,
    prev_lottery: Lottery,
    rewards: Reward,
    caller: Pubkey,
    lottery_id: u64,
    r: Result<DrawOutcome, InstructionError>,
    new_lottery: Lottery,
) -> bool {
    match draw_refusal(lottery, caller) {
        Some(e) => (r matches Err(x) && x == InstructionError::Lottery(e)) && new_lottery == lottery,
        None => r matches Ok(out) && {
            &&& out.burns@ == draw_burns(lottery, prev_lottery, rewards)
            &&& out.drawn == LotteryNumberDrawn {
                lottery_id,
                final_number: 0,
                count_winning_tickets: winning_tickets(lottery) as u64,
            }
            &&& new_lottery == drawn_lottery(lottery, prev_lottery, rewards)
        },
    }
}

/// Draws a closed lottery whose prizes are deposited and makes it claimable. Each tier
/// without a winner burns four tenths of its pool and carries the rest over; a tier with
/// winners carries nothing over. Only the lottery's owner may draw. `requires` leaves out
/// the inputs on which the program stops (`draw_panics`);
/// `try_process_draw_final_number_and_make_lottery_claimable_handler` takes any input.
pub fn process_draw_final_number_and_make_lottery_claimable_handler(
    lottery: &mut Lottery,
    prev_lottery: &Lottery,
    global_state: &GlobalState,
    caller: &Pubkey,
    lottery_id: u64,
) -> (r: Result<DrawOutcome, InstructionError>)
    requires
        !draw_panics(*old(lottery), *prev_lottery, global_state.rewards_breakdown, *caller),
    ensures
        draw_outcome(*old(lottery), *prev_lottery, global_state.rewards_breakdown, *caller, lottery_id, r, *final(lottery)),
{
    if !same_key(&lottery.owner, caller) {
        return Err(InstructionError::Lottery(LotteryError::NotOwner));
    }
    if lottery.status != LOTTERY_CLOSED {
        return Err(InstructionError::Lottery(LotteryError::LotteryOpen));
    }
    if !lottery.deposited {
        return Err(InstructionError::Lottery(LotteryError::NotDeposit));
    }
    let before = *lottery;
    let rewards = &global_state.rewards_breakdown;
    let mut burns: Vec<u64> = Vec::new();
    let remain3 = settle_tier(&before, prev_lottery, rewards, 3, &mut burns);
    let remain4 = settle_tier(&before, prev_lottery, rewards, 4, &mut burns);
    let remain5 = settle_tier(&before, prev_lottery, rewards, 5, &mut burns);
    let remain6 = settle_tier(&before, prev_lottery, rewards, 6, &mut burns);
    lottery.status = LOTTERY_CLAIMABLE;
    lottery.remain_match3 = remain3;
    lottery.remain_match4 = remain4;
    lottery.remain_match5 = remain5;
    lottery.remain_match6 = remain6;
    let count = before.winner_match3 + before.winner_match4 + before.winner_match5 + before.winner_match6;
    proof {
        assert(burns@ =~= draw_burns(before, *prev_lottery, *rewards));
    }
    Ok(DrawOutcome {
        burns,
        drawn: LotteryNumberDrawn { lottery_id, final_number: 0, count_winning_tickets: count as u64 },
    })
}

/// Whether a tier's settlement fits, in compiled code.
fn tier_settlement_fits(lottery: &Lottery, prev_lottery: &Lottery, rewards: &Reward, tier: u8) -> (r: bool)
    requires
        is_tier(tier as int),
    ensures
        r == tier_fits(*lottery, *prev_lottery, *rewards, tier as int),
{
    if lottery.winners_of(tier) != 0 {
        return true;
    }
    let product = match lottery.amount_antc_for_deposit.checked_mul(rewards.share_of(tier)) {
        Some(p) => p,
        None => return false,
    };
    let base = product / 100;
    let pool = if lottery.id == 1 {
        base
    } else {
        match base.checked_add(prev_lottery.remain_of(tier)) {
            Some(p) => p,
            None => return false,
        }
    };
    pool.checked_mul(4).is_some()
}

/// Draws a lottery on any input: `None`, with nothing changed, where the program would
/// stop; otherwise what `process_draw_final_number_and_make_lottery_claimable_handler` answers.
pub fn try_process_draw_final_number_and_make_lottery_claimable_handler(
    lottery: &mut Lottery,
    prev_lottery: &Lottery,
    global_state: &GlobalState,
    caller: &Pubkey,
    lottery_id: u64,
) -> (r: Option<Result<DrawOutcome, InstructionError>>)
    ensures
        draw_panics(*old(lottery), *prev_lottery, global_state.rewards_breakdown, *caller) ==> r is None
            && *final(lottery) == *old(lottery),
        !draw_panics(*old(lottery), *prev_lottery, global_state.rewards_breakdown, *caller) ==> (r matches Some(x)
            && draw_outcome(*old(lottery), *prev_lottery, global_state.rewards_breakdown, *caller, lottery_id, x, *final(lottery))),
{
    if same_key(&lottery.owner, caller) && lottery.status == LOTTERY_CLOSED && lottery.deposited {
        let rewards = &global_state.rewards_breakdown;
        let count: u64 = lottery.winner_match3 as u64 + lottery.winner_match4 as u64 + lottery.winner_match5 as u64
            + lottery.winner_match6 as u64;
        let fits = tier_settlement_fits(lottery, prev_lottery, rewards, 3)
            && tier_settlement_fits(lottery, prev_lottery, rewards, 4)
            && tier_settlement_fits(lottery, prev_lottery, rewards, 5)
            && tier_settlement_fits(lottery, prev_lottery, rewards, 6)
            && count <= u8::MAX as u64;
        if !fits {
            return None;
        }
    }
    Some(process_draw_final_number_and_make_lottery_claimable_handler(lottery, prev_lottery, global_state, caller, lottery_id))
}

} // verus!
