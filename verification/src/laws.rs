//! Properties of the lottery that span its instructions.
use vstd::prelude::*;
use anchor_lang::prelude::Pubkey;
use vstd::arithmetic::power::{lemma_pow_positive, pow};
use crate::errors::{InstructionError, LotteryError};
use crate::events::LotteryClose;
use crate::instructions::buy_tickets::{
    after_purchase, buy_outcome, buy_refusal, claim_aborts, claim_outcome, claim_refusal,
    confirm_aborts, confirm_outcome, confirm_refusal, prize, prize_pool, BuyOutcome,
};
use crate::instructions::close_lottery::{close_outcome, close_refusal};
use crate::instructions::process_draw_final_number_and_make_lottery_claimable::{
    burned_part, calculate_outcome, calculate_refusal, deposit_accepted, draw_burns, draw_outcome,
    draw_refusal, tier_pool, tier_rollover, winning_tickets, DrawOutcome,
};
use crate::instructions::start_lottery::{start_outcome, start_panics, start_refusal};
use crate::state::{
    is_tier, GlobalState, Lottery, LotteryTicket, Reward, Ticket, LOTTERY_CLAIMABLE,
    LOTTERY_CLOSED, LOTTERY_OPEN,
};

verus! {

/// A lottery's status only moves forward, one step at a time: a start opens it, a close
/// takes it from open to closed, and a draw from closed to claimable.
pub proof fn status_moves_forward(
    global_state: GlobalState,
    fresh: Lottery,
    lottery: Lottery,
    prev_lottery: Lottery,
    caller: Pubkey,
    force: [u8; 32],
    end_time: u64,
    price: u64,
    lottery_id: u64,
    now: i64,
    started_state: GlobalState,
    started: Lottery,
    close_result: Result<LotteryClose, InstructionError>,
    closed: Lottery,
    draw_result: Result<DrawOutcome, InstructionError>,
    drawn: Lottery,
)
    ensures
        start_outcome(global_state, fresh, caller, force, end_time, price, now, Ok(()), started_state, started)
            ==> started.status == LOTTERY_OPEN,
        close_outcome(lottery, caller, lottery_id, now, close_result, closed) && close_result is Ok
            ==> lottery.status == LOTTERY_OPEN && closed.status == LOTTERY_CLOSED,
        draw_outcome(lottery, prev_lottery, global_state.rewards_breakdown, caller, lottery_id, draw_result, drawn)
            && draw_result is Ok ==> lottery.status == LOTTERY_CLOSED && drawn.status == LOTTERY_CLAIMABLE,
{
}

/// The other instructions leave a lottery's status as it was: a purchase, a confirmation,
/// a pricing and a deposit.
pub proof fn other_instructions_keep_status(
    global_state: GlobalState,
    lottery: Lottery,
    lottery_ticket: LotteryTicket,
    ticket: Ticket,
    buyer: Pubkey,
    random: Pubkey,
    admin_lottery_token_account: Pubkey,
    decimals: u8,
    force: [u8; 32],
    lottery_id: u64,
    ticket_id: u64,
    now: i64,
    buy_result: Result<BuyOutcome, InstructionError>,
    bought: Lottery,
    bought_ticket_count: LotteryTicket,
    bought_ticket: Ticket,
    ticket_random_data: Seq<u8>,
    lottery_random_data: Seq<u8>,
    confirm_result: Result<(), InstructionError>,
    confirmed: Lottery,
    confirmed_ticket: Ticket,
    caller: Pubkey,
    lottery_price: u64,
    antc_price: u64,
    calculate_result: Result<(), InstructionError>,
    priced: Lottery,
    amount: u64,
)
    ensures
        buy_outcome(global_state, lottery, lottery_ticket, ticket, buyer, random, admin_lottery_token_account,
            decimals, force, lottery_id, ticket_id, now, buy_result, bought, bought_ticket_count, bought_ticket)
            ==> bought.status == lottery.status,
        confirm_outcome(lottery, ticket, ticket_random_data, lottery_random_data, confirm_result, confirmed, confirmed_ticket)
            ==> confirmed.status == lottery.status,
        calculate_outcome(lottery, caller, lottery_price, antc_price, calculate_result, priced)
            ==> priced.status == lottery.status,
        deposit_accepted(lottery, amount) ==> (Lottery { deposited: true, ..lottery }).status == lottery.status,
{
}

/// Once a lottery's sale is closed, no ticket can be bought in it: every purchase is
/// refused and changes nothing.
pub proof fn no_sales_after_close(
    lottery: Lottery,
    caller: Pubkey,
    lottery_id: u64,
    now: i64,
    event: LotteryClose,
    closed: Lottery,
    global_state: GlobalState,
    lottery_ticket: LotteryTicket,
    ticket: Ticket,
    buyer: Pubkey,
    random: Pubkey,
    admin_lottery_token_account: Pubkey,
    decimals: u8,
    force: [u8; 32],
    any_lottery_id: u64,
    ticket_id: u64,
    later: i64,
    r: Result<BuyOutcome, InstructionError>,
    new_lottery: Lottery,
    new_lottery_ticket: LotteryTicket,
    new_ticket: Ticket,
)
    requires
        close_outcome(lottery, caller, lottery_id, now, Ok(event), closed),
        buy_outcome(global_state, closed, lottery_ticket, ticket, buyer, random, admin_lottery_token_account,
            decimals, force, any_lottery_id, ticket_id, later, r, new_lottery, new_lottery_ticket, new_ticket),
    ensures
        r is Err,
        new_lottery == closed,
        new_lottery_ticket == lottery_ticket,
        new_ticket == ticket,
{
}

/// At one moment a lottery either sells tickets or can be closed, never both: a sale needs
/// the end time still ahead, a close needs it passed.
pub proof fn sale_and_close_exclusive(
    global_state: GlobalState,
    lottery: Lottery,
    admin_lottery_token_account: Pubkey,
    caller: Pubkey,
    lottery_id: u64,
    now: i64,
)
    requires
        buy_refusal(global_state, lottery, admin_lottery_token_account, lottery_id, now) is None,
    ensures
        close_refusal(lottery, caller, lottery_id, now) is Some,
{
}

/// Only an owner acts on a lottery: the global owner starts one, and the lottery's owner
/// closes, prices and draws it.
pub proof fn only_owners_act(
    global_state: GlobalState,
    lottery: Lottery,
    caller: Pubkey,
    lottery_id: u64,
    now: i64,
)
    ensures
        start_refusal(global_state, caller) is None ==> caller == global_state.owner,
        close_refusal(lottery, caller, lottery_id, now) is None ==> caller == lottery.owner,
        calculate_refusal(lottery, caller) is None ==> caller == lottery.owner,
        draw_refusal(lottery, caller) is None ==> caller == lottery.owner,
{
}

/// Lotteries are numbered one after another: a start gives the new lottery the global
/// count plus one, which becomes the new count, so the next start gives the next number.
pub proof fn lottery_ids_are_consecutive(
    global_state: GlobalState,
    first_fresh: Lottery,
    second_fresh: Lottery,
    caller: Pubkey,
    force: [u8; 32],
    end_time: u64,
    price: u64,
    now: i64,
    after_first: GlobalState,
    first: Lottery,
    after_second: GlobalState,
    second: Lottery,
)
    requires
        !start_panics(global_state, caller, end_time, now),
        start_outcome(global_state, first_fresh, caller, force, end_time, price, now, Ok(()), after_first, first),
        !start_panics(after_first, caller, end_time, now),
        start_outcome(after_first, second_fresh, caller, force, end_time, price, now, Ok(()), after_second, second),
    ensures
        first.id == global_state.current_lottery_id + 1,
        first.id == after_first.current_lottery_id,
        second.id == first.id + 1,
        second.id == after_second.current_lottery_id,
{
}

/// A purchase changes nothing that the next purchase is checked against, and each one
/// adds exactly the price of a ticket to the coins collected.
pub proof fn purchases_add_up(
    global_state: GlobalState,
    lottery: Lottery,
    admin_lottery_token_account: Pubkey,
    lottery_id: u64,
    now: i64,
)
    requires
        lottery.amount_collected_in_lottery_coin + 2 * lottery.lottery_coin_amount_per_ticket <= u64::MAX,
    ensures
        buy_refusal(global_state, after_purchase(lottery), admin_lottery_token_account, lottery_id, now)
            == buy_refusal(global_state, lottery, admin_lottery_token_account, lottery_id, now),
        after_purchase(after_purchase(lottery)).amount_collected_in_lottery_coin
            == lottery.amount_collected_in_lottery_coin + 2 * lottery.lottery_coin_amount_per_ticket,
{
}

/// The prizes of a lottery are deposited once: after a deposit is accepted, every further
/// deposit is refused.
pub proof fn deposit_only_once(lottery: Lottery, amount: u64, any_amount: u64)
    requires
        deposit_accepted(lottery, amount),
    ensures
        !deposit_accepted(Lottery { deposited: true, ..lottery }, any_amount),
{
}

/// A lottery is drawn only once its prizes are deposited and its sale closed.
pub proof fn draw_needs_deposit(lottery: Lottery, caller: Pubkey)
    requires
        draw_refusal(lottery, caller) is None,
    ensures
        lottery.deposited,
        lottery.status == LOTTERY_CLOSED,
{
}

/// A prize is claimed only from a lottery that has been drawn, and only for a confirmed ticket.
pub proof fn claims_need_draw(lottery: Lottery, ticket: Ticket, ticket_random_data: Seq<u8>, lottery_random_data: Seq<u8>)
    requires
        claim_refusal(lottery, ticket, ticket_random_data, lottery_random_data) is None,
    ensures
        lottery.status == LOTTERY_CLAIMABLE,
        ticket.confirmed,
{
}

/// A ticket is confirmed once: after a confirmation succeeds, every further one is refused.
pub proof fn confirm_only_once(
    lottery: Lottery,
    ticket: Ticket,
    ticket_random_data: Seq<u8>,
    lottery_random_data: Seq<u8>,
    new_lottery: Lottery,
    new_ticket: Ticket,
    next_ticket_data: Seq<u8>,
    next_lottery_data: Seq<u8>,
)
    requires
        confirm_outcome(lottery, ticket, ticket_random_data, lottery_random_data, Ok(()), new_lottery, new_ticket),
    ensures
        confirm_refusal(new_lottery, new_ticket, next_ticket_data, next_lottery_data) is Some,
{
}

/// Each confirmation counts exactly one more winning ticket, always in tier 3.
pub proof fn confirm_adds_one_winner(
    lottery: Lottery,
    ticket: Ticket,
    ticket_random_data: Seq<u8>,
    lottery_random_data: Seq<u8>,
    new_lottery: Lottery,
    new_ticket: Ticket,
)
    requires
        !confirm_aborts(lottery, ticket, ticket_random_data, lottery_random_data),
        confirm_outcome(lottery, ticket, ticket_random_data, lottery_random_data, Ok(()), new_lottery, new_ticket),
    ensures
        winning_tickets(new_lottery) == winning_tickets(lottery) + 1,
        new_lottery.winner_match3 == lottery.winner_match3 + 1,
{
}

/// A claim does not use up the ticket: it stays as it was, so the same claim is accepted
/// again and pays the same prize.
pub proof fn claim_leaves_ticket(
    lottery: Lottery,
    prev_lottery: Lottery,
    rewards: Reward,
    ticket: Ticket,
    ticket_random_data: Seq<u8>,
    lottery_random_data: Seq<u8>,
    paid: u64,
    new_ticket: Ticket,
)
    requires
        claim_outcome(lottery, prev_lottery, rewards, ticket, ticket_random_data, lottery_random_data, Ok(paid), new_ticket),
    ensures
        new_ticket == ticket,
        claim_outcome(lottery, prev_lottery, rewards, new_ticket, ticket_random_data, lottery_random_data, Ok(paid), new_ticket),
        claim_aborts(lottery, prev_lottery, rewards, new_ticket, ticket_random_data, lottery_random_data)
            == claim_aborts(lottery, prev_lottery, rewards, ticket, ticket_random_data, lottery_random_data),
{
}

/// A draw splits the pool of each tier without winners into a burned part, four tenths,
/// and a carried-over part, the rest; nothing of the pool is lost or made, and the burned
/// part is never the larger. A tier with winners carries nothing over.
pub proof fn draw_splits_unwon_pools(lottery: Lottery, prev_lottery: Lottery, rewards: Reward, tier: int)
    requires
        is_tier(tier),
    ensures
        lottery.winners(tier) == 0 ==> {
            let pool = tier_pool(lottery, prev_lottery, rewards, tier);
            &&& burned_part(pool) + tier_rollover(lottery, prev_lottery, rewards, tier) == pool
            &&& 0 <= burned_part(pool) <= tier_rollover(lottery, prev_lottery, rewards, tier)
        },
        lottery.winners(tier) != 0 ==> tier_rollover(lottery, prev_lottery, rewards, tier) == 0,
{
    let pool = tier_pool(lottery, prev_lottery, rewards, tier);
    assert(pool >= 0) by (nonlinear_arith)
        requires
            pool == tier_pool(lottery, prev_lottery, rewards, tier),
            lottery.amount_antc_for_deposit >= 0,
            rewards.share(tier) >= 0,
            prev_lottery.remain(tier) >= 0,
    {
    }
}

/// The winners of a tier together are paid at most the tier's percentage of its prize pool.
pub proof fn tier_prizes_within_share(lottery: Lottery, prev_lottery: Lottery, rewards: Reward, tier: int)
    requires
        is_tier(tier),
        lottery.winners(tier) != 0,
    ensures
        lottery.winners(tier) * prize(lottery, prev_lottery, rewards, tier)
            <= prize_pool(lottery, prev_lottery, tier) * rewards.share(tier) / 100,
{
    let w = lottery.winners(tier) as int;
    let p = prize_pool(lottery, prev_lottery, tier);
    let s = rewards.share(tier) as int;
    let q = p / w;
    let x = q * s;
    assert(p >= 0);
    assert(w * q <= p) by (nonlinear_arith)
        requires w > 0, p >= 0, q == p / w;
    assert(x >= 0) by (nonlinear_arith)
        requires q >= 0, s >= 0, x == q * s, q == p / w, w > 0, p >= 0;
    assert(w * (x / 100) <= (w * x) / 100) by (nonlinear_arith)
        requires w > 0, x >= 0;
    assert((w * x) / 100 <= (p * s) / 100) by (nonlinear_arith)
        requires w * q <= p, x == q * s, s >= 0, w > 0, q >= 0;
}

/// After pricing, the one deposit accepted is of exactly the priced amount.
pub proof fn deposit_matches_pricing(
    lottery: Lottery,
    caller: Pubkey,
    lottery_price: u64,
    antc_price: u64,
    priced: Lottery,
    amount: u64,
)
    requires
        calculate_outcome(lottery, caller, lottery_price, antc_price, Ok(()), priced),
    ensures
        deposit_accepted(priced, amount) <==> amount == priced.amount_antc_for_deposit && !lottery.deposited,
        calculate_refusal(lottery, caller) is None,
{
}

/// A draw burns once for each tier that has no winner, and never for a tier that has one.
pub proof fn one_burn_per_unwon_tier(lottery: Lottery, prev_lottery: Lottery, rewards: Reward)
    ensures
        draw_burns(lottery, prev_lottery, rewards).len() == (if lottery.winner_match3 == 0 { 1int } else { 0 })
            + (if lottery.winner_match4 == 0 { 1int } else { 0 }) + (if lottery.winner_match5 == 0 { 1int } else { 0 })
            + (if lottery.winner_match6 == 0 { 1int } else { 0 }),
{
}

/// A draw of a lottery after the first fills each unwon tier's pool with the tier's
/// percentage of the deposit plus what the previous lottery carried over in that same tier,
/// burns four tenths of it and carries the rest over; a tier with winners carries nothing.
/// The first lottery's pools hold the percentage of the deposit alone.
pub proof fn draw_pools_take_the_same_tier_carry_over(
    lottery: Lottery,
    prev_lottery: Lottery,
    global_state: GlobalState,
    caller: Pubkey,
    lottery_id: u64,
    out: DrawOutcome,
    drawn: Lottery,
)
    requires
        draw_outcome(lottery, prev_lottery, global_state.rewards_breakdown, caller, lottery_id, Ok(out), drawn),
        lottery.amount_antc_for_deposit * global_state.rewards_breakdown.match3 <= u64::MAX,
        lottery.amount_antc_for_deposit * global_state.rewards_breakdown.match4 <= u64::MAX,
        lottery.amount_antc_for_deposit * global_state.rewards_breakdown.match5 <= u64::MAX,
        lottery.amount_antc_for_deposit * global_state.rewards_breakdown.match6 <= u64::MAX,
        prev_lottery.remain_match3 <= u64::MAX / 8,
        prev_lottery.remain_match4 <= u64::MAX / 8,
        prev_lottery.remain_match5 <= u64::MAX / 8,
        prev_lottery.remain_match6 <= u64::MAX / 8,
    ensures
        ({
            let rw = global_state.rewards_breakdown;
            let d = lottery.amount_antc_for_deposit as int;
            let first = lottery.id == 1;
            let pool3 = d * rw.match3 / 100 + if first { 0 } else { prev_lottery.remain_match3 as int };
            let pool4 = d * rw.match4 / 100 + if first { 0 } else { prev_lottery.remain_match4 as int };
            let pool5 = d * rw.match5 / 100 + if first { 0 } else { prev_lottery.remain_match5 as int };
            let pool6 = d * rw.match6 / 100 + if first { 0 } else { prev_lottery.remain_match6 as int };
            &&& drawn.status == LOTTERY_CLAIMABLE
            &&& drawn.remain_match3 == if lottery.winner_match3 == 0 { pool3 - pool3 * 4 / 10 } else { 0 }
            &&& drawn.remain_match4 == if lottery.winner_match4 == 0 { pool4 - pool4 * 4 / 10 } else { 0 }
            &&& drawn.remain_match5 == if lottery.winner_match5 == 0 { pool5 - pool5 * 4 / 10 } else { 0 }
            &&& drawn.remain_match6 == if lottery.winner_match6 == 0 { pool6 - pool6 * 4 / 10 } else { 0 }
            &&& out.burns@ == (if lottery.winner_match3 == 0 { seq![(pool3 * 4 / 10) as u64] } else { Seq::<u64>::empty() })
                + (if lottery.winner_match4 == 0 { seq![(pool4 * 4 / 10) as u64] } else { Seq::<u64>::empty() })
                + (if lottery.winner_match5 == 0 { seq![(pool5 * 4 / 10) as u64] } else { Seq::<u64>::empty() })
                + (if lottery.winner_match6 == 0 { seq![(pool6 * 4 / 10) as u64] } else { Seq::<u64>::empty() })
            &&& out.drawn.lottery_id == lottery_id
            &&& out.drawn.count_winning_tickets == lottery.winner_match3 + lottery.winner_match4
                + lottery.winner_match5 + lottery.winner_match6
        }),
{
    let rw = global_state.rewards_breakdown;
    let d = lottery.amount_antc_for_deposit as int;
    assert(d * rw.match3 / 100 <= u64::MAX / 100 + 1) by (nonlinear_arith)
        requires d * rw.match3 <= u64::MAX, d >= 0, rw.match3 >= 0;
    assert(d * rw.match4 / 100 <= u64::MAX / 100 + 1) by (nonlinear_arith)
        requires d * rw.match4 <= u64::MAX, d >= 0, rw.match4 >= 0;
    assert(d * rw.match5 / 100 <= u64::MAX / 100 + 1) by (nonlinear_arith)
        requires d * rw.match5 <= u64::MAX, d >= 0, rw.match5 >= 0;
    assert(d * rw.match6 / 100 <= u64::MAX / 100 + 1) by (nonlinear_arith)
        requires d * rw.match6 <= u64::MAX, d >= 0, rw.match6 >= 0;
    assert(d * rw.match3 >= 0 && d * rw.match4 >= 0 && d * rw.match5 >= 0 && d * rw.match6 >= 0) by (nonlinear_arith)
        requires d >= 0, rw.match3 >= 0, rw.match4 >= 0, rw.match5 >= 0, rw.match6 >= 0;
}

/// A claim pays one winner's share of its tier: the tier's pool (the deposit, plus from the
/// second lottery on the previous lottery's tier-3 carry-over) divided by the number of
/// tier-3 winners, times the tier's percentage, divided by 100, for every number of winners.
pub proof fn claim_pays_pool_over_winners(
    lottery: Lottery,
    prev_lottery: Lottery,
    rewards: Reward,
    ticket: Ticket,
    ticket_random_data: Seq<u8>,
    lottery_random_data: Seq<u8>,
    paid: u64,
    new_ticket: Ticket,
)
    requires
        claim_outcome(lottery, prev_lottery, rewards, ticket, ticket_random_data, lottery_random_data, Ok(paid), new_ticket),
        lottery.winner_match3 != 0,
        lottery.amount_antc_for_deposit + prev_lottery.remain_match3 <= u64::MAX,
        (lottery.amount_antc_for_deposit + prev_lottery.remain_match3) * (rewards.match3 + 1) <= u64::MAX,
    ensures
        ({
            let pool = if lottery.id == 1 {
                lottery.amount_antc_for_deposit as int
            } else {
                lottery.amount_antc_for_deposit + prev_lottery.remain_match3
            };
            paid == pool / (lottery.winner_match3 as int) * rewards.match3 / 100
        }),
        ticket.confirmed,
        lottery.status == LOTTERY_CLAIMABLE,
{
    let pool = if lottery.id == 1 {
        lottery.amount_antc_for_deposit as int
    } else {
        lottery.amount_antc_for_deposit + prev_lottery.remain_match3
    };
    let w = lottery.winner_match3 as int;
    let s = rewards.match3 as int;
    let full = lottery.amount_antc_for_deposit + prev_lottery.remain_match3;
    assert(pool <= full);
    assert(pool / w <= pool) by (nonlinear_arith)
        requires w >= 1, pool >= 0;
    assert(pool / w * s <= full * (s + 1)) by (nonlinear_arith)
        requires pool / w <= pool, pool <= full, s >= 0, pool / w >= 0, full >= 0;
    assert(pool / w >= 0) by (nonlinear_arith)
        requires w >= 1, pool >= 0;
    assert(pool / w * s >= 0) by (nonlinear_arith)
        requires pool / w >= 0, s >= 0;
}

/// A ticket is confirmed only while its lottery is open: whenever the lottery's status is
/// anything but open, the confirmation is refused and neither the lottery nor the ticket
/// changes; once both accounts hold data and the ticket is unconfirmed, the refusal is
/// `LotteryClosed`.
pub proof fn confirm_refused_unless_open(
    lottery: Lottery,
    ticket: Ticket,
    ticket_random_data: Seq<u8>,
    lottery_random_data: Seq<u8>,
    r: Result<(), InstructionError>,
    new_lottery: Lottery,
    new_ticket: Ticket,
)
    requires
        lottery.status != 0,
        confirm_outcome(lottery, ticket, ticket_random_data, lottery_random_data, r, new_lottery, new_ticket),
    ensures
        r is Err,
        new_lottery == lottery,
        new_ticket == ticket,
        ticket_random_data.len() > 0 && lottery_random_data.len() > 0 && !ticket.confirmed
            ==> r == Err::<(), InstructionError>(InstructionError::Lottery(LotteryError::LotteryClosed)),
        !confirm_aborts(lottery, ticket, ticket_random_data, lottery_random_data),
{
}

/// A purchase charges the buyer the ticket's price times ten to the power of the lottery
/// token's decimals, for every number of decimals whose product fits in a `u64`.
pub proof fn purchase_charges_price_in_smallest_units(
    global_state: GlobalState,
    lottery: Lottery,
    lottery_ticket: LotteryTicket,
    ticket: Ticket,
    buyer: Pubkey,
    random: Pubkey,
    admin_lottery_token_account: Pubkey,
    decimals: u8,
    force: [u8; 32],
    lottery_id: u64,
    ticket_id: u64,
    now: i64,
    out: BuyOutcome,
    new_lottery: Lottery,
    new_lottery_ticket: LotteryTicket,
    new_ticket: Ticket,
)
    requires
        buy_outcome(global_state, lottery, lottery_ticket, ticket, buyer, random, admin_lottery_token_account,
            decimals, force, lottery_id, ticket_id, now, Ok(out), new_lottery, new_lottery_ticket, new_ticket),
        lottery.lottery_coin_amount_per_ticket * pow(10, decimals as nat) <= u64::MAX,
    ensures
        out.transfer_amount == lottery.lottery_coin_amount_per_ticket * pow(10, decimals as nat),
        new_lottery.amount_collected_in_lottery_coin == lottery.amount_collected_in_lottery_coin
            + lottery.lottery_coin_amount_per_ticket
            || lottery.amount_collected_in_lottery_coin + lottery.lottery_coin_amount_per_ticket > u64::MAX,
{
    lemma_pow_positive(10, decimals as nat);
    assert(lottery.lottery_coin_amount_per_ticket * pow(10, decimals as nat) >= 0) by (nonlinear_arith)
        requires lottery.lottery_coin_amount_per_ticket >= 0, pow(10, decimals as nat) >= 0;
}

/// A started lottery begins afresh: open, numbered after the global count, ending
/// `end_time` seconds after `now`, owned by the caller, at the given price and seed, with no
/// winner and nothing carried over in any tier.
pub proof fn started_lottery_has_no_winners(
    global_state: GlobalState,
    fresh: Lottery,
    caller: Pubkey,
    force: [u8; 32],
    end_time: u64,
    price: u64,
    now: i64,
    new_global_state: GlobalState,
    started: Lottery,
)
    requires
        !start_panics(global_state, caller, end_time, now),
        start_outcome(global_state, fresh, caller, force, end_time, price, now, Ok(()), new_global_state, started),
    ensures
        caller == global_state.owner,
        started.winner_match3 == 0,
        started.winner_match4 == 0,
        started.winner_match5 == 0,
        started.winner_match6 == 0,
        started.remain_match3 == 0,
        started.remain_match4 == 0,
        started.remain_match5 == 0,
        started.remain_match6 == 0,
        started.status == LOTTERY_OPEN,
        started.id == global_state.current_lottery_id + 1,
        new_global_state.current_lottery_id == global_state.current_lottery_id + 1,
        started.end_time == end_time + (now as u64),
        started.owner == caller,
        started.lottery_coin_amount_per_ticket == price,
        started.force == force,
        started.guess == 0,
        started.amount_collected_in_lottery_coin == fresh.amount_collected_in_lottery_coin,
        started.deposited == fresh.deposited,
{
}

/// Each tier's carry-over and winner count is read from that tier's own field.
pub proof fn tier_accessors_read_their_own_field(lottery: Lottery, rewards: Reward)
    ensures
        lottery.remain(3) == lottery.remain_match3,
        lottery.remain(4) == lottery.remain_match4,
        lottery.remain(5) == lottery.remain_match5,
        lottery.remain(6) == lottery.remain_match6,
        lottery.winners(3) == lottery.winner_match3,
        lottery.winners(4) == lottery.winner_match4,
        lottery.winners(5) == lottery.winner_match5,
        lottery.winners(6) == lottery.winner_match6,
        rewards.share(3) == rewards.match3,
        rewards.share(4) == rewards.match4,
        rewards.share(5) == rewards.match5,
        rewards.share(6) == rewards.match6,
{
}

/// A close succeeds exactly when the named, open lottery is closed by its owner after its
/// end time; it then only marks the sale closed.
pub proof fn close_marks_sale_closed(
    lottery: Lottery,
    caller: Pubkey,
    lottery_id: u64,
    now: i64,
    r: Result<LotteryClose, InstructionError>,
    closed: Lottery,
)
    requires
        close_outcome(lottery, caller, lottery_id, now, r, closed),
    ensures
        r is Ok <==> (lottery.status == 0 && lottery.id == lottery_id && lottery.owner == caller
            && lottery.end_time < now),
        r is Ok ==> closed == (Lottery { status: 1, ..lottery }),
        r is Err ==> closed == lottery,
{
}

/// Pricing sets the ANTC to deposit to the coins collected times a million, times the
/// lottery price, divided by the ANTC price; only the lottery's owner may price it.
pub proof fn pricing_converts_collected_coins(
    lottery: Lottery,
    caller: Pubkey,
    lottery_price: u64,
    antc_price: u64,
    r: Result<(), InstructionError>,
    priced: Lottery,
)
    requires
        calculate_outcome(lottery, caller, lottery_price, antc_price, r, priced),
        antc_price != 0,
        1_000_000 * lottery.amount_collected_in_lottery_coin * lottery_price <= u64::MAX,
    ensures
        r is Ok <==> caller == lottery.owner,
        r is Ok ==> priced == (Lottery {
            amount_antc_for_deposit: (1_000_000 * lottery.amount_collected_in_lottery_coin * lottery_price
                / (antc_price as int)) as u64,
            ..lottery
        }),
        r is Err ==> priced == lottery,
{
}

/// An accepted purchase records the ticket for the buyer, adds one to the buyer's ticket
/// count in the lottery, and collects one ticket's price; nothing else changes.
pub proof fn purchase_records_ticket(
    global_state: GlobalState,
    lottery: Lottery,
    lottery_ticket: LotteryTicket,
    ticket: Ticket,
    buyer: Pubkey,
    random: Pubkey,
    admin_lottery_token_account: Pubkey,
    decimals: u8,
    force: [u8; 32],
    lottery_id: u64,
    ticket_id: u64,
    now: i64,
    out: BuyOutcome,
    new_lottery: Lottery,
    new_lottery_ticket: LotteryTicket,
    new_ticket: Ticket,
)
    requires
        buy_outcome(global_state, lottery, lottery_ticket, ticket, buyer, random, admin_lottery_token_account,
            decimals, force, lottery_id, ticket_id, now, Ok(out), new_lottery, new_lottery_ticket, new_ticket),
        lottery.amount_collected_in_lottery_coin + lottery.lottery_coin_amount_per_ticket <= u64::MAX,
        lottery_ticket.total_ticket < 255,
    ensures
        lottery.end_time > now && lottery.status == 0 && lottery.id == lottery_id
            && global_state.lottery_token_account == admin_lottery_token_account,
        new_lottery == (Lottery {
            amount_collected_in_lottery_coin: (lottery.amount_collected_in_lottery_coin
                + lottery.lottery_coin_amount_per_ticket) as u64,
            ..lottery
        }),
        new_lottery_ticket.total_ticket == lottery_ticket.total_ticket + 1,
        new_lottery_ticket.owner == buyer && new_lottery_ticket.lottery_id == lottery_id,
        new_ticket.lottery_id == lottery_id && new_ticket.ticket_order == ticket_id,
        new_ticket.randomness == random && new_ticket.force == force && new_ticket.owner == buyer,
        !new_ticket.confirmed,
        out.purchase.buyer == buyer && out.purchase.lottery_id == lottery_id && out.purchase.number_tickets == 1,
{
}

/// A deposit is accepted exactly when it is of the priced amount and none was made before.
pub proof fn deposit_accepted_exactly_once_at_price(lottery: Lottery, amount: u64)
    ensures
        deposit_accepted(lottery, amount) <==> (amount == lottery.amount_antc_for_deposit && !lottery.deposited),
{
}

/// An accepted confirmation marks the ticket confirmed and adds one tier-3 winner, and
/// changes nothing else.
pub proof fn confirmation_marks_ticket(
    lottery: Lottery,
    ticket: Ticket,
    ticket_random_data: Seq<u8>,
    lottery_random_data: Seq<u8>,
    new_lottery: Lottery,
    new_ticket: Ticket,
)
    requires
        confirm_outcome(lottery, ticket, ticket_random_data, lottery_random_data, Ok(()), new_lottery, new_ticket),
        lottery.winner_match3 < 255,
    ensures
        lottery.status == 0 && !ticket.confirmed,
        new_ticket == (Ticket { confirmed: true, ..ticket }),
        new_lottery == (Lottery { winner_match3: (lottery.winner_match3 + 1) as u8, ..lottery }),
{
}

} // verus!
