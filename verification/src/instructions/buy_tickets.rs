//! Buying a ticket, confirming it against the lottery's randomness, and claiming its prize.
use vstd::prelude::*;
use vstd::arithmetic::power::{pow, lemma_pow_increases};
use anchor_lang::prelude::Pubkey;
use crate::errors::{InstructionError, LotteryError};
use crate::events::TicketsPurchase;
use crate::keys::same_key;
use crate::randomness::{
    account_randomness, count_leading_matches, fulfilled, is_fulfilled, leading_matches,
    read_randomness_account,
};
use crate::state::{
    is_tier, GlobalState, Lottery, LotteryTicket, Reward, Ticket, LOTTERY_CLAIMABLE, LOTTERY_OPEN,
};

verus! {

// ---------------------------------------------------------------- buying

/// `10` to the power `e`.
pub fn pow10(e: u8) -> (r: u64)
    requires
        pow(10, e as nat) <= u64::MAX,
    ensures
        r == pow(10, e as nat),
{
    let mut r: u64 = 1;
    let mut i: u8 = 0;
    proof {
        reveal(pow);
    }
    while i < e
        invariant
            i <= e,
            r == pow(10, i as nat),
            pow(10, e as nat) <= u64::MAX,
        decreases e - i,
    {
        proof {
            lemma_pow_increases(10, (i + 1) as nat, e as nat);
            reveal(pow);
            assert(pow(10, (i + 1) as nat) == 10 * pow(10, i as nat));
        }
        r = r * 10;
        i = i + 1;
    }
    r
}

/// The first check that a purchase fails, in the order the program makes them: the sale
/// must not have ended, the lottery must be open and be the one named, and the coins must
/// go to the lottery's token account.
pub open spec fn buy_refusal(
    global_state: GlobalState,
    lottery: Lottery,
    admin_lottery_token_account: Pubkey,
    lottery_id: u64,
    now: i64,
) -> Option<LotteryError> {
    if !(lottery.end_time > now) {
        Some(LotteryError::LotteryTimeElapsed)
    } else if lottery.status != LOTTERY_OPEN {
        Some(LotteryError::LotteryClosed)
    } else if lottery.id != lottery_id {
        Some(LotteryError::InvalidLotteryId)
    } else if global_state.lottery_token_account != admin_lottery_token_account {
        Some(LotteryError::InvalidLotteryTokenAccount)
    } else {
        None
    }
}

/// Whether the amounts of a purchase fit in a `u64`: the coins collected, the buyer's
/// ticket count (a `u8`), and the price in the token's smallest units.
pub open spec fn buy_fits(lottery: Lottery, lottery_ticket: LotteryTicket, decimals: u8) -> bool {
    &&& lottery.amount_collected_in_lottery_coin + lottery.lottery_coin_amount_per_ticket <= u64::MAX
    &&& lottery_ticket.total_ticket < u8::MAX
    &&& pow(10, decimals as nat) <= u64::MAX
    &&& lottery.lottery_coin_amount_per_ticket * pow(10, decimals as nat) <= u64::MAX
}

/// The lottery after a purchase: one more ticket's price collected.
pub open spec fn after_purchase(lottery: Lottery) -> Lottery {
    Lottery {
        amount_collected_in_lottery_coin: (lottery.amount_collected_in_lottery_coin
            + lottery.lottery_coin_amount_per_ticket) as u64,
        ..lottery
    }
}

/// The amount of the lottery token that one ticket costs: its price in lottery coin
/// times `10^decimals`.
pub open spec fn ticket_cost(lottery: Lottery, decimals: u8) -> int {
    lottery.lottery_coin_amount_per_ticket * pow(10, decimals as nat)
}

/// What a purchase hands on: the amount of the lottery token that the buyer pays into
/// the lottery's token account, and the event.
#[derive(Clone, Copy, Debug, PartialEq)]
pub struct BuyOutcome {
    pub transfer_amount: u64,
    pub purchase: TicketsPurchase,
}

/// Whether a purchase stops the program: the clock, read as a `u64`, is negative, or the
/// purchase passes its checks and its arithmetic overflows.
pub open spec fn buy_panics(
    global_state: GlobalState,
    lottery: Lottery,
    lottery_ticket: LotteryTicket,
    admin_lottery_token_account: Pubkey,
    decimals: u8,
    lottery_id: u64,
    now: i64,
) -> bool {
    ||| now < 0
    ||| buy_refusal(global_state, lottery, admin_lottery_token_account, lottery_id, now) is None
        && !buy_fits(lottery, lottery_ticket, decimals)
}

/// What a purchase answers and leaves, on inputs where it does not stop the program.
pub open spec fn buy_outcome(
    global_state: GlobalState,
    lottery: Lottery,
    lottery_ticket: LotteryTicket,
    ticket: Ticket,
    buyer: Pubkey,
    random: Pubkey,
    admin_lottery_token_account: Pubkey,
    decimals: u8,
    force: [u8; 32],
    lottery_id: u64,
    ticket_id: u64,
    now: i64,
    r: Result<BuyOutcome, InstructionError>,
    new_lottery: Lottery,
    new_lottery_ticket: LotteryTicket,
    new_ticket: Ticket,
) -> bool {
    match buy_refusal(global_state, lottery, admin_lottery_token_account, lottery_id, now) {
        Some(e) => r == Err::<BuyOutcome, InstructionError>(InstructionError::Lottery(e))
            && new_lottery == lottery && new_lottery_ticket == lottery_ticket && new_ticket == ticket,
        None => {
            &&& r == Ok::<BuyOutcome, InstructionError>(BuyOutcome {
                transfer_amount: ticket_cost(lottery, decimals) as u64,
                purchase: TicketsPurchase { buyer, lottery_id, number_tickets: 1 },
            })
            &&& new_lottery == after_purchase(lottery)
            &&& new_lottery_ticket == (LotteryTicket {
                lottery_id,
                total_ticket: (lottery_ticket.total_ticket + 1) as u8,
                owner: buyer,
            })
            &&& new_ticket == (Ticket {
                lottery_id,
                ticket_order: ticket_id,
                randomness: random,
                force,
                owner: buyer,
                confirmed: false,
            })
        },
    }
}

/// Buys one ticket. On success the lottery has collected one more ticket's price, the
/// buyer's count of tickets grew by one, the fresh `ticket` records the purchase, and the
/// buyer pays the price times `10^decimals` of the lottery token; the program then
/// requests randomness with the seed `force`. `requires` leaves out the inputs on which the
/// program stops (`buy_panics`); `try_buy_tickets_handler` takes any input.
pub fn buy_tickets_handler(
    global_state: &GlobalState,
    lottery: &mut Lottery,
    lottery_ticket: &mut LotteryTicket,
    ticket: &mut Ticket,
    buyer: &Pubkey,
    random: &Pubkey,
    admin_lottery_token_account: &Pubkey,
    decimals: u8,
    force: [u8; 32],
    lottery_id: u64,
    ticket_id: u64,
    now: i64,
) -> (r: Result<BuyOutcome, InstructionError>)
    requires
        !buy_panics(*global_state, *old(lottery), *old(lottery_ticket), *admin_lottery_token_account, decimals, lottery_id, now),
    ensures
        buy_outcome(*global_state, *old(lottery), *old(lottery_ticket), *old(ticket), *buyer, *random,
            *admin_lottery_token_account, decimals, force, lottery_id, ticket_id, now,
            r, *final(lottery), *final(lottery_ticket), *final(ticket)),
{
    let now_u64 = now as u64;
    if !(lottery.end_time > now_u64) {
        return Err(InstructionError::Lottery(LotteryError::LotteryTimeElapsed));
    }
    if lottery.status != LOTTERY_OPEN {
        return Err(InstructionError::Lottery(LotteryError::LotteryClosed));
    }
    if lottery.id != lottery_id {
        return Err(InstructionError::Lottery(LotteryError::InvalidLotteryId));
    }
    if !same_key(&global_state.lottery_token_account, admin_lottery_token_account) {
        return Err(InstructionError::Lottery(LotteryError::InvalidLotteryTokenAccount));
    }
    let amount = lottery.lottery_coin_amount_per_ticket;
    lottery.amount_collected_in_lottery_coin = lottery.amount_collected_in_lottery_coin + amount;

    lottery_ticket.lottery_id = lottery_id;
    lottery_ticket.total_ticket = lottery_ticket.total_ticket + 1;
    lottery_ticket.owner = *buyer;

    ticket.lottery_id = lottery_id;
    ticket.ticket_order = ticket_id;
    ticket.randomness = *random;
    ticket.force = force;
    ticket.owner = *buyer;
    ticket.confirmed = false;

    let unit = pow10(decimals);
    let transfer_amount = amount * unit;
    Ok(BuyOutcome {
        transfer_amount,
        purchase: TicketsPurchase { buyer: *buyer, lottery_id, number_tickets: 1 },
    })
}

/// `10^e`, or `None` where it overflows a `u64`.
fn checked_pow10(e: u8) -> (r: Option<u64>)
    ensures
        r matches Some(v) ==> v == pow(10, e as nat),
        r is None ==> pow(10, e as nat) > u64::MAX,
{
    let mut v: u64 = 1;
    let mut i: u8 = 0;
    proof {
        reveal(pow);
    }
    while i < e
        invariant
            i <= e,
            v == pow(10, i as nat),
        decreases e - i,
    {
        proof {
            reveal(pow);
        }
        match v.checked_mul(10) {
            Some(n) => v = n,
            None => {
                proof {
                    lemma_pow_increases(10, (i + 1) as nat, e as nat);
                }
                return None;
            },
        }
        i = i + 1;
    }
    Some(v)
}

/// Buys a ticket on any input: `None`, with nothing changed, where the program would stop;
/// otherwise what `buy_tickets_handler` answers.
pub fn try_buy_tickets_handler(
    global_state: &GlobalState,
    lottery: &mut Lottery,
    lottery_ticket: &mut LotteryTicket,
    ticket: &mut Ticket,
    buyer: &Pubkey,
    random: &Pubkey,
    admin_lottery_token_account: &Pubkey,
    decimals: u8,
    force: [u8; 32],
    lottery_id: u64,
    ticket_id: u64,
    now: i64,
) -> (r: Option<Result<BuyOutcome, InstructionError>>)
    ensures
        buy_panics(*global_state, *old(lottery), *old(lottery_ticket), *admin_lottery_token_account, decimals, lottery_id, now)
            ==> r is None && *final(lottery) == *old(lottery) && *final(lottery_ticket) == *old(lottery_ticket)
            && *final(ticket) == *old(ticket),
        !buy_panics(*global_state, *old(lottery), *old(lottery_ticket), *admin_lottery_token_account, decimals, lottery_id, now)
            ==> (r matches Some(x) && buy_outcome(*global_state, *old(lottery), *old(lottery_ticket), *old(ticket), *buyer, *random,
            *admin_lottery_token_account, decimals, force, lottery_id, ticket_id, now,
            x, *final(lottery), *final(lottery_ticket), *final(ticket))),
{
    if now < 0 {
        return None;
    }
    let now_u64 = now as u64;
    let passes = lottery.end_time > now_u64 && lottery.status == LOTTERY_OPEN && lottery.id == lottery_id
        && same_key(&global_state.lottery_token_account, admin_lottery_token_account);
    if passes {
        let fits = match checked_pow10(decimals) {
            Some(unit) => lottery.amount_collected_in_lottery_coin.checked_add(lottery.lottery_coin_amount_per_ticket).is_some()
                && lottery_ticket.total_ticket < u8::MAX
                && lottery.lottery_coin_amount_per_ticket.checked_mul(unit).is_some(),
            None => false,
        };
        if !fits {
            return None;
        }
    }
    Some(buy_tickets_handler(global_state, lottery, lottery_ticket, ticket, buyer, random,
        admin_lottery_token_account, decimals, force, lottery_id, ticket_id, now))
}

// ---------------------------------------------------------------- confirming

/// Credits one winner to the tier that a ticket's match count names; a count outside
/// 3 to 6 credits none.
pub fn credit_winner(lottery: &mut Lottery, match_number: u8)
    requires
        is_tier(match_number as int) ==> old(lottery).winners(match_number as int) < u8::MAX,
    ensures
        match_number == 3 ==> *final(lottery) == (Lottery { winner_match3: (old(lottery).winner_match3 + 1) as u8, ..*old(lottery) }),
        match_number == 4 ==> *final(lottery) == (Lottery { winner_match4: (old(lottery).winner_match4 + 1) as u8, ..*old(lottery) }),
        match_number == 5 ==> *final(lottery) == (Lottery { winner_match5: (old(lottery).winner_match5 + 1) as u8, ..*old(lottery) }),
        match_number == 6 ==> *final(lottery) == (Lottery { winner_match6: (old(lottery).winner_match6 + 1) as u8, ..*old(lottery) }),
        !is_tier(match_number as int) ==> *final(lottery) == *old(lottery),
{
    if match_number == 3 {
        lottery.winner_match3 = lottery.winner_match3 + 1;
    } else if match_number == 4 {
        lottery.winner_match4 = lottery.winner_match4 + 1;
    } else if match_number == 5 {
        lottery.winner_match5 = lottery.winner_match5 + 1;
    } else if match_number == 6 {
        lottery.winner_match6 = lottery.winner_match6 + 1;
    }
}

/// The first check that a confirmation fails, in the order the program makes them: both
/// randomness accounts must hold data, the ticket must not be confirmed yet, and the
/// lottery must be open.
pub open spec fn confirm_refusal(
    lottery: Lottery,
    ticket: Ticket,
    ticket_random_data: Seq<u8>,
    lottery_random_data: Seq<u8>,
) -> Option<LotteryError> {
    if ticket_random_data.len() == 0 {
        Some(LotteryError::UninitializedAccount)
    } else if lottery_random_data.len() == 0 {
        Some(LotteryError::UninitializedAccount)
    } else if ticket.confirmed {
        Some(LotteryError::AlreadyConfirm)
    } else if lottery.status != LOTTERY_OPEN {
        Some(LotteryError::LotteryClosed)
    } else {
        None
    }
}

/// Whether the instruction passes its checks and reads both randomness accounts.
pub open spec fn reads_both(
    refusal: Option<LotteryError>,
    ticket_random_data: Seq<u8>,
    lottery_random_data: Seq<u8>,
) -> bool {
    &&& refusal is None
    &&& account_randomness(ticket_random_data) is Some
    &&& account_randomness(lottery_random_data) is Some
}

/// Whether both randomness values that were read are fulfilled.
pub open spec fn both_fulfilled(ticket_random_data: Seq<u8>, lottery_random_data: Seq<u8>) -> bool {
    &&& is_fulfilled(account_randomness(ticket_random_data).unwrap())
    &&& is_fulfilled(account_randomness(lottery_random_data).unwrap())
}

/// The inputs on which confirming stops the program: a randomness that is not fulfilled
/// yet, or a tier-3 winner count that would pass `u8::MAX`.
pub open spec fn confirm_aborts(
    lottery: Lottery,
    ticket: Ticket,
    ticket_random_data: Seq<u8>,
    lottery_random_data: Seq<u8>,
) -> bool {
    &&& reads_both(confirm_refusal(lottery, ticket, ticket_random_data, lottery_random_data), ticket_random_data, lottery_random_data)
    &&& (!both_fulfilled(ticket_random_data, lottery_random_data) || lottery.winner_match3 == u8::MAX)
}

/// What a confirmation answers and leaves, on inputs where it does not stop the program.
/// Whatever the digits drawn, the ticket is counted as a tier-3 winner.
pub open spec fn confirm_outcome(
    lottery: Lottery,
    ticket: Ticket,
    ticket_random_data: Seq<u8>,
    lottery_random_data: Seq<u8>,
    r: Result<(), InstructionError>,
    new_lottery: Lottery,
    new_ticket: Ticket,
) -> bool {
    match confirm_refusal(lottery, ticket, ticket_random_data, lottery_random_data) {
        Some(e) => r == Err::<(), InstructionError>(InstructionError::Lottery(e)) && new_lottery == lottery
            && new_ticket == ticket,
        None => if account_randomness(ticket_random_data) is None || account_randomness(lottery_random_data) is None {
            r matches Err(InstructionError::Anchor(_)) && new_lottery == lottery && new_ticket == ticket
        } else {
            &&& r is Ok
            &&& new_lottery == (Lottery { winner_match3: (lottery.winner_match3 + 1) as u8, ..lottery })
            &&& new_ticket == (Ticket { confirmed: true, ..ticket })
        },
    }
}

/// Settles a confirmation once both randomness values are read: counts the digits that
/// the ticket shares with the lottery, credits a winner to tier 3 (the tier is fixed at 3,
/// whatever the count), and marks the ticket confirmed. Returns the count.
pub fn settle_confirmation(
    lottery: &mut Lottery,
    ticket: &mut Ticket,
    ticket_randomness: &[u8; 64],
    lottery_randomness: &[u8; 64],
) -> (r: u8)
    requires
        is_fulfilled(ticket_randomness@),
        is_fulfilled(lottery_randomness@),
        old(lottery).winner_match3 < u8::MAX,
    ensures
        r == leading_matches(ticket_randomness@, lottery_randomness@),
        *final(lottery) == (Lottery { winner_match3: (old(lottery).winner_match3 + 1) as u8, ..*old(lottery) }),
        *final(ticket) == (Ticket { confirmed: true, ..*old(ticket) }),
{
    let drawn = count_leading_matches(ticket_randomness, lottery_randomness);
    let match_number: u8 = 3;
    credit_winner(lottery, match_number);
    ticket.confirmed = true;
    drawn
}

/// Confirms a ticket against the lottery's randomness. `requires` leaves out the inputs on
/// which the program stops (`confirm_aborts`); `try_confirm_tickets_handler` takes any input.
pub fn confirm_tickets_handler(
    lottery: &mut Lottery,
    ticket: &mut Ticket,
    ticket_random_data: &[u8],
    lottery_random_data: &[u8],
) -> (r: Result<(), InstructionError>)
    requires
        !confirm_aborts(*old(lottery), *old(ticket), ticket_random_data@, lottery_random_data@),
    ensures
        confirm_outcome(*old(lottery), *old(ticket), ticket_random_data@, lottery_random_data@, r, *final(lottery), *final(ticket)),
{
    if ticket_random_data.len() == 0 {
        return Err(InstructionError::Lottery(LotteryError::UninitializedAccount));
    }
    if lottery_random_data.len() == 0 {
        return Err(InstructionError::Lottery(LotteryError::UninitializedAccount));
    }
    if ticket.confirmed {
        return Err(InstructionError::Lottery(LotteryError::AlreadyConfirm));
    }
    if lottery.status != LOTTERY_OPEN {
        return Err(InstructionError::Lottery(LotteryError::LotteryClosed));
    }
    let ticket_randomness = match read_randomness_account(ticket_random_data) {
        Ok(v) => v,
        Err(e) => return Err(InstructionError::Anchor(e)),
    };
    let lottery_randomness = match read_randomness_account(lottery_random_data) {
        Ok(v) => v,
        Err(e) => return Err(InstructionError::Anchor(e)),
    };
    let _ = settle_confirmation(lottery, ticket, &ticket_randomness, &lottery_randomness);
    Ok(())
}

/// Whether a confirmation would stop the program, found by making its checks and reads.
fn confirm_would_abort(
    lottery: &Lottery,
    ticket: &Ticket,
    ticket_random_data: &[u8],
    lottery_random_data: &[u8],
) -> (r: bool)
    ensures
        r == confirm_aborts(*lottery, *ticket, ticket_random_data@, lottery_random_data@),
{
    if ticket_random_data.len() == 0 || lottery_random_data.len() == 0 || ticket.confirmed
        || lottery.status != LOTTERY_OPEN {
        return false;
    }
    match (read_randomness_account(ticket_random_data), read_randomness_account(lottery_random_data)) {
        (Ok(t), Ok(l)) => {
            fulfilled(&t).is_none() || fulfilled(&l).is_none() || lottery.winner_match3 == u8::MAX
        },
        _ => false,
    }
}

/// Confirms a ticket on any input: `None`, with nothing changed, where the program would
/// stop; otherwise what `confirm_tickets_handler` answers.
pub fn try_confirm_tickets_handler(
    lottery: &mut Lottery,
    ticket: &mut Ticket,
    ticket_random_data: &[u8],
    lottery_random_data: &[u8],
) -> (r: Option<Result<(), InstructionError>>)
    ensures
        confirm_aborts(*old(lottery), *old(ticket), ticket_random_data@, lottery_random_data@)
            ==> r is None && *final(lottery) == *old(lottery) && *final(ticket) == *old(ticket),
        !confirm_aborts(*old(lottery), *old(ticket), ticket_random_data@, lottery_random_data@)
            ==> (r matches Some(x) && confirm_outcome(*old(lottery), *old(ticket), ticket_random_data@, lottery_random_data@, x, *final(lottery), *final(ticket))),
{
    if confirm_would_abort(lottery, ticket, ticket_random_data, lottery_random_data) {
        return None;
    }
    Some(confirm_tickets_handler(lottery, ticket, ticket_random_data, lottery_random_data))
}

// ---------------------------------------------------------------- claiming

/// The first check that a claim fails, in the order the program makes them: both
/// randomness accounts must hold data, the ticket must be confirmed, and the lottery
/// must be claimable.
pub open spec fn claim_refusal(
    lottery: Lottery,
    ticket: Ticket,
    ticket_random_data: Seq<u8>,
    lottery_random_data: Seq<u8>,
) -> Option<LotteryError> {
    if ticket_random_data.len() == 0 {
        Some(LotteryError::UninitializedAccount)
    } else if lottery_random_data.len() == 0 {
        Some(LotteryError::UninitializedAccount)
    } else if !ticket.confirmed {
        Some(LotteryError::NotConfirmed)
    } else if lottery.status != LOTTERY_CLAIMABLE {
        Some(LotteryError::LotteryNotClaimable)
    } else {
        None
    }
}

/// The ANTC that a tier's winners share: the deposit, and from the second lottery on,
/// what the previous lottery left over in the tier.
pub open spec fn prize_pool(lottery: Lottery, prev_lottery: Lottery, tier: int) -> int {
    if lottery.id == 1 {
        lottery.amount_antc_for_deposit as int
    } else {
        lottery.amount_antc_for_deposit + prev_lottery.remain(tier)
    }
}

/// One winner's prize in a tier: the pool split among the tier's winners, then the tier's
/// percentage of that, in integer division at each step.
pub open spec fn prize(lottery: Lottery, prev_lottery: Lottery, rewards: Reward, tier: int) -> int {
    prize_pool(lottery, prev_lottery, tier) / (lottery.winners(tier) as int) * rewards.share(tier) / 100
}

/// Whether a tier's prize can be computed: it has winners and the amounts fit in a `u64`.
pub open spec fn prize_fits(lottery: Lottery, prev_lottery: Lottery, rewards: Reward, tier: int) -> bool {
    &&& lottery.winners(tier) != 0
    &&& prize_pool(lottery, prev_lottery, tier) <= u64::MAX
    &&& prize_pool(lottery, prev_lottery, tier) / (lottery.winners(tier) as int) * rewards.share(tier) <= u64::MAX
}

/// One winner's prize in a tier.
pub fn prize_for_tier(lottery: &Lottery, prev_lottery: &Lottery, rewards: &Reward, tier: u8) -> (r: u64)
    requires
        is_tier(tier as int),
        prize_fits(*lottery, *prev_lottery, *rewards, tier as int),
    ensures
        r == prize(*lottery, *prev_lottery, *rewards, tier as int),
{
    let winners = lottery.winners_of(tier) as u64;
    let share = rewards.share_of(tier);
    let pool = if lottery.id == 1 {
        lottery.amount_antc_for_deposit
    } else {
        lottery.amount_antc_for_deposit + prev_lottery.remain_of(tier)
    };
    let per_winner = pool / winners;
    per_winner * share / 100
}

/// The inputs on which claiming stops the program: a randomness that is not fulfilled
/// yet, or a tier-3 prize that cannot be computed (no winners, or too large).
pub open spec fn claim_aborts(
    lottery: Lottery,
    prev_lottery: Lottery,
    rewards: Reward,
    ticket: Ticket,
    ticket_random_data: Seq<u8>,
    lottery_random_data: Seq<u8>,
) -> bool {
    &&& reads_both(claim_refusal(lottery, ticket, ticket_random_data, lottery_random_data), ticket_random_data, lottery_random_data)
    &&& (!both_fulfilled(ticket_random_data, lottery_random_data) || !prize_fits(lottery, prev_lottery, rewards, 3))
}

/// What a claim answers and leaves, on inputs where it does not stop the program: the
/// tier-3 prize, whatever the digits drawn, paid from the ANTC pool to the claimer.
/// The ticket stays as it was (it is already confirmed).
pub open spec fn claim_outcome(
    lottery: Lottery,
    prev_lottery: Lottery,
    rewards: Reward,
    ticket: Ticket,
    ticket_random_data: Seq<u8>,
    lottery_random_data: Seq<u8>,
    r: Result<u64, InstructionError>,
    new_ticket: Ticket,
) -> bool {
    match claim_refusal(lottery, ticket, ticket_random_data, lottery_random_data) {
        Some(e) => r == Err::<u64, InstructionError>(InstructionError::Lottery(e)) && new_ticket == ticket,
        None => if account_randomness(ticket_random_data) is None || account_randomness(lottery_random_data) is None {
            r matches Err(InstructionError::Anchor(_)) && new_ticket == ticket
        } else {
            &&& r == Ok::<u64, InstructionError>(prize(lottery, prev_lottery, rewards, 3) as u64)
            &&& new_ticket == (Ticket { confirmed: true, ..ticket })
        },
    }
}

/// Settles a claim once both randomness values are read: counts the digits that the
/// ticket shares with the lottery, pays the prize of tier 3 (the tier is fixed at 3,
/// whatever the count), and marks the ticket confirmed. Returns the prize.
pub fn settle_claim(
    lottery: &Lottery,
    prev_lottery: &Lottery,
    rewards: &Reward,
    ticket: &mut Ticket,
    ticket_randomness: &[u8; 64],
    lottery_randomness: &[u8; 64],
) -> (r: u64)
    requires
        is_fulfilled(ticket_randomness@),
        is_fulfilled(lottery_randomness@),
        prize_fits(*lottery, *prev_lottery, *rewards, 3),
    ensures
        r == prize(*lottery, *prev_lottery, *rewards, 3),
        *final(ticket) == (Ticket { confirmed: true, ..*old(ticket) }),
{
    let _drawn = count_leading_matches(ticket_randomness, lottery_randomness);
    let match_number: u8 = 3;
    let amount = prize_for_tier(lottery, prev_lottery, rewards, match_number);
    ticket.confirmed = true;
    amount
}

/// Claims a confirmed ticket's prize from a claimable lottery; the answer is the amount of
/// ANTC that the pool pays to the claimer. `requires` leaves out the inputs on which the
/// program stops (`claim_aborts`); `try_claim_tickets_handler` takes any input.
pub fn claim_tickets_handler(
    global_state: &GlobalState,
    lottery: &Lottery,
    prev_lottery: &Lottery,
    ticket: &mut Ticket,
    ticket_random_data: &[u8],
    lottery_random_data: &[u8],
) -> (r: Result<u64, InstructionError>)
    requires
        !claim_aborts(*lottery, *prev_lottery, global_state.rewards_breakdown, *old(ticket), ticket_random_data@, lottery_random_data@),
    ensures
        claim_outcome(*lottery, *prev_lottery, global_state.rewards_breakdown, *old(ticket), ticket_random_data@, lottery_random_data@, r, *final(ticket)),
{
    if ticket_random_data.len() == 0 {
        return Err(InstructionError::Lottery(LotteryError::UninitializedAccount));
    }
    if lottery_random_data.len() == 0 {
        return Err(InstructionError::Lottery(LotteryError::UninitializedAccount));
    }
    if !ticket.confirmed {
        return Err(InstructionError::Lottery(LotteryError::NotConfirmed));
    }
    if lottery.status != LOTTERY_CLAIMABLE {
        return Err(InstructionError::Lottery(LotteryError::LotteryNotClaimable));
    }
    let ticket_randomness = match read_randomness_account(ticket_random_data) {
        Ok(v) => v,
        Err(e) => return Err(InstructionError::Anchor(e)),
    };
    let lottery_randomness = match read_randomness_account(lottery_random_data) {
        Ok(v) => v,
        Err(e) => return Err(InstructionError::Anchor(e)),
    };
    let amount = settle_claim(
        lottery,
        prev_lottery,
        &global_state.rewards_breakdown,
        ticket,
        &ticket_randomness,
        &lottery_randomness,
    );
    Ok(amount)
}

/// Whether a tier's prize can be computed, in compiled code.
fn prize_computable(lottery: &Lottery, prev_lottery: &Lottery, rewards: &Reward, tier: u8) -> (r: bool)
    requires
        is_tier(tier as int),
    ensures
        r == prize_fits(*lottery, *prev_lottery, *rewards, tier as int),
{
    let winners = lottery.winners_of(tier) as u64;
    if winners == 0 {
        return false;
    }
    let share = rewards.share_of(tier);
    let pool = if lottery.id == 1 {
        lottery.amount_antc_for_deposit
    } else {
        match lottery.amount_antc_for_deposit.checked_add(prev_lottery.remain_of(tier)) {
            Some(p) => p,
            None => return false,
        }
    };
    (pool / winners).checked_mul(share).is_some()
}

/// Whether a claim would stop the program, found by making its checks and reads.
fn claim_would_abort(
    lottery: &Lottery,
    prev_lottery: &Lottery,
    rewards: &Reward,
    ticket: &Ticket,
    ticket_random_data: &[u8],
    lottery_random_data: &[u8],
) -> (r: bool)
    ensures
        r == claim_aborts(*lottery, *prev_lottery, *rewards, *ticket, ticket_random_data@, lottery_random_data@),
{
    if ticket_random_data.len() == 0 || lottery_random_data.len() == 0 || !ticket.confirmed
        || lottery.status != LOTTERY_CLAIMABLE {
        return false;
    }
    match (read_randomness_account(ticket_random_data), read_randomness_account(lottery_random_data)) {
        (Ok(t), Ok(l)) => {
            fulfilled(&t).is_none() || fulfilled(&l).is_none()
                || !prize_computable(lottery, prev_lottery, rewards, 3)
        },
        _ => false,
    }
}

/// Claims a ticket's prize on any input: `None`, with nothing changed, where the program
/// would stop; otherwise what `claim_tickets_handler` answers.
pub fn try_claim_tickets_handler(
    global_state: &GlobalState,
    lottery: &Lottery,
    prev_lottery: &Lottery,
    ticket: &mut Ticket,
    ticket_random_data: &[u8],
    lottery_random_data: &[u8],
) -> (r: Option<Result<u64, InstructionError>>)
    ensures
        claim_aborts(*lottery, *prev_lottery, global_state.rewards_breakdown, *old(ticket), ticket_random_data@, lottery_random_data@)
            ==> r is None && *final(ticket) == *old(ticket),
        !claim_aborts(*lottery, *prev_lottery, global_state.rewards_breakdown, *old(ticket), ticket_random_data@, lottery_random_data@)
            ==> (r matches Some(x) && claim_outcome(*lottery, *prev_lottery, global_state.rewards_breakdown, *old(ticket), ticket_random_data@, lottery_random_data@, x, *final(ticket))),
{
    if claim_would_abort(lottery, prev_lottery, &global_state.rewards_breakdown, ticket, ticket_random_data, lottery_random_data) {
        return None;
    }
    Some(claim_tickets_handler(global_state, lottery, prev_lottery, ticket, ticket_random_data, lottery_random_data))
}

} // verus!
