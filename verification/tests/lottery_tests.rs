use anchor_lang::prelude::Pubkey;
use anchor_lang::AccountSerialize;
use lottery::errors::{InstructionError, LotteryError};
use lottery::events::{LotteryClose, LotteryNumberDrawn, TicketsPurchase};
use lottery::instructions::buy_tickets::{
    buy_tickets_handler, pow10, try_buy_tickets_handler, try_claim_tickets_handler,
    try_confirm_tickets_handler,
};
use lottery::instructions::close_lottery::{close_lottery_handler, try_close_lottery_handler};
use lottery::instructions::initialize::initialize;
use lottery::instructions::process_draw_final_number_and_make_lottery_claimable::{
    calculate_antc_for_lottery, deposit_antc_for_lottery,
    process_draw_final_number_and_make_lottery_claimable_handler, try_calculate_antc_for_lottery,
    try_process_draw_final_number_and_make_lottery_claimable_handler,
};
use lottery::instructions::start_lottery::{start_lottery_handler, try_start_lottery_handler};
use lottery::randomness::{count_leading_matches, fulfilled, get_value};
use lottery::state::{GlobalState, Lottery, LotteryTicket, Reward, Ticket};
use orao_solana_vrf::state::Randomness;

fn key(b: u8) -> Pubkey {
    Pubkey::new_from_array([b; 32])
}

fn lottery_err(r: &Result<impl std::fmt::Debug, InstructionError>) -> Option<LotteryError> {
    match r {
        Err(InstructionError::Lottery(e)) => Some(*e),
        _ => None,
    }
}

/// The bytes of an ORAO randomness account holding `randomness`.
fn randomness_account(randomness: [u8; 64]) -> Vec<u8> {
    let account = Randomness { seed: [7; 32], randomness, responses: vec![] };
    let mut data = Vec::new();
    account.try_serialize(&mut data).unwrap();
    data
}

/// A randomness whose six first digits are `digits` (each word holds its digit).
fn randomness_with_digits(digits: [u64; 6]) -> [u8; 64] {
    let mut r = [1u8; 64];
    for (i, d) in digits.iter().enumerate() {
        r[i * 8..i * 8 + 8].copy_from_slice(&d.to_le_bytes());
    }
    r
}

fn open_lottery(owner: Pubkey) -> Lottery {
    Lottery {
        id: 1,
        end_time: 1_000,
        status: 0,
        owner,
        lottery_coin_amount_per_ticket: 5,
        ..Lottery::default()
    }
}

fn global(owner: Pubkey) -> GlobalState {
    GlobalState {
        current_lottery_id: 1,
        rewards_breakdown: Reward { match3: 10, match4: 20, match5: 30, match6: 40 },
        lottery_token_account: key(9),
        owner,
        ..GlobalState::default()
    }
}

// ------------------------------------------------------------------ initialize

#[test]
fn initialize_sets_up_global_state() {
    let mut g = GlobalState { current_lottery_id: 42, bump: 1, ..GlobalState::default() };
    let ev = initialize(&mut g, &key(1), vec![10, 20, 30, 40], 254);
    assert_eq!(g.current_lottery_id, 0);
    assert_eq!(g.rewards_breakdown, Reward { match3: 10, match4: 20, match5: 30, match6: 40 });
    assert_eq!(g.owner, key(1));
    assert_eq!(g.bump, 254);
    assert_eq!(ev.current_lottery_id, 0);
    assert_eq!(ev.rewards_breakdown, vec![10, 20, 30, 40]);
    assert_eq!(ev.owner, key(1));
}

// ------------------------------------------------------------------ start

#[test]
fn start_lottery_by_owner() {
    let mut g = global(key(1));
    let mut l = Lottery { amount_collected_in_lottery_coin: 3, ..Lottery::default() };
    let r = start_lottery_handler(&mut g, &mut l, &key(1), [4; 32], 60, 7, 1_000);
    assert!(r.is_ok());
    assert_eq!(g.current_lottery_id, 2);
    assert_eq!(l.id, 2);
    assert_eq!(l.end_time, 1_060);
    assert_eq!(l.status, 0);
    assert_eq!(l.owner, key(1));
    assert_eq!(l.lottery_coin_amount_per_ticket, 7);
    assert_eq!(l.force, [4; 32]);
    assert_eq!(l.amount_collected_in_lottery_coin, 3);
}

#[test]
fn start_lottery_refuses_non_owner() {
    let mut g = global(key(1));
    let mut l = Lottery::default();
    let r = start_lottery_handler(&mut g, &mut l, &key(2), [4; 32], 60, 7, 1_000);
    assert_eq!(lottery_err(&r), Some(LotteryError::NotOwner));
    assert_eq!(g.current_lottery_id, 1);
    assert_eq!(l.id, 0);
}

#[test]
fn two_starts_give_consecutive_ids() {
    let mut g = global(key(1));
    let mut a = Lottery::default();
    let mut b = Lottery::default();
    start_lottery_handler(&mut g, &mut a, &key(1), [1; 32], 10, 1, 0).unwrap();
    start_lottery_handler(&mut g, &mut b, &key(1), [2; 32], 10, 1, 0).unwrap();
    assert_eq!(a.id, 2);
    assert_eq!(b.id, 3);
    assert_eq!(g.current_lottery_id, 3);
}

// ------------------------------------------------------------------ close

#[test]
fn close_lottery_after_end() {
    let mut l = open_lottery(key(1));
    let r = close_lottery_handler(&mut l, &key(1), 1, 1_001);
    assert_eq!(r.unwrap(), LotteryClose { lottery_id: 1, first_ticket_id_next_lottery: 0 });
    assert_eq!(l.status, 1);
}

#[test]
fn close_lottery_refusals() {
    let mut l = open_lottery(key(1));
    assert_eq!(lottery_err(&close_lottery_handler(&mut l, &key(1), 1, 1_000)), Some(LotteryError::LotteryTimeUnElapsed));
    assert_eq!(lottery_err(&close_lottery_handler(&mut l, &key(2), 1, 2_000)), Some(LotteryError::UnauthorizedOwner));
    assert_eq!(lottery_err(&close_lottery_handler(&mut l, &key(1), 2, 2_000)), Some(LotteryError::InvalidLotteryId));
    l.status = 1;
    assert_eq!(lottery_err(&close_lottery_handler(&mut l, &key(1), 1, 2_000)), Some(LotteryError::LotteryClosed));
    assert_eq!(l.status, 1);
}

// ------------------------------------------------------------------ buy

#[test]
fn buy_ticket_updates_accounts() {
    let g = global(key(1));
    let mut l = open_lottery(key(1));
    let mut lt = LotteryTicket::default();
    let mut t = Ticket { confirmed: true, ..Ticket::default() };
    let r = buy_tickets_handler(&g, &mut l, &mut lt, &mut t, &key(3), &key(4), &key(9), 6, [8; 32], 1, 77, 500);
    let out = r.unwrap();
    assert_eq!(out.transfer_amount, 5_000_000);
    assert_eq!(out.purchase, TicketsPurchase { buyer: key(3), lottery_id: 1, number_tickets: 1 });
    assert_eq!(l.amount_collected_in_lottery_coin, 5);
    assert_eq!(lt.lottery_id, 1);
    assert_eq!(lt.total_ticket, 1);
    assert_eq!(lt.owner, key(3));
    assert_eq!(t.lottery_id, 1);
    assert_eq!(t.ticket_order, 77);
    assert_eq!(t.randomness, key(4));
    assert_eq!(t.force, [8; 32]);
    assert_eq!(t.owner, key(3));
    assert!(!t.confirmed);
}

#[test]
fn purchases_add_up() {
    let g = global(key(1));
    let mut l = open_lottery(key(1));
    let mut lt = LotteryTicket::default();
    for order in 0..2 {
        let mut t = Ticket::default();
        buy_tickets_handler(&g, &mut l, &mut lt, &mut t, &key(3), &key(4), &key(9), 0, [8; 32], 1, order, 500).unwrap();
    }
    assert_eq!(l.amount_collected_in_lottery_coin, 10);
    assert_eq!(lt.total_ticket, 2);
}

#[test]
fn buy_ticket_refusals() {
    let g = global(key(1));
    let mut l = open_lottery(key(1));
    let mut lt = LotteryTicket::default();
    let mut t = Ticket::default();
    let r = buy_tickets_handler(&g, &mut l, &mut lt, &mut t, &key(3), &key(4), &key(9), 0, [0; 32], 1, 0, 1_000);
    assert_eq!(lottery_err(&r), Some(LotteryError::LotteryTimeElapsed));
    let r = buy_tickets_handler(&g, &mut l, &mut lt, &mut t, &key(3), &key(4), &key(9), 0, [0; 32], 2, 0, 10);
    assert_eq!(lottery_err(&r), Some(LotteryError::InvalidLotteryId));
    let r = buy_tickets_handler(&g, &mut l, &mut lt, &mut t, &key(3), &key(4), &key(8), 0, [0; 32], 1, 0, 10);
    assert_eq!(lottery_err(&r), Some(LotteryError::InvalidLotteryTokenAccount));
    l.status = 1;
    let r = buy_tickets_handler(&g, &mut l, &mut lt, &mut t, &key(3), &key(4), &key(9), 0, [0; 32], 1, 0, 10);
    assert_eq!(lottery_err(&r), Some(LotteryError::LotteryClosed));
    assert_eq!(l.amount_collected_in_lottery_coin, 0);
    assert_eq!(lt.total_ticket, 0);
}

#[test]
fn no_sales_after_close() {
    let g = global(key(1));
    let mut l = open_lottery(key(1));
    close_lottery_handler(&mut l, &key(1), 1, 1_001).unwrap();
    let mut lt = LotteryTicket::default();
    let mut t = Ticket::default();
    let r = buy_tickets_handler(&g, &mut l, &mut lt, &mut t, &key(3), &key(4), &key(9), 0, [0; 32], 1, 0, 10);
    assert_eq!(lottery_err(&r), Some(LotteryError::LotteryClosed));
}

#[test]
fn pow10_values() {
    assert_eq!(pow10(0), 1);
    assert_eq!(pow10(6), 1_000_000);
    assert_eq!(pow10(19), 10_000_000_000_000_000_000);
}

// ------------------------------------------------------------------ randomness

#[test]
fn digits_of_randomness() {
    let r = randomness_with_digits([123, 4, 5, 6, 7, 18]);
    assert_eq!(get_value(&r, 0), 3);
    assert_eq!(get_value(&r, 1), 4);
    assert_eq!(get_value(&r, 5), 8);
    let mut big = [0u8; 64];
    big[8..16].copy_from_slice(&u64::MAX.to_le_bytes());
    assert_eq!(get_value(&big, 1), (u64::MAX % 10) as u8);
}

#[test]
fn leading_matches_counted() {
    let a = randomness_with_digits([1, 2, 3, 4, 5, 6]);
    let b = randomness_with_digits([11, 2, 3, 9, 5, 6]);
    assert_eq!(count_leading_matches(&a, &b), 3);
    assert_eq!(count_leading_matches(&a, &a), 6);
    let c = randomness_with_digits([2, 2, 3, 4, 5, 6]);
    assert_eq!(count_leading_matches(&a, &c), 0);
}

#[test]
fn fulfilled_randomness() {
    assert_eq!(fulfilled(&[0; 64]), None);
    let mut r = [0u8; 64];
    r[63] = 1;
    assert_eq!(fulfilled(&r), Some(r));
}

// ------------------------------------------------------------------ confirm

#[test]
fn confirm_credits_tier_three() {
    let mut l = open_lottery(key(1));
    let mut t = Ticket::default();
    let td = randomness_account(randomness_with_digits([1, 2, 3, 4, 5, 6]));
    let ld = randomness_account(randomness_with_digits([9, 9, 9, 9, 9, 9]));
    let r = try_confirm_tickets_handler(&mut l, &mut t, &td, &ld);
    assert!(matches!(r, Some(Ok(()))));
    assert_eq!(l.winner_match3, 1);
    assert_eq!(l.winner_match4, 0);
    assert!(t.confirmed);
    // confirmed once only
    let r = try_confirm_tickets_handler(&mut l, &mut t, &td, &ld);
    assert!(matches!(r, Some(Err(InstructionError::Lottery(LotteryError::AlreadyConfirm)))));
    assert_eq!(l.winner_match3, 1);
}

#[test]
fn confirm_refusals() {
    let mut l = open_lottery(key(1));
    let mut t = Ticket::default();
    let good = randomness_account(randomness_with_digits([1, 2, 3, 4, 5, 6]));
    let r = try_confirm_tickets_handler(&mut l, &mut t, &[], &good);
    assert!(matches!(r, Some(Err(InstructionError::Lottery(LotteryError::UninitializedAccount)))));
    let r = try_confirm_tickets_handler(&mut l, &mut t, &good, &[]);
    assert!(matches!(r, Some(Err(InstructionError::Lottery(LotteryError::UninitializedAccount)))));
    let r = try_confirm_tickets_handler(&mut l, &mut t, &[1, 2, 3], &good);
    assert!(matches!(r, Some(Err(InstructionError::Anchor(_)))));
    let mut wrong = good.clone();
    wrong[0] ^= 0xff;
    let r = try_confirm_tickets_handler(&mut l, &mut t, &good, &wrong);
    assert!(matches!(r, Some(Err(InstructionError::Anchor(_)))));
    l.status = 1;
    let r = try_confirm_tickets_handler(&mut l, &mut t, &good, &good);
    assert!(matches!(r, Some(Err(InstructionError::Lottery(LotteryError::LotteryClosed)))));
    assert_eq!(l.winner_match3, 0);
    assert!(!t.confirmed);
}

#[test]
fn confirm_stops_on_unfulfilled_randomness() {
    let mut l = open_lottery(key(1));
    let mut t = Ticket::default();
    let good = randomness_account(randomness_with_digits([1, 2, 3, 4, 5, 6]));
    let empty = randomness_account([0; 64]);
    assert!(try_confirm_tickets_handler(&mut l, &mut t, &good, &empty).is_none());
    assert!(try_confirm_tickets_handler(&mut l, &mut t, &empty, &good).is_none());
    assert_eq!(l.winner_match3, 0);
    assert!(!t.confirmed);
}

// ------------------------------------------------------------------ pricing, deposit

#[test]
fn calculate_antc_amount() {
    let mut l = Lottery { amount_collected_in_lottery_coin: 15, owner: key(1), ..Lottery::default() };
    calculate_antc_for_lottery(&mut l, &key(1), 3, 7).unwrap();
    assert_eq!(l.amount_antc_for_deposit, 1_000_000 * 15 * 3 / 7);
    let r = calculate_antc_for_lottery(&mut l, &key(2), 3, 1);
    assert_eq!(lottery_err(&r), Some(LotteryError::NotOwner));
    assert_eq!(l.amount_antc_for_deposit, 6_428_571);
}

#[test]
fn deposit_only_once() {
    let mut l = Lottery { amount_antc_for_deposit: 500, ..Lottery::default() };
    assert!(matches!(deposit_antc_for_lottery(&mut l, 499), Err(InstructionError::RequireEqViolated)));
    assert!(!l.deposited);
    assert_eq!(deposit_antc_for_lottery(&mut l, 500).unwrap(), 500);
    assert!(l.deposited);
    assert!(matches!(deposit_antc_for_lottery(&mut l, 500), Err(InstructionError::RequireEqViolated)));
}

// ------------------------------------------------------------------ draw

fn closed_deposited(owner: Pubkey, id: u64) -> Lottery {
    Lottery {
        id,
        status: 1,
        owner,
        deposited: true,
        amount_antc_for_deposit: 1_000,
        winner_match3: 2,
        ..Lottery::default()
    }
}

#[test]
fn draw_first_lottery() {
    let g = global(key(1));
    let mut l = closed_deposited(key(1), 1);
    let prev = Lottery { remain_match4: 999, ..Lottery::default() };
    let out = process_draw_final_number_and_make_lottery_claimable_handler(&mut l, &prev, &g, &key(1), 1).unwrap();
    // tier 3 has winners; tiers 4, 5, 6 get 20%, 30%, 40% of 1000 and burn 40% of that
    assert_eq!(out.burns, vec![80, 120, 160]);
    assert_eq!(out.drawn, LotteryNumberDrawn { lottery_id: 1, final_number: 0, count_winning_tickets: 2 });
    assert_eq!(l.status, 2);
    assert_eq!(l.remain_match3, 0);
    assert_eq!(l.remain_match4, 120);
    assert_eq!(l.remain_match5, 180);
    assert_eq!(l.remain_match6, 240);
}

#[test]
fn draw_later_lottery_adds_previous_rollover() {
    let g = global(key(1));
    let mut l = closed_deposited(key(1), 2);
    l.winner_match3 = 0;
    l.winner_match6 = 1;
    let prev = Lottery { remain_match3: 5, remain_match4: 7, remain_match5: 0, remain_match6: 50, ..Lottery::default() };
    let out = process_draw_final_number_and_make_lottery_claimable_handler(&mut l, &prev, &g, &key(1), 2).unwrap();
    // pools: 100 + 5, 200 + 7, 300 + 0; tier 6 has a winner
    assert_eq!(out.burns, vec![42, 82, 120]);
    assert_eq!(l.remain_match3, 63);
    assert_eq!(l.remain_match4, 125);
    assert_eq!(l.remain_match5, 180);
    assert_eq!(l.remain_match6, 0);
    assert_eq!(out.drawn.count_winning_tickets, 1);
}

#[test]
fn draw_refusals() {
    let g = global(key(1));
    let prev = Lottery::default();
    let mut l = closed_deposited(key(1), 1);
    let r = process_draw_final_number_and_make_lottery_claimable_handler(&mut l, &prev, &g, &key(2), 1);
    assert_eq!(lottery_err(&r), Some(LotteryError::NotOwner));
    l.deposited = false;
    let r = process_draw_final_number_and_make_lottery_claimable_handler(&mut l, &prev, &g, &key(1), 1);
    assert_eq!(lottery_err(&r), Some(LotteryError::NotDeposit));
    assert_eq!(l.status, 1);
    l.status = 0;
    let r = process_draw_final_number_and_make_lottery_claimable_handler(&mut l, &prev, &g, &key(1), 1);
    assert_eq!(lottery_err(&r), Some(LotteryError::LotteryOpen));
}

// ------------------------------------------------------------------ claim

#[test]
fn claim_pays_tier_three_prize() {
    let g = global(key(1));
    let l = Lottery { id: 1, status: 2, amount_antc_for_deposit: 1_001, winner_match3: 2, ..Lottery::default() };
    let prev = Lottery { remain_match3: 500, ..Lottery::default() };
    let mut t = Ticket { confirmed: true, ..Ticket::default() };
    let td = randomness_account(randomness_with_digits([1, 2, 3, 4, 5, 6]));
    let ld = randomness_account(randomness_with_digits([2, 2, 3, 4, 5, 6]));
    let r = try_claim_tickets_handler(&g, &l, &prev, &mut t, &td, &ld);
    // 1001 / 2 * 10 / 100
    assert!(matches!(r, Some(Ok(50))));
    // the ticket stays claimable: the same claim pays again
    let r = try_claim_tickets_handler(&g, &l, &prev, &mut t, &td, &ld);
    assert!(matches!(r, Some(Ok(50))));
    // from the second lottery on, the previous rollover joins the pool
    let l2 = Lottery { id: 2, ..l };
    let r = try_claim_tickets_handler(&g, &l2, &prev, &mut t, &td, &ld);
    assert!(matches!(r, Some(Ok(75))));
}

#[test]
fn claim_refusals() {
    let g = global(key(1));
    let l = Lottery { id: 1, status: 2, amount_antc_for_deposit: 1_000, winner_match3: 1, ..Lottery::default() };
    let prev = Lottery::default();
    let good = randomness_account(randomness_with_digits([1, 2, 3, 4, 5, 6]));
    let mut t = Ticket::default();
    let r = try_claim_tickets_handler(&g, &l, &prev, &mut t, &good, &good);
    assert!(matches!(r, Some(Err(InstructionError::Lottery(LotteryError::NotConfirmed)))));
    t.confirmed = true;
    let r = try_claim_tickets_handler(&g, &l, &prev, &mut t, &[], &good);
    assert!(matches!(r, Some(Err(InstructionError::Lottery(LotteryError::UninitializedAccount)))));
    let r = try_claim_tickets_handler(&g, &l, &prev, &mut t, &good, &[0; 20]);
    assert!(matches!(r, Some(Err(InstructionError::Anchor(_)))));
    let open = Lottery { status: 1, ..l };
    let r = try_claim_tickets_handler(&g, &open, &prev, &mut t, &good, &good);
    assert!(matches!(r, Some(Err(InstructionError::Lottery(LotteryError::LotteryNotClaimable)))));
}

#[test]
fn claim_stops_without_tier_three_winner() {
    let g = global(key(1));
    let l = Lottery { id: 1, status: 2, amount_antc_for_deposit: 1_000, ..Lottery::default() };
    let prev = Lottery::default();
    let good = randomness_account(randomness_with_digits([1, 2, 3, 4, 5, 6]));
    let mut t = Ticket { confirmed: true, ..Ticket::default() };
    assert!(try_claim_tickets_handler(&g, &l, &prev, &mut t, &good, &good).is_none());
}

// ------------------------------------------------------------------ inputs on which the program stops

#[test]
fn start_stops_on_overflow() {
    let mut g = GlobalState { current_lottery_id: u64::MAX, ..global(key(1)) };
    let mut l = Lottery::default();
    assert!(try_start_lottery_handler(&mut g, &mut l, &key(1), [0; 32], 1, 1, 0).is_none());
    // a caller who is not the owner is refused before any arithmetic
    let r = try_start_lottery_handler(&mut g, &mut l, &key(2), [0; 32], 1, 1, 0);
    assert!(matches!(r, Some(Err(InstructionError::Lottery(LotteryError::NotOwner)))));
    let mut g = global(key(1));
    assert!(try_start_lottery_handler(&mut g, &mut l, &key(1), [0; 32], u64::MAX, 1, 1).is_none());
    assert_eq!(g.current_lottery_id, 1);
}

#[test]
fn close_stops_on_negative_clock() {
    let mut l = open_lottery(key(1));
    assert!(try_close_lottery_handler(&mut l, &key(1), 1, -5).is_none());
    let r = try_close_lottery_handler(&mut l, &key(1), 9, -5);
    assert!(matches!(r, Some(Err(InstructionError::Lottery(LotteryError::InvalidLotteryId)))));
    assert_eq!(l.status, 0);
}

#[test]
fn buy_stops_on_overflow() {
    let g = global(key(1));
    let mut l = open_lottery(key(1));
    let mut lt = LotteryTicket::default();
    let mut t = Ticket::default();
    assert!(try_buy_tickets_handler(&g, &mut l, &mut lt, &mut t, &key(3), &key(4), &key(9), 0, [0; 32], 1, 0, -1).is_none());
    assert!(try_buy_tickets_handler(&g, &mut l, &mut lt, &mut t, &key(3), &key(4), &key(9), 20, [0; 32], 1, 0, 10).is_none());
    lt.total_ticket = u8::MAX;
    assert!(try_buy_tickets_handler(&g, &mut l, &mut lt, &mut t, &key(3), &key(4), &key(9), 0, [0; 32], 1, 0, 10).is_none());
    let r = try_buy_tickets_handler(&g, &mut l, &mut lt, &mut t, &key(3), &key(4), &key(9), 0, [0; 32], 2, 0, 10);
    assert!(matches!(r, Some(Err(InstructionError::Lottery(LotteryError::InvalidLotteryId)))));
    lt.total_ticket = 0;
    let r = try_buy_tickets_handler(&g, &mut l, &mut lt, &mut t, &key(3), &key(4), &key(9), 2, [0; 32], 1, 0, 10);
    assert!(matches!(r, Some(Ok(out)) if out.transfer_amount == 500));
    assert_eq!(l.amount_collected_in_lottery_coin, 5);
}

#[test]
fn calculate_stops_on_zero_price() {
    let mut l = Lottery { amount_collected_in_lottery_coin: 15, owner: key(1), ..Lottery::default() };
    assert!(try_calculate_antc_for_lottery(&mut l, &key(1), 3, 0).is_none());
    let r = try_calculate_antc_for_lottery(&mut l, &key(2), 3, 0);
    assert!(matches!(r, Some(Err(InstructionError::Lottery(LotteryError::NotOwner)))));
    assert!(matches!(try_calculate_antc_for_lottery(&mut l, &key(1), 2, 3), Some(Ok(()))));
    assert_eq!(l.amount_antc_for_deposit, 10_000_000);
}

#[test]
fn draw_stops_on_overflow() {
    let g = GlobalState { rewards_breakdown: Reward { match3: u64::MAX, match4: 1, match5: 1, match6: 1 }, ..global(key(1)) };
    let prev = Lottery::default();
    let mut l = closed_deposited(key(1), 1);
    l.winner_match3 = 0;
    assert!(try_process_draw_final_number_and_make_lottery_claimable_handler(&mut l, &prev, &g, &key(1), 1).is_none());
    assert_eq!(l.status, 1);
    let g = global(key(1));
    let mut l = closed_deposited(key(1), 1);
    l.winner_match3 = 200;
    l.winner_match4 = 100;
    assert!(try_process_draw_final_number_and_make_lottery_claimable_handler(&mut l, &prev, &g, &key(1), 1).is_none());
    l.winner_match4 = 55;
    let r = try_process_draw_final_number_and_make_lottery_claimable_handler(&mut l, &prev, &g, &key(1), 1);
    assert!(matches!(r, Some(Ok(ref out)) if out.drawn.count_winning_tickets == 255 && out.burns == vec![120, 160]));
    assert_eq!(l.status, 2);
}
