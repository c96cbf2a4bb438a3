//! The events that the lottery's instructions report.
use vstd::prelude::*;
use anchor_lang::prelude::Pubkey;

verus! {

/// The global account was set up.
#[derive(Debug, PartialEq)]
pub struct Initialized {
    pub current_lottery_id: u64,
    pub rewards_breakdown: Vec<u64>,
    pub owner: Pubkey,
}

#[derive(Clone, Copy, Debug, PartialEq)]
pub struct AdminTokenRecovery {
    pub token: Pubkey,
    pub amount: u64,
}

#[derive(Clone, Copy, Debug, PartialEq)]
pub struct LotteryOpen {
    pub lottery_id: u64,
    pub start_time: u64,
    pub end_time: u64,
    pub first_ticket_id: u64,
    pub injection_amount: u64,
}

/// A lottery's sale was closed.
#[derive(Clone, Copy, Debug, PartialEq)]
pub struct LotteryClose {
    pub lottery_id: u64,
    pub first_ticket_id_next_lottery: u64,
}

#[derive(Clone, Copy, Debug, PartialEq)]
pub struct LotteryInjection {
    pub lottery_id: u64,
    pub injected_amount: u64,
}

/// A lottery was drawn and made claimable.
#[derive(Clone, Copy, Debug, PartialEq)]
pub struct LotteryNumberDrawn {
    pub lottery_id: u64,
    pub final_number: u64,
    pub count_winning_tickets: u64,
}

#[derive(Clone, Copy, Debug, PartialEq)]
pub struct NewOperatorAndTreasuryAndInjectorAddresses {
    pub operator: Pubkey,
    pub injector: Pubkey,
}

#[derive(Clone, Copy, Debug, PartialEq)]
pub struct NewRandomGenerator {
    pub random_generator: Pubkey,
}

/// A ticket was bought.
#[derive(Clone, Copy, Debug, PartialEq)]
pub struct TicketsPurchase {
    pub buyer: Pubkey,
    pub lottery_id: u64,
    pub number_tickets: u64,
}

#[derive(Clone, Copy, Debug, PartialEq)]
pub struct TicketsClaim {
    pub claimer: Pubkey,
    pub amount: u64,
    pub lottery_id: u64,
    pub number_tickets: u64,
}

} // verus!
