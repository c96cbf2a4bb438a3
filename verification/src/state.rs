//! The lottery's accounts.
use vstd::prelude::*;
use anchor_lang::prelude::Pubkey;

verus! {

/// Status of a lottery whose tickets are on sale.
pub const LOTTERY_OPEN: u8 = 0;
/// Status of a lottery whose sale has ended.
pub const LOTTERY_CLOSED: u8 = 1;
/// Status of a lottery whose prizes can be claimed.
pub const LOTTERY_CLAIMABLE: u8 = 2;

/// The prize tiers: tickets whose draw matches 3, 4, 5 or 6 numbers.
pub open spec fn is_tier(tier: int) -> bool {
    3 <= tier <= 6
}

/// Rewards distribution: the percentage of the deposited ANTC that goes to each tier.
#[derive(Clone, Copy, Debug, Default, PartialEq, Eq, Structural)]
pub struct Reward {
    pub match3: u64,
    pub match4: u64,
    pub match5: u64,
    pub match6: u64,
}

impl Reward {
    /// The percentage of a tier.
    pub open spec fn share(self, tier: int) -> u64 {
        if tier == 3 {
            self.match3
        } else if tier == 4 {
            self.match4
        } else if tier == 5 {
            self.match5
        } else {
            self.match6
        }
    }

    /// The percentage of a tier, in compiled code.
    pub fn share_of(&self, tier: u8) -> (r: u64)
        requires
            is_tier(tier as int),
        ensures
            r == self.share(tier as int),
    {
        if tier == 3 {
            self.match3
        } else if tier == 4 {
            self.match4
        } else if tier == 5 {
            self.match5
        } else {
            self.match6
        }
    }
}

/// The program's one global account.
#[derive(Clone, Copy, Debug, Default)]
pub struct GlobalState {
    pub current_lottery_id: u64,
    /// Rewards distribution.
    pub rewards_breakdown: Reward,
    /// The SPL token for the lottery.
    pub token_for_lottery: Pubkey,
    /// Lottery token account for the reward pool.
    pub lottery_token_account: Pubkey,
    /// ANTC.
    pub token_for_antc: Pubkey,
    /// ANTC account of the reward pool.
    pub antc_token_account: Pubkey,
    /// The authority who can start a lottery.
    pub owner: Pubkey,
    /// The bump of this account's address.
    pub bump: u8,
}

/// One lottery.
#[derive(Clone, Copy, Debug, Default)]
pub struct Lottery {
    /// Unique id of the lottery.
    pub id: u64,
    /// Timestamp when the sale ends.
    pub end_time: u64,
    /// `LOTTERY_OPEN`, `LOTTERY_CLOSED` or `LOTTERY_CLAIMABLE`.
    pub status: u8,
    /// The authority who can close the lottery.
    pub owner: Pubkey,
    pub current_ticket_id: u64,
    /// Amount of lottery coin collected from ticket sales.
    pub amount_collected_in_lottery_coin: u64,
    pub lottery_coin_amount_per_ticket: u64,
    /// Whether the ANTC of the prizes has been deposited.
    pub deposited: bool,
    pub amount_antc_for_deposit: u64,
    pub guess: u64,
    /// Seed of the lottery's own randomness request.
    pub force: [u8; 32],
    pub winner_match3: u8,
    pub winner_match4: u8,
    pub winner_match5: u8,
    pub winner_match6: u8,
    pub remain_match3: u64,
    pub remain_match4: u64,
    pub remain_match5: u64,
    pub remain_match6: u64,
}

impl Lottery {
    /// The number of confirmed winners of a tier.
    pub open spec fn winners(self, tier: int) -> u8 {
        if tier == 3 {
            self.winner_match3
        } else if tier == 4 {
            self.winner_match4
        } else if tier == 5 {
            self.winner_match5
        } else {
            self.winner_match6
        }
    }

    /// What a tier leaves over for the next lottery.
    pub open spec fn remain(self, tier: int) -> u64 {
        if tier == 3 {
            self.remain_match3
        } else if tier == 4 {
            self.remain_match4
        } else if tier == 5 {
            self.remain_match5
        } else {
            self.remain_match6
        }
    }

    /// The number of confirmed winners of a tier, in compiled code.
    pub fn winners_of(&self, tier: u8) -> (r: u8)
        requires
            is_tier(tier as int),
        ensures
            r == self.winners(tier as int),
    {
        if tier == 3 {
            self.winner_match3
        } else if tier == 4 {
            self.winner_match4
        } else if tier == 5 {
            self.winner_match5
        } else {
            self.winner_match6
        }
    }

    /// What a tier leaves over, in compiled code.
    pub fn remain_of(&self, tier: u8) -> (r: u64)
        requires
            is_tier(tier as int),
        ensures
            r == self.remain(tier as int),
    {
        if tier == 3 {
            self.remain_match3
        } else if tier == 4 {
            self.remain_match4
        } else if tier == 5 {
            self.remain_match5
        } else {
            self.remain_match6
        }
    }
}

/// A buyer's tickets in one lottery.
#[derive(Clone, Copy, Debug, Default)]
pub struct LotteryTicket {
    /// The lottery.
    pub lottery_id: u64,
    /// Number of tickets that the buyer bought in the lottery.
    pub total_ticket: u8,
    /// The buyer.
    pub owner: Pubkey,
}

/// One ticket.
#[derive(Clone, Copy, Debug, Default)]
pub struct Ticket {
    /// The lottery.
    pub lottery_id: u64,
    /// Number of the ticket.
    pub ticket_order: u64,
    /// The ticket's randomness account.
    pub randomness: Pubkey,
    /// Seed of the ticket's randomness request.
    pub force: [u8; 32],
    /// The owner of the ticket.
    pub owner: Pubkey,
    pub confirmed: bool,
}

} // verus!
