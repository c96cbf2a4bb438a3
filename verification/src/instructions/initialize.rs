//! Setting up the global account.
use vstd::prelude::*;
use anchor_lang::prelude::Pubkey;
use crate::events::Initialized;
use crate::state::{GlobalState, Reward};

verus! {

/// The rewards distribution that a list of percentages gives: tiers 3 to 6 in order.
pub open spec fn reward_from(breakdown: Seq<u64>) -> Reward {
    Reward { match3: breakdown[0], match4: breakdown[1], match5: breakdown[2], match6: breakdown[3] }
}

/// Sets up the global account: no lottery yet, the rewards distribution, its owner and bump.
/// The distribution is read from the first four entries of `rewards_breakdown`.
pub fn initialize(
    global_state: &mut GlobalState,
    owner: &Pubkey,
    rewards_breakdown: Vec<u64>,
    bump: u8,
) -> (r: Initialized)
    requires
        rewards_breakdown.len() >= 4,
    ensures
        *final(global_state) == (GlobalState {
            current_lottery_id: 0,
            rewards_breakdown: reward_from(rewards_breakdown@),
            owner: *owner,
            bump,
            ..*old(global_state)
        }),
        r.current_lottery_id == 0,
        r.rewards_breakdown@ == rewards_breakdown@,
        r.owner == *owner,
{
    let reward = Reward {
        match3: rewards_breakdown[0],
        match4: rewards_breakdown[1],
        match5: rewards_breakdown[2],
        match6: rewards_breakdown[3],
    };
    global_state.current_lottery_id = 0;
    global_state.rewards_breakdown = reward;
    global_state.owner = *owner;
    global_state.bump = bump;
    Initialized { current_lottery_id: 0, rewards_breakdown, owner: *owner }
}

} // verus!
