//! The instructions of the lottery program, one module each as the program groups them.
pub mod initialize;
pub mod start_lottery;
pub mod close_lottery;
pub mod buy_tickets;
pub mod process_draw_final_number_and_make_lottery_claimable;
