//! Settlement of a provably fair dice bet: binding the house's Ed25519
//! signature to the exact bytes of a bet, deriving the roll from that
//! signature, and computing the payout under a fixed house edge.

mod errors;
mod payout;
mod randomness;
mod resolve_bet;
mod state;

pub use errors::DiceError;
pub use state::{bet_bytes, le_bytes, Bet};
pub use payout::{
    calculate_payout, lemma_payout_strictly_decreasing, payout_of, HOUSE_EDGE, MAX_ROLL,
    MIN_BET_LAMPORTS, MIN_ROLL,
};
pub use randomness::{outcome_from_hash, outcome_of, roll_from_hash, roll_of, sha256_of, Outcome};
pub use resolve_bet::{
    lemma_resolution_exactly_once, lemma_valid_bet_resolves, lemma_verification_repeats,
    resolution_of, resolved, verification_of, Ed25519Instruction, Ed25519Signature, ResolveBet,
    ED25519_PROGRAM_ID,
};
