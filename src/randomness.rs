use vstd::prelude::*;

verus! {

/// The SHA-256 digest of a byte string.
pub uninterp spec fn sha256_of(data: Seq<u8>) -> Seq<u8>;

/// Relies on `solana_program::hash::hash`: the SHA-256 digest of `data`.
#[verifier::external_body]
pub(crate) fn sha256(data: &[u8]) -> (r: [u8; 32])
    ensures
        r@ == sha256_of(data@),
{
    solana_program::hash::hash(data).to_bytes()
}

/// The roll drawn from a digest: its first two bytes read as a little-endian
/// 16-bit integer, reduced modulo 100, plus one.
pub open spec fn roll_of(hash: Seq<u8>) -> int {
    (hash[0] as int + 256 * hash[1] as int) % 100 + 1
}

/// The result of settling a bet once its roll is known.
#[derive(Clone, Copy, Debug, PartialEq, Eq, Structural)]
pub struct Outcome {
    /// The roll, between 1 and 100.
    pub roll_result: u8,
    /// Whether the roll did not exceed the bet's threshold.
    pub won: bool,
    /// What the vault pays the player: the full payout on a win, else zero.
    pub payout: u64,
}

/// The outcome of a bet with threshold `roll` whose win would pay `payout`.
pub open spec fn outcome_of(roll: u8, payout: u64, hash: Seq<u8>) -> Outcome {
    let won = roll_of(hash) <= roll;
    Outcome { roll_result: roll_of(hash) as u8, won, payout: if won { payout } else { 0 } }
}

/// Draws the roll from the first two bytes of a 32-byte digest.
pub fn roll_from_hash(hash: &[u8; 32]) -> (r: u8)
    ensures
        r == roll_of(hash@),
        1 <= r <= 100,
{
    let low: u16 = hash[0] as u16;
    let high: u16 = hash[1] as u16;
    let value: u16 = low + high * 256;
    (value % 100 + 1) as u8
}

/// Settles a bet with threshold `roll`, whose win pays `payout`, on the
/// digest of the house's signature.
pub fn outcome_from_hash(roll: u8, payout: u64, hash: &[u8; 32]) -> (r: Outcome)
    ensures
        r == outcome_of(roll, payout, hash@),
        1 <= r.roll_result <= 100,
{
    let roll_result = roll_from_hash(hash);
    let won = roll_result <= roll;
    Outcome { roll_result, won, payout: if won { payout } else { 0 } }
}

} // verus!
