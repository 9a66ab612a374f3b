use vstd::prelude::*;

verus! {

/// A pending wager, as the house signs it.
#[derive(Clone, Copy, Debug, PartialEq, Eq)]
pub struct Bet {
    /// The player who placed the bet.
    pub player: [u8; 32],
    /// The player's identifier for this bet; it addresses the record.
    pub seed: u64,
    /// The stake, in lamports.
    pub amount: u64,
    /// The roll threshold: the bet wins when the roll does not exceed it.
    pub roll: u8,
    /// Derivation nonce of the record's address.
    pub bump: u8,
}

/// The `n` low bytes of `x`, least significant first.
pub open spec fn le_bytes(x: nat, n: nat) -> Seq<u8>
    decreases n,
{
    if n == 0 {
        Seq::empty()
    } else {
        seq![(x % 256) as u8] + le_bytes(x / 256, (n - 1) as nat)
    }
}

/// The canonical serialization of a bet, which the house signs: player key,
/// then seed and amount as little-endian 64-bit integers, then roll and bump.
pub open spec fn bet_bytes(b: Bet) -> Seq<u8> {
    b.player@ + le_bytes(b.seed as nat, 8) + le_bytes(b.amount as nat, 8) + seq![b.roll, b.bump]
}

fn push_le_u64(out: &mut Vec<u8>, x: u64)
    ensures
        final(out)@ == old(out)@ + le_bytes(x as nat, 8),
{
    let ghost start = out@;
    let mut v: u64 = x;
    let mut i: usize = 0;
    while i < 8
        invariant
            0 <= i <= 8,
            out@ + le_bytes(v as nat, (8 - i) as nat) == start + le_bytes(x as nat, 8),
        decreases 8 - i,
    {
        let ghost before = out@;
        out.push((v % 256) as u8);
        proof {
            let rest = le_bytes((v / 256) as nat, (8 - i - 1) as nat);
            assert(le_bytes(v as nat, (8 - i) as nat) == seq![(v % 256) as u8] + rest);
            assert(out@ + rest == before + (seq![(v % 256) as u8] + rest));
        }
        v = v / 256;
        i = i + 1;
    }
    assert(le_bytes(v as nat, 0) =~= Seq::<u8>::empty());
    assert(out@ + Seq::<u8>::empty() =~= out@);
}

impl Bet {
    /// The bytes the house signs for this bet.
    pub fn to_slice(&self) -> (r: Vec<u8>)
        ensures
            r@ == bet_bytes(*self),
    {
        let mut out: Vec<u8> = Vec::new();
        let mut i: usize = 0;
        while i < 32
            invariant
                0 <= i <= 32,
                out@ == self.player@.subrange(0, i as int),
            decreases 32 - i,
        {
            out.push(self.player[i]);
            i = i + 1;
            assert(out@ =~= self.player@.subrange(0, i as int));
        }
        assert(out@ =~= self.player@);
        push_le_u64(&mut out, self.seed);
        push_le_u64(&mut out, self.amount);
        let ghost mid = out@;
        out.push(self.roll);
        out.push(self.bump);
        assert(out@ =~= mid + seq![self.roll, self.bump]);
        out
    }
}

} // verus!
