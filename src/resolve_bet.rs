use vstd::prelude::*;

use crate::errors::DiceError;
use crate::payout::{calculate_payout, payout_of, MAX_ROLL, MIN_BET_LAMPORTS, MIN_ROLL};
use crate::randomness::{outcome_from_hash, outcome_of, roll_of, sha256, sha256_of, Outcome};
use crate::state::{bet_bytes, Bet};

verus! {

/// Address of the native Ed25519 signature-verification program
/// (`Ed25519SigVerify111111111111111111111111111`).
pub const ED25519_PROGRAM_ID: [u8; 32] = [
    3, 125, 70, 214, 124, 147, 251, 190, 18, 249, 66, 143, 131, 141, 64, 255,
    5, 112, 116, 73, 39, 244, 138, 100, 252, 202, 112, 68, 128, 0, 0, 0,
];

/// One signature record of an Ed25519 verification instruction.
#[derive(Clone, Debug)]
pub struct Ed25519Signature {
    /// Whether every offset of the record points into the instruction itself,
    /// so that its signer, message and signature can be read back.
    pub is_verifiable: bool,
    /// The signer's public key, when it could be read.
    pub public_key: Option<[u8; 32]>,
    /// The signed message, when it could be read.
    pub message: Option<Vec<u8>>,
    /// The signature, when it could be read.
    pub signature: Option<[u8; 64]>,
}

/// The instruction that the platform verified ahead of this one.
#[derive(Clone, Debug)]
pub struct Ed25519Instruction {
    /// The program that the instruction invokes.
    pub program_id: [u8; 32],
    /// How many accounts the instruction references.
    pub account_count: usize,
    /// Its signature records, or `None` when its payload does not parse.
    pub signatures: Option<Vec<Ed25519Signature>>,
}

/// Everything that resolving one bet reads and changes.
#[derive(Clone, Debug)]
pub struct ResolveBet {
    /// The house, which signs bets and funds the vault.
    pub house: [u8; 32],
    /// The player who owns the bet.
    pub player: [u8; 32],
    /// The vault's balance, in lamports.
    pub vault_lamports: u64,
    /// The pending bet, or `None` once it is resolved (or was never placed).
    pub bet: Option<Bet>,
    /// The instruction in front of this one, or `None` when there is none.
    pub instruction: Option<Ed25519Instruction>,
}

/// What verifying `sig` against the context gives, step by step.
pub open spec fn verification_of(ctx: ResolveBet, sig: Seq<u8>) -> Result<(), DiceError> {
    if ctx.bet is None {
        Err(DiceError::BetNotFound)
    } else if ctx.instruction is None || ctx.instruction->0.program_id@ != ED25519_PROGRAM_ID@ {
        Err(DiceError::WrongInstructionType)
    } else if ctx.instruction->0.account_count != 0 {
        Err(DiceError::UnexpectedAccounts)
    } else if ctx.instruction->0.signatures is None {
        Err(DiceError::MalformedHeader)
    } else if ctx.instruction->0.signatures->0@.len() != 1 {
        Err(DiceError::UnexpectedSignatureCount)
    } else {
        let record = ctx.instruction->0.signatures->0@[0];
        if !record.is_verifiable {
            Err(DiceError::MalformedHeader)
        } else if record.public_key is None {
            Err(DiceError::MissingPublicKey)
        } else if record.public_key->0@ != ctx.house@ {
            Err(DiceError::SignerMismatch)
        } else if record.message is None {
            Err(DiceError::MissingMessage)
        } else if record.message->0@ != bet_bytes(ctx.bet->0) {
            Err(DiceError::MessageMismatch)
        } else if sig.len() != 64 {
            Err(DiceError::InvalidSignatureLength)
        } else if record.signature is None || record.signature->0@ != sig {
            Err(DiceError::SignatureMismatch)
        } else {
            Ok(())
        }
    }
}

/// What resolving the bet with signature `sig` gives.
pub open spec fn resolution_of(ctx: ResolveBet, sig: Seq<u8>) -> Result<Outcome, DiceError> {
    if ctx.bet is None {
        Err(DiceError::BetNotFound)
    } else {
        let bet = ctx.bet->0;
        let payout = payout_of(bet.amount as int, bet.roll as int);
        if bet.amount < MIN_BET_LAMPORTS {
            Err(DiceError::BetTooSmall)
        } else if bet.roll < MIN_ROLL || bet.roll > MAX_ROLL {
            Err(DiceError::RollOutOfRange)
        } else if payout > u64::MAX {
            Err(DiceError::ArithmeticOverflow)
        } else if payout > ctx.vault_lamports {
            Err(DiceError::InsufficientVaultFunds)
        } else {
            Ok(outcome_of(bet.roll, payout as u64, sha256_of(sig)))
        }
    }
}

/// The context after a resolution with outcome `o`: the bet is retired and
/// the vault has paid out.
pub open spec fn resolved(ctx: ResolveBet, o: Outcome) -> ResolveBet {
    ResolveBet {
        house: ctx.house,
        player: ctx.player,
        vault_lamports: (ctx.vault_lamports - o.payout) as u64,
        bet: None,
        instruction: ctx.instruction,
    }
}

/// A valid bet (stake at least the minimum, threshold within range) always
/// resolves to a roll between 1 and 100 fixed by the signature's digest,
/// unless the payout cannot be represented or the vault cannot cover it.
pub proof fn lemma_valid_bet_resolves(ctx: ResolveBet, sig: Seq<u8>)
    requires
        ctx.bet is Some,
        ctx.bet->0.amount >= MIN_BET_LAMPORTS,
        MIN_ROLL <= ctx.bet->0.roll <= MAX_ROLL,
    ensures
        match resolution_of(ctx, sig) {
            Ok(o) => {
                &&& 1 <= o.roll_result <= 100
                &&& o.roll_result == roll_of(sha256_of(sig))
                &&& o.won == (o.roll_result <= ctx.bet->0.roll)
            },
            Err(e) => e == DiceError::ArithmeticOverflow || e == DiceError::InsufficientVaultFunds,
        },
{
}

/// Verification reads only the instruction, the house key, the bet and the
/// signature: repeated on the same inputs it fails with the same error.
pub proof fn lemma_verification_repeats(ctx1: ResolveBet, ctx2: ResolveBet, sig: Seq<u8>)
    requires
        ctx1.instruction == ctx2.instruction,
        ctx1.house == ctx2.house,
        ctx1.bet == ctx2.bet,
    ensures
        verification_of(ctx1, sig) == verification_of(ctx2, sig),
{
}

/// A bet resolves at most once: after a successful resolution, neither
/// verification nor resolution finds the bet again, whatever the signature.
pub proof fn lemma_resolution_exactly_once(ctx: ResolveBet, sig: Seq<u8>, later: Seq<u8>)
    requires
        resolution_of(ctx, sig) is Ok,
    ensures
        resolution_of(resolved(ctx, resolution_of(ctx, sig)->Ok_0), later) == Err::<
            Outcome,
            DiceError,
        >(DiceError::BetNotFound),
        verification_of(resolved(ctx, resolution_of(ctx, sig)->Ok_0), later) == Err::<
            (),
            DiceError,
        >(DiceError::BetNotFound),
{
}

fn bytes_equal(a: &[u8], b: &[u8]) -> (r: bool)
    ensures
        r == (a@ == b@),
{
    if a.len() != b.len() {
        return false;
    }
    let mut i: usize = 0;
    while i < a.len()
        invariant
            a@.len() == b@.len(),
            0 <= i <= a@.len(),
            forall|j: int| 0 <= j < i ==> a@[j] == b@[j],
        decreases a.len() - i,
    {
        if a[i] != b[i] {
            return false;
        }
        i = i + 1;
    }
    assert(a@ =~= b@);
    true
}

impl ResolveBet {
    /// Checks that the instruction in front of this one verified the house's
    /// signature `sig` over exactly this bet's bytes.
    pub fn verify_ed25519_signature(&self, sig: &[u8]) -> (r: Result<(), DiceError>)
        ensures
            r == verification_of(*self, sig@),
    {
        let bet = match &self.bet {
            Some(b) => b,
            None => return Err(DiceError::BetNotFound),
        };
        let ix = match &self.instruction {
            Some(ix) => ix,
            None => return Err(DiceError::WrongInstructionType),
        };
        if !bytes_equal(&ix.program_id, &ED25519_PROGRAM_ID) {
            return Err(DiceError::WrongInstructionType);
        }
        if ix.account_count != 0 {
            return Err(DiceError::UnexpectedAccounts);
        }
        let signatures = match &ix.signatures {
            Some(s) => s,
            None => return Err(DiceError::MalformedHeader),
        };
        if signatures.len() != 1 {
            return Err(DiceError::UnexpectedSignatureCount);
        }
        let record = &signatures[0];
        if !record.is_verifiable {
            return Err(DiceError::MalformedHeader);
        }
        let public_key = match &record.public_key {
            Some(k) => k,
            None => return Err(DiceError::MissingPublicKey),
        };
        if !bytes_equal(public_key, &self.house) {
            return Err(DiceError::SignerMismatch);
        }
        let message = match &record.message {
            Some(m) => m,
            None => return Err(DiceError::MissingMessage),
        };
        let bet_bytes = bet.to_slice();
        if !bytes_equal(message.as_slice(), bet_bytes.as_slice()) {
            return Err(DiceError::MessageMismatch);
        }
        if sig.len() != 64 {
            return Err(DiceError::InvalidSignatureLength);
        }
        let on_chain_sig = match &record.signature {
            Some(s) => s,
            None => return Err(DiceError::SignatureMismatch),
        };
        if !bytes_equal(on_chain_sig, sig) {
            return Err(DiceError::SignatureMismatch);
        }
        Ok(())
    }

    /// Settles the bet on the house's signature `sig`: draws the roll from
    /// its digest, pays the player from the vault on a win, and retires the
    /// bet. On failure nothing changes.
    pub fn resolve_bet(&mut self, sig: &[u8]) -> (r: Result<Outcome, DiceError>)
        ensures
            r == resolution_of(*old(self), sig@),
            r is Ok ==> *final(self) == resolved(*old(self), r->Ok_0),
            r is Ok ==> r->Ok_0.payout <= old(self).vault_lamports,
            r is Err ==> *final(self) == *old(self),
    {
        let bet = match self.bet {
            Some(b) => b,
            None => return Err(DiceError::BetNotFound),
        };
        if bet.amount < MIN_BET_LAMPORTS {
            return Err(DiceError::BetTooSmall);
        }
        if bet.roll < MIN_ROLL || bet.roll > MAX_ROLL {
            return Err(DiceError::RollOutOfRange);
        }
        let payout = match calculate_payout(bet.amount, bet.roll) {
            Ok(p) => p,
            Err(e) => return Err(e),
        };
        if payout > self.vault_lamports {
            return Err(DiceError::InsufficientVaultFunds);
        }
        let hash = sha256(sig);
        let outcome = outcome_from_hash(bet.roll, payout, &hash);
        self.vault_lamports = self.vault_lamports - outcome.payout;
        self.bet = None;
        Ok(outcome)
    }
}

} // verus!
