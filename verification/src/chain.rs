//! The account chain and the balance-transfer primitive of the host ledger.
//!
//! The engine works over the caller-supplied list of account handles,
//! modelled as identities with balances.  The host ledger keeps the total
//! of all balances within `u64`, so a transfer between two distinct
//! accounts of a chain that respects that bound can never overflow the
//! receiver.  A transfer out of a program-derived account is authorized by
//! a derivation proof: the seed byte strings that re-derive the sender's
//! identity.

use vstd::prelude::*;

use crate::pda::program_address_of;
use crate::pda::seqs_of;
use crate::pda::verify_derivation_proof;

verus! {

/// One account handle of the chain: its 32-byte identity and its balance.
#[derive(Debug, Clone, Copy)]
pub struct ChainAccount {
    pub identity: [u8; 32],
    pub balance: u64,
}

/// How a transfer is authorized.
#[derive(Debug)]
pub enum TransferAuth {
    /// The sender signed the outer transaction; the host ledger verified
    /// that signature before the program ran.
    CallerSigned,
    /// The sender is a program-derived account; the seed byte strings must
    /// re-derive its identity.
    Derived(Vec<Vec<u8>>),
}

/// Why the ledger refused a transfer.
#[derive(Debug, Clone, Copy, PartialEq, Eq, Structural)]
pub enum TransferError {
    /// The sender's balance is below the transferred amount.
    InsufficientBalance,
    /// The derivation proof does not re-derive the sender's identity.
    Unauthorized,
}

/// The total of all balances of the chain.
pub open spec fn sum_balances(s: Seq<ChainAccount>) -> int
    decreases s.len(),
{
    if s.len() == 0 {
        0
    } else {
        s[0].balance + sum_balances(s.drop_first())
    }
}

/// Whether the ledger accepts the authorization for a sender identity.
pub open spec fn auth_ok(auth: TransferAuth, sender_identity: Seq<u8>, program_id: Seq<u8>) -> bool {
    match auth {
        TransferAuth::CallerSigned => true,
        TransferAuth::Derived(seeds) => program_address_of(seqs_of(seeds@), program_id) == Some(
            sender_identity,
        ),
    }
}

/// The total of balances is never negative.
pub proof fn lemma_sum_nonneg(s: Seq<ChainAccount>)
    ensures
        sum_balances(s) >= 0,
    decreases s.len(),
{
    if s.len() > 0 {
        lemma_sum_nonneg(s.drop_first());
    }
}

/// Any one balance is bounded by the total.
pub proof fn lemma_sum_single(s: Seq<ChainAccount>, i: int)
    requires
        0 <= i < s.len(),
    ensures
        s[i].balance <= sum_balances(s),
    decreases s.len(),
{
    if i == 0 {
        lemma_sum_nonneg(s.drop_first());
    } else {
        lemma_sum_single(s.drop_first(), i - 1);
    }
}

/// Any two balances at distinct positions are together bounded by the total.
pub proof fn lemma_sum_pair(s: Seq<ChainAccount>, i: int, j: int)
    requires
        0 <= i < s.len(),
        0 <= j < s.len(),
        i != j,
    ensures
        s[i].balance + s[j].balance <= sum_balances(s),
    decreases s.len(),
{
    if i == 0 {
        lemma_sum_single(s.drop_first(), j - 1);
    } else if j == 0 {
        lemma_sum_single(s.drop_first(), i - 1);
    } else {
        lemma_sum_pair(s.drop_first(), i - 1, j - 1);
    }
}

/// Replacing one account changes the total by the difference of balances.
pub proof fn lemma_sum_update(s: Seq<ChainAccount>, i: int, a: ChainAccount)
    requires
        0 <= i < s.len(),
    ensures
        sum_balances(s.update(i, a)) == sum_balances(s) - s[i].balance + a.balance,
    decreases s.len(),
{
    if i == 0 {
        assert(s.update(0, a).drop_first() =~= s.drop_first());
    } else {
        assert(s.update(i, a).drop_first() =~= s.drop_first().update(i - 1, a));
        lemma_sum_update(s.drop_first(), i - 1, a);
    }
}

/// Moves `amount` between two distinct accounts of the chain: the host
/// ledger's balance-transfer primitive.  It succeeds exactly when the
/// sender holds the amount and the authorization re-derives the sender's
/// identity (or the caller signed); on failure the chain is untouched.
pub fn transfer(
    accounts: &mut Vec<ChainAccount>,
    program_id: &[u8; 32],
    from: usize,
    to: usize,
    amount: u64,
    auth: &TransferAuth,
) -> (r: Result<(), TransferError>)
    requires
        from < old(accounts)@.len(),
        to < old(accounts)@.len(),
        from != to,
        sum_balances(old(accounts)@) <= u64::MAX,
    ensures
        r is Ok <==> old(accounts)@[from as int].balance >= amount && auth_ok(
            *auth,
            old(accounts)@[from as int].identity@,
            program_id@,
        ),
        r == Err::<(), TransferError>(TransferError::InsufficientBalance) <==> old(
            accounts,
        )@[from as int].balance < amount,
        r is Err ==> final(accounts)@ == old(accounts)@,
        r is Ok ==> final(accounts)@.len() == old(accounts)@.len(),
        r is Ok ==> forall|k: int|
            0 <= k < old(accounts)@.len() ==> final(accounts)@[k].identity@ == old(
                accounts,
            )@[k].identity@,
        r is Ok ==> final(accounts)@[from as int].balance == old(accounts)@[from as int].balance
            - amount,
        r is Ok ==> final(accounts)@[to as int].balance == old(accounts)@[to as int].balance
            + amount,
        r is Ok ==> forall|k: int|
            0 <= k < old(accounts)@.len() && k != from && k != to ==> final(accounts)@[k].balance
                == old(accounts)@[k].balance,
        r is Ok ==> sum_balances(final(accounts)@) == sum_balances(old(accounts)@),
{
    if accounts[from].balance < amount {
        return Err(TransferError::InsufficientBalance);
    }
    let authorized = match auth {
        TransferAuth::CallerSigned => true,
        TransferAuth::Derived(seeds) => verify_derivation_proof(
            seeds,
            program_id,
            &accounts[from].identity,
        ),
    };
    if !authorized {
        return Err(TransferError::Unauthorized);
    }
    proof {
        lemma_sum_pair(accounts@, from as int, to as int);
    }
    let debited = ChainAccount {
        identity: accounts[from].identity,
        balance: accounts[from].balance - amount,
    };
    proof {
        lemma_sum_update(accounts@, from as int, debited);
    }
    accounts[from] = debited;
    let credited = ChainAccount {
        identity: accounts[to].identity,
        balance: accounts[to].balance + amount,
    };
    proof {
        lemma_sum_update(accounts@, to as int, credited);
    }
    accounts[to] = credited;
    Ok(())
}

} // verus!
