//! Global properties of the wallet record, proved over the ghost
//! transitions that the operations' contracts are stated with.

use vstd::prelude::*;

use crate::wallet::spec_receive_tokens;
use crate::wallet::spec_send_tokens;
use crate::wallet::spec_set_balance;
use crate::wallet::spec_set_owner;
use crate::wallet::WalletError;
use crate::wallet::WalletView;

verus! {

/// The balance of every wallet state is nonnegative: it is carried as an
/// unsigned integer, and every transition keeps it in that range.
pub proof fn lemma_balance_nonnegative(v: WalletView)
    ensures
        v.balance >= 0,
{
}

/// A caller other than the stored owner is turned away by every gated
/// operation: the result is `Unauthorized` and the record — balance and
/// owner alike — is exactly what it was.
pub proof fn lemma_unauthorized_mutates_nothing(
    v: WalletView,
    caller: Seq<char>,
    new_balance: u64,
    amount: u64,
    new_owner: Seq<char>,
)
    requires
        caller != v.owner,
    ensures
        spec_set_balance(v, caller, new_balance) == (
            v,
            Err::<(), WalletError>(WalletError::Unauthorized),
        ),
        spec_send_tokens(v, caller, amount) == (
            v,
            Err::<(), WalletError>(WalletError::Unauthorized),
        ),
        spec_receive_tokens(v, caller, amount) == (
            v,
            Err::<(), WalletError>(WalletError::Unauthorized),
        ),
        spec_set_owner(v, caller, new_owner) == (
            v,
            Err::<(), WalletError>(WalletError::Unauthorized),
        ),
{
}

/// Setting the balance to `x` as the owner succeeds, and a balance read of
/// the resulting state returns exactly `x`.
pub proof fn lemma_set_balance_round_trip(v: WalletView, x: u64)
    ensures
        spec_set_balance(v, v.owner, x).1 is Ok,
        spec_set_balance(v, v.owner, x).0.balance == x,
{
}

/// Reads are idempotent: a read is a function of the record alone and
/// leaves it unchanged, so two successive reads with no intervening
/// mutation return identical values.
pub proof fn lemma_reads_idempotent(v1: WalletView, v2: WalletView)
    requires
        v1 == v2,
    ensures
        v1.balance == v2.balance,
        v1.owner == v2.owner,
{
}

/// Debit safety: a debit beyond the balance fails with
/// `InsufficientBalance` and mutates nothing; one within the balance
/// succeeds and decreases the balance by exactly the amount, leaving the
/// owner as it was.
pub proof fn lemma_debit_safety(v: WalletView, amount: u64)
    ensures
        amount > v.balance ==> spec_send_tokens(v, v.owner, amount) == (
            v,
            Err::<(), WalletError>(WalletError::InsufficientBalance),
        ),
        amount <= v.balance ==> spec_send_tokens(v, v.owner, amount).1 is Ok,
        amount <= v.balance ==> spec_send_tokens(v, v.owner, amount).0.balance == v.balance
            - amount,
        amount <= v.balance ==> spec_send_tokens(v, v.owner, amount).0.owner == v.owner,
{
}

/// Credit: a credit by the owner whose sum stays representable succeeds
/// and increases the balance by exactly the amount, leaving the owner as
/// it was.
pub proof fn lemma_credit_exact(v: WalletView, amount: u64)
    requires
        v.balance + amount <= u64::MAX,
    ensures
        spec_receive_tokens(v, v.owner, amount).1 is Ok,
        spec_receive_tokens(v, v.owner, amount).0.balance == v.balance + amount,
        spec_receive_tokens(v, v.owner, amount).0.owner == v.owner,
{
}

} // verus!
