//! The wallet record and its operations.
//!
//! A ghost transition function accompanies each operation: the operation's
//! contract says that it implements its transition on the record's view.
//! `laws` proves the record's global properties over these transitions.

use vstd::prelude::*;

verus! {

/// The mathematical value of a wallet record: its balance in the smallest
/// token denomination, and the identity of its sole owner.
pub struct WalletView {
    pub balance: u64,
    pub owner: Seq<char>,
}

/// Every way an operation can fail. A failed operation leaves the record
/// exactly as it was.
#[derive(Clone, Copy, Debug, PartialEq, Eq, Structural)]
pub enum WalletError {
    /// The caller is not the stored owner.
    Unauthorized,
    /// A debit larger than the current balance was requested.
    InsufficientBalance,
    /// A credit would exceed the representable balance range.
    Overflow,
}

impl WalletError {
    /// The stable human-readable message for this error.
    pub fn message(&self) -> (s: &'static str)
        ensures
            (match *self {
                WalletError::Unauthorized => s@ == "Unauthorized"@,
                WalletError::InsufficientBalance => s@ == "Insufficient balance"@,
                WalletError::Overflow => s@ == "Balance overflow"@,
            }),
    {
        match *self {
            WalletError::Unauthorized => "Unauthorized",
            WalletError::InsufficientBalance => "Insufficient balance",
            WalletError::Overflow => "Balance overflow",
        }
    }
}

/// The single in-memory record: an unsigned balance and the owner identity.
/// All access goes through the operations below.
pub struct Wallet {
    balance: u64,
    owner: String,
}

impl View for Wallet {
    type V = WalletView;

    closed spec fn view(&self) -> WalletView {
        WalletView { balance: self.balance, owner: self.owner@ }
    }
}

/// Transition of `set_balance`: a direct override of the balance, permitted
/// to the owner alone.
pub open spec fn spec_set_balance(v: WalletView, caller: Seq<char>, new_balance: u64) -> (
    WalletView,
    Result<(), WalletError>,
) {
    if caller != v.owner {
        (v, Err(WalletError::Unauthorized))
    } else {
        (WalletView { balance: new_balance, ..v }, Ok(()))
    }
}

/// Transition of `send_tokens`: a debit, permitted to the owner alone and
/// only up to the current balance.
pub open spec fn spec_send_tokens(v: WalletView, caller: Seq<char>, amount: u64) -> (
    WalletView,
    Result<(), WalletError>,
) {
    if caller != v.owner {
        (v, Err(WalletError::Unauthorized))
    } else if amount > v.balance {
        (v, Err(WalletError::InsufficientBalance))
    } else {
        (WalletView { balance: (v.balance - amount) as u64, ..v }, Ok(()))
    }
}

/// Transition of `receive_tokens`: a credit, permitted to the owner alone
/// and refused rather than wrapped when it would leave the representable
/// range.
pub open spec fn spec_receive_tokens(v: WalletView, caller: Seq<char>, amount: u64) -> (
    WalletView,
    Result<(), WalletError>,
) {
    if caller != v.owner {
        (v, Err(WalletError::Unauthorized))
    } else if v.balance + amount > u64::MAX {
        (v, Err(WalletError::Overflow))
    } else {
        (WalletView { balance: (v.balance + amount) as u64, ..v }, Ok(()))
    }
}

/// Transition of `set_owner`: ownership transfer, permitted to the owner
/// alone, like every other mutation of the record.
pub open spec fn spec_set_owner(v: WalletView, caller: Seq<char>, new_owner: Seq<char>) -> (
    WalletView,
    Result<(), WalletError>,
) {
    if caller != v.owner {
        (v, Err(WalletError::Unauthorized))
    } else {
        (WalletView { owner: new_owner, ..v }, Ok(()))
    }
}

impl Wallet {
    /// Create the record at process start: zero balance, owned by the
    /// identity that triggered initialization.
    pub fn new(owner: String) -> (w: Wallet)
        ensures
            w@ == (WalletView { balance: 0, owner: owner@ }),
    {
        Wallet { balance: 0, owner }
    }

    /// Current balance. Reads are unrestricted and leave the record untouched.
    pub fn get_balance(&self) -> (b: u64)
        ensures
            b == self@.balance,
    {
        self.balance
    }

    /// Current owner identity. Reads are unrestricted and leave the record
    /// untouched.
    pub fn get_owner(&self) -> (o: String)
        ensures
            o@ == self@.owner,
    {
        self.owner.clone()
    }

    /// Override the balance. Fails with `Unauthorized`, mutating nothing,
    /// unless the caller is the stored owner.
    pub fn set_balance(&mut self, caller: &String, new_balance: u64) -> (r: Result<(), WalletError>)
        ensures
            final(self)@ == spec_set_balance(old(self)@, caller@, new_balance).0,
            r == spec_set_balance(old(self)@, caller@, new_balance).1,
    {
        if *caller != self.owner {
            Err(WalletError::Unauthorized)
        } else {
            self.balance = new_balance;
            Ok(())
        }
    }

    /// Debit `amount` from the balance. Fails with `Unauthorized` unless
    /// the caller is the stored owner, and with `InsufficientBalance` when
    /// the debit exceeds the balance; a failed call mutates nothing. On
    /// success the intended recipient, if any, is handed back unchanged so
    /// that the host can forward the transfer out of band; the record keeps
    /// no per-recipient history.
    pub fn send_tokens(&mut self, caller: &String, amount: u64, to: Option<String>) -> (r: Result<
        Option<String>,
        WalletError,
    >)
        ensures
            final(self)@ == spec_send_tokens(old(self)@, caller@, amount).0,
            r is Ok <==> spec_send_tokens(old(self)@, caller@, amount).1 is Ok,
            r is Ok ==> r->Ok_0 == to,
            r is Err ==> Err::<(), WalletError>(r->Err_0) == spec_send_tokens(
                old(self)@,
                caller@,
                amount,
            ).1,
    {
        if *caller != self.owner {
            Err(WalletError::Unauthorized)
        } else if amount > self.balance {
            Err(WalletError::InsufficientBalance)
        } else {
            self.balance = self.balance - amount;
            Ok(to)
        }
    }

    /// Credit `amount` to the balance. Fails with `Unauthorized` unless the
    /// caller is the stored owner, and with `Overflow` instead of wrapping
    /// when the sum would not be representable; a failed call mutates
    /// nothing.
    pub fn receive_tokens(&mut self, caller: &String, amount: u64) -> (r: Result<
        (),
        WalletError,
    >)
        ensures
            final(self)@ == spec_receive_tokens(old(self)@, caller@, amount).0,
            r == spec_receive_tokens(old(self)@, caller@, amount).1,
    {
        if *caller != self.owner {
            Err(WalletError::Unauthorized)
        } else {
            match self.balance.checked_add(amount) {
                Some(sum) => {
                    self.balance = sum;
                    Ok(())
                },
                None => Err(WalletError::Overflow),
            }
        }
    }

    /// Transfer ownership of the record. Like the other mutations this is
    /// gated on the current owner: a caller that is not the owner gets
    /// `Unauthorized` and changes nothing.
    pub fn set_owner(&mut self, caller: &String, new_owner: String) -> (r: Result<
        (),
        WalletError,
    >)
        ensures
            final(self)@ == spec_set_owner(old(self)@, caller@, new_owner@).0,
            r == spec_set_owner(old(self)@, caller@, new_owner@).1,
    {
        if *caller != self.owner {
            Err(WalletError::Unauthorized)
        } else {
            self.owner = new_owner;
            Ok(())
        }
    }
}

} // verus!
