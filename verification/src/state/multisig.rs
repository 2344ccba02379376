//! The governance root and the transactions proposed to it.

use vstd::prelude::*;
use crate::errors::ErrorCode;
use crate::pubkey::{all_unique, Pubkey};

verus! {

/// The most owners that a multisig may have.
pub const MAX_OWNERS: usize = 100;

/// The governance root: a set of owners, of whom `threshold` must approve a
/// transaction before it runs.
#[derive(Clone, Debug, PartialEq, Eq)]
pub struct Multisig {
    pub threshold: u64,
    /// Counts the changes of the owner set. A transaction proposed under
    /// another number can no longer be approved or run.
    pub seqno: u32,
    pub owners: Vec<Pubkey>,
}

/// What a [`Multisig`] holds.
pub struct MultisigView {
    pub threshold: u64,
    pub seqno: u32,
    pub owners: Seq<Pubkey>,
}

impl View for Multisig {
    type V = MultisigView;

    open spec fn view(&self) -> MultisigView {
        MultisigView { threshold: self.threshold, seqno: self.seqno, owners: self.owners@ }
    }
}

impl MultisigView {
    /// No owner occurs twice, there are at most [`MAX_OWNERS`] of them, and
    /// the threshold asks for no more approvals than there are owners.
    pub open spec fn wf(self) -> bool {
        &&& self.owners.no_duplicates()
        &&& self.owners.len() <= MAX_OWNERS
        &&& self.threshold <= self.owners.len()
    }

    /// Whether owners or a threshold have been set.
    pub open spec fn is_initialized(self) -> bool {
        self.owners.len() != 0 || self.threshold != 0
    }
}

/// Why a list cannot be an owner set, if it cannot: an owner occurs twice,
/// or the list is empty or longer than [`MAX_OWNERS`].
pub open spec fn owners_fault(owners: Seq<Pubkey>) -> Option<ErrorCode> {
    if !owners.no_duplicates() {
        Some(ErrorCode::UniqueOwners)
    } else if owners.len() == 0 || owners.len() > MAX_OWNERS {
        Some(ErrorCode::InvalidOwnersLen)
    } else {
        None
    }
}

/// What [`Multisig::init`] makes of a multisig.
pub open spec fn init_spec(pre: MultisigView, owners: Seq<Pubkey>, threshold: u64) -> Result<
    MultisigView,
    ErrorCode,
> {
    if pre.is_initialized() {
        Err(ErrorCode::MultisigAlreadyInitialized)
    } else if owners_fault(owners) is Some {
        Err(owners_fault(owners)->Some_0)
    } else if threshold == 0 || threshold > owners.len() {
        Err(ErrorCode::InvalidThreshold)
    } else {
        Ok(MultisigView { threshold, seqno: 0, owners })
    }
}

/// What [`Multisig::update_owners`] makes of a multisig.
pub open spec fn update_owners_spec(pre: MultisigView, owners: Seq<Pubkey>) -> Result<
    MultisigView,
    ErrorCode,
> {
    if owners_fault(owners) is Some {
        Err(owners_fault(owners)->Some_0)
    } else if pre.seqno == u32::MAX {
        Err(ErrorCode::MathOverflow)
    } else {
        Ok(
            MultisigView {
                threshold: if owners.len() < pre.threshold {
                    owners.len() as u64
                } else {
                    pre.threshold
                },
                seqno: (pre.seqno + 1) as u32,
                owners,
            },
        )
    }
}

/// Checks a list that is to become the owner set.
pub fn check_owners(owners: &Vec<Pubkey>) -> (r: Result<(), ErrorCode>)
    ensures
        r == (match owners_fault(owners@) {
            Some(e) => Err::<(), ErrorCode>(e),
            None => Ok(()),
        }),
{
    if !all_unique(owners) {
        Err(ErrorCode::UniqueOwners)
    } else if owners.len() == 0 || owners.len() > MAX_OWNERS {
        Err(ErrorCode::InvalidOwnersLen)
    } else {
        Ok(())
    }
}

impl Multisig {
    /// The bytes that a stored multisig takes.
    pub const MAX_SIZE: usize = 8 + 4 + 4 + (32 * 100);

    /// A multisig with no owners and no threshold, still to be initialised.
    pub fn new() -> (r: Multisig)
        ensures
            r@ == (MultisigView { threshold: 0, seqno: 0, owners: Seq::empty() }),
            !r@.is_initialized(),
            r@.wf(),
    {
        Multisig { threshold: 0, seqno: 0, owners: Vec::new() }
    }

    /// Sets the first owners and threshold. This can be done once: a
    /// multisig that has owners or a threshold is left as it is.
    pub fn init(&mut self, owners: Vec<Pubkey>, threshold: u64) -> (r: Result<(), ErrorCode>)
        ensures
            match init_spec(old(self)@, owners@, threshold) {
                Ok(post) => r is Ok && final(self)@ == post,
                Err(e) => r == Err::<(), ErrorCode>(e) && final(self)@ == old(self)@,
            },
    {
        if self.owners.len() != 0 || self.threshold != 0 {
            return Err(ErrorCode::MultisigAlreadyInitialized);
        }
        match check_owners(&owners) {
            Ok(()) => {},
            Err(e) => {
                return Err(e);
            },
        }
        if threshold == 0 || threshold > owners.len() as u64 {
            return Err(ErrorCode::InvalidThreshold);
        }
        self.owners = owners;
        self.threshold = threshold;
        self.seqno = 0;
        Ok(())
    }

    /// Replaces the owner set. The threshold is lowered to the number of
    /// new owners where it would exceed it, and the sequence number goes up
    /// by one.
    pub fn update_owners(&mut self, owners: Vec<Pubkey>) -> (r: Result<(), ErrorCode>)
        ensures
            match update_owners_spec(old(self)@, owners@) {
                Ok(post) => r is Ok && final(self)@ == post,
                Err(e) => r == Err::<(), ErrorCode>(e) && final(self)@ == old(self)@,
            },
    {
        match check_owners(&owners) {
            Ok(()) => {},
            Err(e) => {
                return Err(e);
            },
        }
        if self.seqno == u32::MAX {
            return Err(ErrorCode::MathOverflow);
        }
        if (owners.len() as u64) < self.threshold {
            self.threshold = owners.len() as u64;
        }
        self.owners = owners;
        self.seqno = self.seqno + 1;
        Ok(())
    }
}

/// One account that a transaction names.
#[derive(Clone, Copy, Debug, PartialEq, Eq, Structural)]
pub struct TransactionAccount {
    pub pubkey: Pubkey,
    pub is_signer: bool,
    pub is_writable: bool,
}

impl TransactionAccount {
    /// The bytes that a stored account reference takes.
    pub const MAX_SIZE: usize = 32 + 1 + 1;
}

/// A call that an owner has proposed to the multisig.
#[derive(Clone, Debug, PartialEq, Eq)]
pub struct Transaction {
    pub proposer: Pubkey,
    /// The multisig that this transaction belongs to.
    pub multisig: Pubkey,
    /// The program that the call goes to.
    pub program_id: Pubkey,
    /// Whether the call has been made. It is made once at most.
    pub did_execute: bool,
    /// The multisig's sequence number when this was proposed.
    pub seqno: u32,
    pub accounts: Vec<TransactionAccount>,
    /// `signers[i]` says whether the multisig's `i`-th owner has approved.
    pub signers: Vec<bool>,
    pub data: Vec<u8>,
}

/// What a [`Transaction`] holds.
pub struct TransactionView {
    pub proposer: Pubkey,
    pub multisig: Pubkey,
    pub program_id: Pubkey,
    pub did_execute: bool,
    pub seqno: u32,
    pub accounts: Seq<TransactionAccount>,
    pub signers: Seq<bool>,
    pub data: Seq<u8>,
}

impl View for Transaction {
    type V = TransactionView;

    open spec fn view(&self) -> TransactionView {
        TransactionView {
            proposer: self.proposer,
            multisig: self.multisig,
            program_id: self.program_id,
            did_execute: self.did_execute,
            seqno: self.seqno,
            accounts: self.accounts@,
            signers: self.signers@,
            data: self.data@,
        }
    }
}

impl Transaction {
    /// The bytes that a stored transaction takes.
    pub const MAX_SIZE: usize = 32 + 32 + 32 + 1 + 4 + 4 + (2 * TransactionAccount::MAX_SIZE) + 4
        + (1 * 20) + 4 + (1 * 1000);
}

/// An owner set that [`Multisig::init`] accepts leaves a well-formed
/// multisig, and so does one that [`Multisig::update_owners`] accepts.
pub proof fn lemma_owner_changes_keep_wf(pre: MultisigView, owners: Seq<Pubkey>, threshold: u64)
    ensures
        init_spec(pre, owners, threshold) matches Ok(post) ==> post.wf() && post.is_initialized(),
        update_owners_spec(pre, owners) matches Ok(post) ==> post.wf(),
{
}

} // verus!
