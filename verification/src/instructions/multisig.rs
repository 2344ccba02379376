//! Governance: the multisig's owners propose, approve and run transactions,
//! change the protocol's parameters and their own number, and collect the
//! fees.

use vstd::prelude::*;
use crate::custody::{CustodyAction, Holder};
use crate::errors::ErrorCode;
use crate::pubkey::{contains, copy_keys, position, Pubkey};
use crate::state::fees::{LoanFee, LoanFeeView, PlatformFees, PlatformFeesView};
use crate::state::multisig::{
    check_owners, init_spec, update_owners_spec, Multisig, MultisigView, Transaction,
    TransactionAccount, TransactionView,
};
use crate::utils::{payment, payment_spec, split_evenly, Payment};

verus! {

/// Tells that the multisig was set up.
#[derive(Clone, Debug, PartialEq, Eq)]
pub struct MultisigCreated {
    pub threshold: u64,
    pub seqno: u32,
    pub owners: Vec<Pubkey>,
}

/// Tells that the multisig's owners were replaced.
#[derive(Clone, Debug, PartialEq, Eq)]
pub struct OwnersListUpdated {
    pub old_owners: Vec<Pubkey>,
    pub new_owners: Vec<Pubkey>,
}

/// Sets up the multisig with its first owners and threshold.
pub fn initialize_multisig(multisig: &mut Multisig, owners: Vec<Pubkey>, threshold: u64) -> (r:
    Result<MultisigCreated, ErrorCode>)
    ensures
        match init_spec(old(multisig)@, owners@, threshold) {
            Ok(post) => {
                &&& final(multisig)@ == post
                &&& r matches Ok(event)
                &&& event.threshold == threshold
                &&& event.seqno == 0
                &&& event.owners@ == owners@
            },
            Err(e) => r matches Err(f) && f == e && final(multisig)@ == old(multisig)@,
        },
{
    let listed: Vec<Pubkey> = copy_keys(&owners);
    match multisig.init(owners, threshold) {
        Ok(()) => Ok(
            MultisigCreated { threshold: multisig.threshold, seqno: multisig.seqno, owners: listed },
        ),
        Err(e) => Err(e),
    }
}

/// Sets the fee rate, the interest rate and the loan-to-value ratio, each in
/// thousandths. Loans that were granted before keep the rates of their
/// time.
pub fn set_platform_fees(platform_fees: &mut PlatformFees, fee: u32, interest: u32, ltv: u32) -> (r:
    Result<(), ErrorCode>)
    ensures
        r is Ok,
        final(platform_fees)@ == (PlatformFeesView {
            fee_percentage: fee,
            interest_rate: interest,
            ltv,
            uncollected_fees: old(platform_fees)@.uncollected_fees,
        }),
{
    platform_fees.init(fee, interest, ltv);
    Ok(())
}

/// Replaces the multisig's owners. Every transaction proposed before can no
/// longer be approved or run.
pub fn set_owners(multisig: &mut Multisig, owners: Vec<Pubkey>) -> (r: Result<
    OwnersListUpdated,
    ErrorCode,
>)
    ensures
        match update_owners_spec(old(multisig)@, owners@) {
            Ok(post) => {
                &&& final(multisig)@ == post
                &&& r matches Ok(event)
                &&& event.old_owners@ == old(multisig)@.owners
                &&& event.new_owners@ == owners@
            },
            Err(e) => r matches Err(f) && f == e && final(multisig)@ == old(multisig)@,
        },
{
    let old_owners: Vec<Pubkey> = copy_keys(&multisig.owners);
    let new_owners: Vec<Pubkey> = copy_keys(&owners);
    match multisig.update_owners(owners) {
        Ok(()) => Ok(OwnersListUpdated { old_owners, new_owners }),
        Err(e) => Err(e),
    }
}

/// What [`change_threshold`] makes of a multisig.
pub open spec fn change_threshold_spec(pre: MultisigView, threshold: u64) -> Result<
    MultisigView,
    ErrorCode,
> {
    if threshold == 0 || threshold > pre.owners.len() {
        Err(ErrorCode::InvalidThreshold)
    } else {
        Ok(MultisigView { threshold, ..pre })
    }
}

/// Sets the number of approvals that a transaction needs.
pub fn change_threshold(multisig: &mut Multisig, threshold: u64) -> (r: Result<(), ErrorCode>)
    ensures
        match change_threshold_spec(old(multisig)@, threshold) {
            Ok(post) => r is Ok && final(multisig)@ == post,
            Err(e) => r == Err::<(), ErrorCode>(e) && final(multisig)@ == old(multisig)@,
        },
{
    if threshold == 0 {
        return Err(ErrorCode::InvalidThreshold);
    }
    if threshold > multisig.owners.len() as u64 {
        return Err(ErrorCode::InvalidThreshold);
    }
    multisig.threshold = threshold;
    Ok(())
}

/// What [`set_owners_and_change_threshold`] makes of a multisig.
pub open spec fn set_owners_and_change_threshold_spec(
    pre: MultisigView,
    owners: Seq<Pubkey>,
    threshold: u64,
) -> Result<MultisigView, ErrorCode> {
    match update_owners_spec(pre, owners) {
        Err(e) => Err(e),
        Ok(mid) => change_threshold_spec(mid, threshold),
    }
}

/// Replaces the owners and sets the threshold at once: both happen, or
/// neither.
pub fn set_owners_and_change_threshold(
    multisig: &mut Multisig,
    owners: Vec<Pubkey>,
    threshold: u64,
) -> (r: Result<OwnersListUpdated, ErrorCode>)
    ensures
        match set_owners_and_change_threshold_spec(old(multisig)@, owners@, threshold) {
            Ok(post) => {
                &&& final(multisig)@ == post
                &&& r matches Ok(event)
                &&& event.old_owners@ == old(multisig)@.owners
                &&& event.new_owners@ == owners@
            },
            Err(e) => r matches Err(f) && f == e && final(multisig)@ == old(multisig)@,
        },
{
    match check_owners(&owners) {
        Ok(()) => {},
        Err(e) => {
            return Err(e);
        },
    }
    if multisig.seqno == u32::MAX {
        return Err(ErrorCode::MathOverflow);
    }
    if threshold == 0 || threshold > owners.len() as u64 {
        return Err(ErrorCode::InvalidThreshold);
    }
    let event: OwnersListUpdated = match set_owners(multisig, owners) {
        Ok(v) => v,
        Err(e) => {
            return Err(e);
        },
    };
    match change_threshold(multisig, threshold) {
        Ok(()) => Ok(event),
        Err(e) => Err(e),
    }
}

/// A change of threshold, alone or together with a change of owners, leaves
/// a well-formed multisig well-formed, with a threshold of at least one.
pub proof fn lemma_threshold_changes_keep_wf(
    pre: MultisigView,
    owners: Seq<Pubkey>,
    threshold: u64,
)
    requires
        pre.wf(),
    ensures
        change_threshold_spec(pre, threshold) matches Ok(post) ==> post.wf() && post.threshold
            == threshold && threshold >= 1 && post.owners == pre.owners && post.seqno
            == pre.seqno,
        set_owners_and_change_threshold_spec(pre, owners, threshold) matches Ok(post) ==> post.wf()
            && post.threshold == threshold && threshold >= 1 && post.owners == owners
            && post.seqno == pre.seqno + 1,
{
}

/// What [`create_transaction`] returns.
pub open spec fn create_transaction_spec(
    multisig: MultisigView,
    multisig_key: Pubkey,
    proposer: Pubkey,
    program_id: Pubkey,
    accounts: Seq<TransactionAccount>,
    data: Seq<u8>,
) -> Result<TransactionView, ErrorCode> {
    match multisig.owners.index_of_first(proposer) {
        None => Err(ErrorCode::InvalidOwner),
        Some(owner_index) => Ok(
            TransactionView {
                proposer,
                multisig: multisig_key,
                program_id,
                did_execute: false,
                seqno: multisig.seqno,
                accounts,
                signers: Seq::new(multisig.owners.len(), |i: int| i == owner_index),
                data,
            },
        ),
    }
}

/// Proposes a call of the program `program_id` with the given accounts and
/// data. The proposer must be an owner, and counts as the first to approve.
pub fn create_transaction(
    multisig: &Multisig,
    multisig_key: Pubkey,
    proposer: Pubkey,
    program_id: Pubkey,
    transaction_accounts: Vec<TransactionAccount>,
    data: Vec<u8>,
) -> (r: Result<Transaction, ErrorCode>)
    ensures
        match create_transaction_spec(
            multisig@,
            multisig_key,
            proposer,
            program_id,
            transaction_accounts@,
            data@,
        ) {
            Ok(tx) => r matches Ok(made) && made@ == tx,
            Err(e) => r matches Err(f) && f == e,
        },
{
    let owner_index: usize = match position(&multisig.owners, proposer) {
        Some(i) => i,
        None => {
            return Err(ErrorCode::InvalidOwner);
        },
    };
    let mut signers: Vec<bool> = Vec::new();
    let mut i: usize = 0;
    while i < multisig.owners.len()
        invariant
            i <= multisig.owners.len(),
            signers@.len() == i,
            forall|j: int| 0 <= j < i ==> signers@[j] == (j == owner_index),
        decreases multisig.owners.len() - i,
    {
        signers.push(i == owner_index);
        i = i + 1;
    }
    assert(signers@ =~= Seq::new(multisig@.owners.len(), |j: int| j == owner_index as int));
    Ok(
        Transaction {
            proposer,
            multisig: multisig_key,
            program_id,
            did_execute: false,
            seqno: multisig.seqno,
            accounts: transaction_accounts,
            signers,
            data,
        },
    )
}

/// What [`approve`] makes of a transaction.
pub open spec fn approve_spec(multisig: MultisigView, tx: TransactionView, owner: Pubkey) -> Result<
    TransactionView,
    ErrorCode,
> {
    if multisig.seqno != tx.seqno {
        Err(ErrorCode::StaleTransaction)
    } else {
        match multisig.owners.index_of_first(owner) {
            None => Err(ErrorCode::InvalidOwner),
            Some(owner_index) => if owner_index >= tx.signers.len() {
                Err(ErrorCode::InvalidAccount)
            } else {
                Ok(TransactionView { signers: tx.signers.update(owner_index, true), ..tx })
            },
        }
    }
}

/// Records an owner's approval of a transaction. To approve again changes
/// nothing.
pub fn approve(multisig: &Multisig, transaction: &mut Transaction, owner: Pubkey) -> (r: Result<
    (),
    ErrorCode,
>)
    ensures
        match approve_spec(multisig@, old(transaction)@, owner) {
            Ok(post) => r is Ok && final(transaction)@ == post,
            Err(e) => r == Err::<(), ErrorCode>(e) && final(transaction)@ == old(transaction)@,
        },
{
    if multisig.seqno != transaction.seqno {
        return Err(ErrorCode::StaleTransaction);
    }
    let owner_index: usize = match position(&multisig.owners, owner) {
        Some(i) => i,
        None => {
            return Err(ErrorCode::InvalidOwner);
        },
    };
    if owner_index >= transaction.signers.len() {
        return Err(ErrorCode::InvalidAccount);
    }
    transaction.signers.set(owner_index, true);
    Ok(())
}

/// The number of approvals among `signers`.
pub open spec fn approval_count(signers: Seq<bool>) -> nat
    decreases signers.len(),
{
    if signers.len() == 0 {
        0
    } else {
        approval_count(signers.drop_last()) + (if signers.last() {
            1nat
        } else {
            0nat
        })
    }
}

/// Counts the approvals among `signers`.
pub fn count_approvals(signers: &Vec<bool>) -> (r: u64)
    ensures
        r == approval_count(signers@),
{
    let mut count: u64 = 0;
    let mut i: usize = 0;
    while i < signers.len()
        invariant
            i <= signers.len(),
            count <= i,
            count == approval_count(signers@.subrange(0, i as int)),
        decreases signers.len() - i,
    {
        proof {
            let upto = signers@.subrange(0, i + 1);
            assert(upto.drop_last() =~= signers@.subrange(0, i as int));
            assert(upto.last() == signers@[i as int]);
        }
        if signers[i] {
            count = count + 1;
        }
        i = i + 1;
    }
    assert(signers@.subrange(0, signers@.len() as int) =~= signers@);
    count
}

/// The call that a transaction that has run hands on.
#[derive(Clone, Debug, PartialEq, Eq)]
pub struct RelayedInstruction {
    pub program_id: Pubkey,
    pub accounts: Vec<TransactionAccount>,
    pub data: Vec<u8>,
}

/// The accounts of a relayed call: those of the transaction, with the
/// multisig's own signing address marked as a signer wherever it occurs.
pub open spec fn relayed_accounts(accounts: Seq<TransactionAccount>, multisig_signer: Pubkey) -> Seq<
    TransactionAccount,
> {
    Seq::new(
        accounts.len(),
        |i: int|
            if accounts[i].pubkey == multisig_signer {
                TransactionAccount { is_signer: true, ..accounts[i] }
            } else {
                accounts[i]
            },
    )
}

/// What [`execute_transaction`] makes of a transaction.
pub open spec fn execute_transaction_spec(multisig: MultisigView, tx: TransactionView) -> Result<
    TransactionView,
    ErrorCode,
> {
    if tx.did_execute {
        Err(ErrorCode::AlreadyExecuted)
    } else if multisig.seqno != tx.seqno {
        Err(ErrorCode::StaleTransaction)
    } else if approval_count(tx.signers) < multisig.threshold {
        Err(ErrorCode::NotEnoughSigners)
    } else {
        Ok(TransactionView { did_execute: true, ..tx })
    }
}

/// Runs a transaction that enough owners have approved: marks it as run
/// and returns the call to hand on, in which the multisig's own signing
/// address `multisig_signer` signs.
pub fn execute_transaction(
    multisig: &Multisig,
    transaction: &mut Transaction,
    multisig_signer: Pubkey,
) -> (r: Result<RelayedInstruction, ErrorCode>)
    ensures
        match execute_transaction_spec(multisig@, old(transaction)@) {
            Ok(post) => {
                &&& final(transaction)@ == post
                &&& r matches Ok(ix)
                &&& ix.program_id == post.program_id
                &&& ix.accounts@ == relayed_accounts(post.accounts, multisig_signer)
                &&& ix.data@ == post.data
            },
            Err(e) => r matches Err(f) && f == e && final(transaction)@ == old(transaction)@,
        },
{
    if transaction.did_execute {
        return Err(ErrorCode::AlreadyExecuted);
    }
    if multisig.seqno != transaction.seqno {
        return Err(ErrorCode::StaleTransaction);
    }
    let sign_count: u64 = count_approvals(&transaction.signers);
    if sign_count < multisig.threshold {
        return Err(ErrorCode::NotEnoughSigners);
    }
    let mut accounts: Vec<TransactionAccount> = Vec::new();
    let mut i: usize = 0;
    while i < transaction.accounts.len()
        invariant
            i <= transaction.accounts.len(),
            accounts@.len() == i,
            forall|j: int|
                0 <= j < i ==> accounts@[j] == relayed_accounts(
                    transaction.accounts@,
                    multisig_signer,
                )[j],
        decreases transaction.accounts.len() - i,
    {
        let mut acc: TransactionAccount = transaction.accounts[i];
        if acc.pubkey == multisig_signer {
            acc.is_signer = true;
        }
        accounts.push(acc);
        i = i + 1;
    }
    assert(accounts@ =~= relayed_accounts(transaction.accounts@, multisig_signer));
    let mut data: Vec<u8> = Vec::new();
    let mut k: usize = 0;
    while k < transaction.data.len()
        invariant
            k <= transaction.data.len(),
            data@ == transaction.data@.subrange(0, k as int),
        decreases transaction.data.len() - k,
    {
        data.push(transaction.data[k]);
        assert(transaction.data@.subrange(0, k as int).push(transaction.data@[k as int])
            =~= transaction.data@.subrange(0, k + 1));
        k = k + 1;
    }
    assert(transaction.data@.subrange(0, transaction.data@.len() as int) =~= transaction.data@);
    transaction.did_execute = true;
    Ok(RelayedInstruction { program_id: transaction.program_id, accounts, data })
}

/// A transaction that has not run and was proposed under the multisig's
/// present sequence number runs exactly where its approvals reach the
/// threshold; otherwise the attempt fails for want of signers. Running it
/// marks it as run and changes nothing else in it, and no further attempt,
/// on whatever state of the multisig, runs it again.
pub proof fn lemma_execute_at_threshold_once(
    multisig: MultisigView,
    tx: TransactionView,
    later: MultisigView,
)
    requires
        !tx.did_execute,
        tx.seqno == multisig.seqno,
    ensures
        approval_count(tx.signers) < multisig.threshold ==> execute_transaction_spec(multisig, tx)
            == Err::<TransactionView, ErrorCode>(ErrorCode::NotEnoughSigners),
        approval_count(tx.signers) >= multisig.threshold ==> {
            &&& execute_transaction_spec(multisig, tx) == Ok::<TransactionView, ErrorCode>(
                TransactionView { did_execute: true, ..tx },
            )
            &&& execute_transaction_spec(later, TransactionView { did_execute: true, ..tx })
                == Err::<TransactionView, ErrorCode>(ErrorCode::AlreadyExecuted)
        },
{
}

/// A transaction that has run never runs again.
pub proof fn lemma_executed_stays_executed(multisig: MultisigView, tx: TransactionView)
    requires
        tx.did_execute,
    ensures
        execute_transaction_spec(multisig, tx) == Err::<TransactionView, ErrorCode>(
            ErrorCode::AlreadyExecuted,
        ),
{
}

/// After the owners have been replaced, no transaction proposed under the
/// owners before can be approved or run, however many approvals it has.
pub proof fn lemma_owner_change_invalidates(
    multisig: MultisigView,
    tx: TransactionView,
    owners: Seq<Pubkey>,
    approver: Pubkey,
)
    requires
        !tx.did_execute,
        tx.seqno == multisig.seqno,
    ensures
        update_owners_spec(multisig, owners) matches Ok(changed) ==> {
            &&& changed.seqno == multisig.seqno + 1
            &&& execute_transaction_spec(changed, tx) == Err::<TransactionView, ErrorCode>(
                ErrorCode::StaleTransaction,
            )
            &&& approve_spec(changed, tx, approver) == Err::<TransactionView, ErrorCode>(
                ErrorCode::StaleTransaction,
            )
        },
{
}

/// A transaction that an owner has just proposed was proposed under the
/// multisig's present sequence number, has not run, and holds the
/// proposer's approval and no other.
pub proof fn lemma_created_transaction(
    multisig: MultisigView,
    multisig_key: Pubkey,
    proposer: Pubkey,
    program_id: Pubkey,
    accounts: Seq<TransactionAccount>,
    data: Seq<u8>,
)
    ensures
        create_transaction_spec(multisig, multisig_key, proposer, program_id, accounts, data)
            matches Ok(tx) ==> {
            &&& multisig.owners.contains(proposer)
            &&& tx.seqno == multisig.seqno
            &&& !tx.did_execute
            &&& tx.signers.len() == multisig.owners.len()
            &&& forall|i: int|
                0 <= i < tx.signers.len() ==> (#[trigger] tx.signers[i] <==> Some(i)
                    == multisig.owners.index_of_first(proposer))
        },
        !multisig.owners.contains(proposer) ==> create_transaction_spec(
            multisig,
            multisig_key,
            proposer,
            program_id,
            accounts,
            data,
        ) == Err::<TransactionView, ErrorCode>(ErrorCode::InvalidOwner),
{
    multisig.owners.index_of_first_ensures(proposer);
}

/// To approve twice is to approve once.
pub proof fn lemma_approve_idempotent(multisig: MultisigView, tx: TransactionView, owner: Pubkey)
    ensures
        approve_spec(multisig, tx, owner) matches Ok(once) ==> approve_spec(multisig, once, owner)
            == Ok::<TransactionView, ErrorCode>(once),
{
    if let Ok(once) = approve_spec(multisig, tx, owner) {
        multisig.owners.index_of_first_ensures(owner);
        let i = multisig.owners.index_of_first(owner)->Some_0;
        assert(once.signers.update(i, true) =~= once.signers);
    }
}

/// What [`withdraw_fee`] leaves behind: the list of uncollected fees, the
/// fee record and the payment to the owner.
pub open spec fn withdraw_fee_spec(
    multisig: MultisigView,
    platform_fees: PlatformFeesView,
    loan_fee: LoanFeeView,
    loan_fee_key: Pubkey,
    admin: Pubkey,
) -> Result<(PlatformFeesView, LoanFeeView, Payment), ErrorCode> {
    if !platform_fees.uncollected_fees.contains(loan_fee_key) {
        Err(ErrorCode::FeeAlreadyCollected)
    } else if !multisig.owners.contains(admin) {
        Err(ErrorCode::InvalidOwner)
    } else if !loan_fee.owners.contains(admin) {
        Err(ErrorCode::FeeAlreadyWithdrawn)
    } else {
        match payment_spec(loan_fee.token_mint, loan_fee.amount) {
            Err(e) => Err(e),
            Ok(whole) => Ok(
                (
                    if loan_fee.owners.len() == 1 {
                        PlatformFeesView {
                            uncollected_fees: platform_fees.uncollected_fees.remove(
                                platform_fees.uncollected_fees.index_of_first(
                                    loan_fee_key,
                                )->Some_0,
                            ),
                            ..platform_fees
                        }
                    } else {
                        platform_fees
                    },
                    LoanFeeView {
                        owners: loan_fee.owners.remove(
                            loan_fee.owners.index_of_first(admin)->Some_0,
                        ),
                        ..loan_fee
                    },
                    Payment {
                        native: whole.native,
                        amount: (whole.amount as nat / multisig.owners.len()) as u64,
                    },
                ),
            ),
        }
    }
}

/// Pays an owner of the multisig an equal share of a loan's fee: the fee,
/// in the asset's base units, divided by the number of owners and rounded
/// down. The owner leaves the fee's claimants; when the last claimant is
/// paid, the fee leaves the list of uncollected fees.
pub fn withdraw_fee(
    multisig: &Multisig,
    platform_fees: &mut PlatformFees,
    loan_fee: &mut LoanFee,
    loan_fee_key: Pubkey,
    admin: Pubkey,
) -> (r: Result<Vec<CustodyAction>, ErrorCode>)
    ensures
        match withdraw_fee_spec(
            multisig@,
            old(platform_fees)@,
            old(loan_fee)@,
            loan_fee_key,
            admin,
        ) {
            Ok((fees, fee, share)) => {
                &&& r matches Ok(actions)
                &&& actions@ == seq![
                    CustodyAction::Pay {
                        from: Holder::FeeEscrow,
                        to: Holder::Owner,
                        payment: share,
                    },
                ]
                &&& final(platform_fees)@ == fees
                &&& final(loan_fee)@ == fee
            },
            Err(e) => {
                &&& r matches Err(f)
                &&& f == e
                &&& final(platform_fees)@ == old(platform_fees)@
                &&& final(loan_fee)@ == old(loan_fee)@
            },
        },
{
    let listed_at: usize = match position(&platform_fees.uncollected_fees, loan_fee_key) {
        Some(i) => i,
        None => {
            proof {
                platform_fees@.uncollected_fees.index_of_first_ensures(loan_fee_key);
            }
            return Err(ErrorCode::FeeAlreadyCollected);
        },
    };
    proof {
        platform_fees@.uncollected_fees.index_of_first_ensures(loan_fee_key);
        loan_fee@.owners.index_of_first_ensures(admin);
    }
    if !contains(&multisig.owners, admin) {
        return Err(ErrorCode::InvalidOwner);
    }
    let claims_at: usize = match position(&loan_fee.owners, admin) {
        Some(i) => i,
        None => {
            return Err(ErrorCode::FeeAlreadyWithdrawn);
        },
    };
    let whole: Payment = match payment(loan_fee.token_mint, loan_fee.amount) {
        Ok(v) => v,
        Err(e) => {
            return Err(e);
        },
    };
    let share: u64 = match split_evenly(whole.amount, multisig.owners.len() as u64) {
        Ok(v) => v,
        Err(e) => {
            return Err(ErrorCode::from_math(e));
        },
    };
    if loan_fee.owners.len() == 1 {
        platform_fees.uncollected_fees.remove(listed_at);
    }
    loan_fee.owners.remove(claims_at);
    Ok(
        vec![
            CustodyAction::Pay {
                from: Holder::FeeEscrow,
                to: Holder::Owner,
                payment: Payment { native: whole.native, amount: share },
            },
        ],
    )
}

/// The shares of a fee fit in the fee: one share for each owner of the
/// multisig comes to no more than the whole, in the asset's base units.
pub proof fn lemma_fee_shares_fit(
    multisig: MultisigView,
    platform_fees: PlatformFeesView,
    loan_fee: LoanFeeView,
    loan_fee_key: Pubkey,
    admin: Pubkey,
)
    ensures
        withdraw_fee_spec(multisig, platform_fees, loan_fee, loan_fee_key, admin) matches Ok(
            (fees, fee, share),
        ) ==> {
            &&& payment_spec(loan_fee.token_mint, loan_fee.amount) matches Ok(whole)
            &&& share.native == whole.native
            &&& share.amount * multisig.owners.len() <= whole.amount
            &&& multisig.owners.len() >= 1
        },
{
    if let Ok((fees, fee, share)) = withdraw_fee_spec(
        multisig,
        platform_fees,
        loan_fee,
        loan_fee_key,
        admin,
    ) {
        let whole = payment_spec(loan_fee.token_mint, loan_fee.amount)->Ok_0;
        let a = whole.amount as nat;
        let n = multisig.owners.len();
        assert(n >= 1);
        assert((a / n) * n <= a) by (nonlinear_arith)
            requires
                n >= 1,
        ;
        assert(a / n <= a) by (nonlinear_arith)
            requires
                n >= 1,
        ;
    }
}

/// An owner is paid a share of a fee once: after a share was paid, the same
/// owner's next claim on that fee is refused.
pub proof fn lemma_fee_share_paid_once(
    multisig: MultisigView,
    platform_fees: PlatformFeesView,
    loan_fee: LoanFeeView,
    loan_fee_key: Pubkey,
    admin: Pubkey,
)
    requires
        loan_fee.owners.no_duplicates(),
    ensures
        withdraw_fee_spec(multisig, platform_fees, loan_fee, loan_fee_key, admin) matches Ok(
            (fees, fee, share),
        ) ==> {
            &&& fee.owners.len() == loan_fee.owners.len() - 1
            &&& !fee.owners.contains(admin)
            &&& fee.owners.no_duplicates()
            &&& withdraw_fee_spec(multisig, fees, fee, loan_fee_key, admin) is Err
        },
{
    if let Ok((fees, fee, share)) = withdraw_fee_spec(
        multisig,
        platform_fees,
        loan_fee,
        loan_fee_key,
        admin,
    ) {
        loan_fee.owners.index_of_first_ensures(admin);
        let i = loan_fee.owners.index_of_first(admin)->Some_0;
        loan_fee.owners.remove_ensures(i);
        assert forall|j: int| 0 <= j < fee.owners.len() implies fee.owners[j] != admin by {
            if j < i {
                assert(fee.owners[j] == loan_fee.owners[j]);
            } else {
                assert(fee.owners[j] == loan_fee.owners[j + 1]);
            }
        }
        assert forall|a: int, b: int|
            0 <= a < fee.owners.len() && 0 <= b < fee.owners.len() && a != b implies fee.owners[a]
            != fee.owners[b] by {
            let a0 = if a < i {
                a
            } else {
                a + 1
            };
            let b0 = if b < i {
                b
            } else {
                b + 1
            };
            assert(fee.owners[a] == loan_fee.owners[a0]);
            assert(fee.owners[b] == loan_fee.owners[b0]);
        }
    }
}

} // verus!
