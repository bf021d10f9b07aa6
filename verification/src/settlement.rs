use crate::transfers::{amount_of, SubmitResult};
use crate::types::AccountId;
use vstd::prelude::*;

verus! {

/// One movement of the underlying token at the end of an entry point.
#[derive(Clone, Copy, Debug, PartialEq, Eq, Structural)]
pub enum TransferStep {
    /// The vault pays `amount` to the engine.
    VaultWithdraw { amount: i128 },
    /// The engine pays `amount` to the account.
    Pay { to: AccountId, amount: i128 },
    /// The account pays `amount` to the engine.
    Collect { from: AccountId, amount: i128 },
    /// The engine pays `amount` to the vault.
    VaultDeposit { amount: i128 },
}

/// The steps for the accounts in `keys`, in their order: none for the
/// vault or for an amount of zero, a payment for a positive amount, a
/// collection for a negative one.
pub open spec fn account_steps(keys: Seq<u64>, transfers: Map<u64, i128>, vault: AccountId) -> Seq<
    TransferStep,
>
    decreases keys.len(),
{
    if keys.len() == 0 {
        Seq::empty()
    } else {
        let before = account_steps(keys.drop_last(), transfers, vault);
        let account = keys.last();
        let amount = amount_of(transfers, account);
        if account == vault || amount == 0 {
            before
        } else if amount > 0 {
            before.push(TransferStep::Pay { to: account, amount: amount as i128 })
        } else {
            before.push(TransferStep::Collect { from: account, amount: (-amount) as i128 })
        }
    }
}

/// What comes first: the vault's payment, where the vault owes.
pub open spec fn opening_steps(transfers: Map<u64, i128>, vault: AccountId) -> Seq<TransferStep> {
    if amount_of(transfers, vault) < 0 {
        seq![TransferStep::VaultWithdraw { amount: (-amount_of(transfers, vault)) as i128 }]
    } else {
        Seq::empty()
    }
}

/// What comes last: the deposit into the vault, where the vault is owed.
pub open spec fn closing_steps(transfers: Map<u64, i128>, vault: AccountId) -> Seq<TransferStep> {
    if amount_of(transfers, vault) > 0 {
        seq![TransferStep::VaultDeposit { amount: amount_of(transfers, vault) as i128 }]
    } else {
        Seq::empty()
    }
}

/// The whole plan: the vault pays first, then every other account is paid
/// or pays, then the vault is paid.
pub open spec fn plan_of(keys: Seq<u64>, transfers: Map<u64, i128>, vault: AccountId) -> Seq<
    TransferStep,
> {
    opening_steps(transfers, vault) + account_steps(keys, transfers, vault) + closing_steps(
        transfers,
        vault,
    )
}

/// No recorded amount is the one value whose negation does not fit.
pub open spec fn negatable(transfers: Map<u64, i128>) -> bool {
    forall|k: u64| transfers.contains_key(k) ==> #[trigger] transfers[k] > i128::MIN
}

/// Orders the transfers of `result` for the accounts in `keys`.
pub fn settlement_plan_for(keys: &Vec<AccountId>, result: &SubmitResult, vault: AccountId) -> (plan:
    Vec<TransferStep>)
    requires
        negatable(result.transfers_view()),
    ensures
        plan@ == plan_of(keys@, result.transfers_view(), vault),
{
    let ghost transfers = result.transfers_view();
    let mut plan: Vec<TransferStep> = Vec::new();
    let vault_amount = result.transfer_of(vault);
    if vault_amount < 0 {
        plan.push(TransferStep::VaultWithdraw { amount: -vault_amount });
    }
    assert(plan@ == opening_steps(transfers, vault));
    let mut i: usize = 0;
    assert(keys@.take(0) == Seq::<u64>::empty());
    while i < keys.len()
        invariant
            i <= keys.len(),
            transfers == result.transfers_view(),
            negatable(transfers),
            plan@ == opening_steps(transfers, vault) + account_steps(
                keys@.take(i as int),
                transfers,
                vault,
            ),
        decreases keys.len() - i,
    {
        let account = keys[i];
        let amount = result.transfer_of(account);
        proof {
            assert(keys@.take(i as int + 1).drop_last() == keys@.take(i as int));
            assert(keys@.take(i as int + 1).last() == account);
        }
        if account != vault && amount != 0 {
            if amount > 0 {
                plan.push(TransferStep::Pay { to: account, amount });
            } else {
                plan.push(TransferStep::Collect { from: account, amount: -amount });
            }
        }
        i = i + 1;
    }
    assert(keys@.take(keys.len() as int) == keys@);
    if vault_amount > 0 {
        plan.push(TransferStep::VaultDeposit { amount: vault_amount });
    }
    plan
}

/// Orders the transfers that a batch has built up: first what the vault
/// pays, then each other account with an amount other than zero, once,
/// then what the vault receives.
pub fn settlement_plan(result: &SubmitResult, vault: AccountId) -> (plan: Vec<TransferStep>)
    requires
        negatable(result.transfers_view()),
    ensures
        exists|keys: Seq<u64>|
            {
                &&& keys.no_duplicates()
                &&& forall|k: u64| keys.contains(k) <==> result.transfers_view().contains_key(k)
                &&& plan@ == #[trigger] plan_of(keys, result.transfers_view(), vault)
            },
{
    let keys = result.accounts();
    let plan = settlement_plan_for(&keys, result, vault);
    assert(plan@ == plan_of(keys@, result.transfers_view(), vault));
    plan
}

} // verus!
