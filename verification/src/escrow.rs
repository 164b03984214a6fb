//! The escrow ledger and its two guarded transitions.
//!
//! An [`Escrow`] holds the persistent state of one deployment: the fund
//! records and the token accounts, each table keyed by address. `create_fund`
//! locks a quantity of an asset into a freshly derived custody account;
//! `redeem` releases the whole of it to the fund's beneficiary once the
//! unlock time has passed. Every check the transitions make, and every unit
//! they move, is stated in their contracts.

use vstd::prelude::*;

use crate::assoc::{
    assoc_at, assoc_index, lemma_assoc_none, lemma_assoc_push, lemma_assoc_update, unique_keys,
};
use crate::ids::{id_eq, AccountId};
use crate::pda::{
    custody_addr_of, derive_custody_addr, derive_fund_addr, derive_vault_authority, fund_addr_of,
    vault_authority_of,
};

verus! {

/// Why a transition was refused.
#[derive(Clone, Copy, Debug, PartialEq, Eq, Structural)]
pub enum ErrorCode {
    /// A fund record or custody account already lives at the derived address:
    /// the depositor reused a seed.
    AlreadyExists,
    /// The clock has not reached the fund's unlock time yet. Recoverable:
    /// the caller may retry later.
    InsufficientRedeemTime,
    /// A signing-rights or binding check failed: a caller other than the
    /// beneficiary, an account controlled or typed otherwise than claimed, a
    /// custody account whose authority is not the vault authority, or a fund
    /// record that does not exist.
    Unauthorized,
    /// The source account does not hold the requested quantity, or the
    /// requested quantity is zero.
    InsufficientFunds,
    /// The destination account cannot hold the moved quantity.
    Overflow,
    /// The address-derivation service found no usable disambiguator for the
    /// requested seeds.
    DerivationFailure,
}

/// One fund record: the persistent description of one escrow instance.
#[derive(Clone, Copy, Debug, PartialEq, Eq)]
pub struct Fund {
    /// The fungible-asset type the fund accepts.
    pub asset_id: AccountId,
    /// The custody account holding the locked units, derived from the fund's
    /// own address.
    pub custody_account_id: AccountId,
    /// The only identity allowed to redeem.
    pub beneficiary_id: AccountId,
    /// The locked quantity, fixed at creation.
    pub amount: u64,
    /// The absolute time from which redemption is permitted.
    pub unlock_time: u64,
}

/// One token account: a holding of one asset type under one authority.
#[derive(Clone, Copy, Debug, PartialEq, Eq)]
pub struct TokenAccount {
    /// The asset type this account holds.
    pub mint: AccountId,
    /// The identity whose signature moves units out of this account.
    pub authority: AccountId,
    /// The held quantity.
    pub balance: u64,
}

/// The parties of a creation.
#[derive(Clone, Copy, Debug, PartialEq, Eq)]
pub struct CreateFund {
    /// The depositor: signs the transition and pays out of their account.
    pub depositor: AccountId,
    /// The asset type to lock.
    pub asset_id: AccountId,
    /// The depositor's token account the quantity is taken from.
    pub depositor_account_id: AccountId,
    /// The identity allowed to redeem. Opaque: it need not exist yet.
    pub beneficiary_id: AccountId,
}

/// The parties of a redemption.
#[derive(Clone, Copy, Debug, PartialEq, Eq)]
pub struct Redeem {
    /// The fund record to redeem, by address.
    pub fund_id: AccountId,
    /// The signing identity making the call.
    pub caller: AccountId,
    /// The beneficiary's destination account, created on demand if absent.
    pub destination_id: AccountId,
}

/// The persistent state of one escrow deployment.
pub struct Escrow {
    /// The identity under which all addresses are derived.
    pub program_id: AccountId,
    /// The fund records, keyed by their derived addresses.
    pub funds: Vec<(AccountId, Fund)>,
    /// The token accounts, keyed by address: holder accounts, custody
    /// accounts and destination accounts alike.
    pub accounts: Vec<(AccountId, TokenAccount)>,
}

impl Escrow {
    /// The fund record at `addr`, if any.
    pub open spec fn spec_fund(self, addr: Seq<u8>) -> Option<Fund> {
        assoc_at(self.funds@, addr)
    }

    /// The token account at `addr`, if any.
    pub open spec fn spec_account(self, addr: Seq<u8>) -> Option<TokenAccount> {
        assoc_at(self.accounts@, addr)
    }

    /// The balance of the token account at `addr`, if any.
    pub open spec fn spec_balance(self, addr: Seq<u8>) -> Option<u64> {
        match self.spec_account(addr) {
            None => None,
            Some(t) => Some(t.balance),
        }
    }

    /// Every fund record locks a positive quantity.
    pub open spec fn funds_positive(self) -> bool {
        forall|k: Seq<u8>| (#[trigger] assoc_at(self.funds@, k)) matches Some(f) ==> f.amount > 0
    }

    /// Well-formedness: both tables have pairwise-distinct keys, and every
    /// fund locks a positive quantity.
    pub open spec fn wf(self) -> bool {
        &&& unique_keys(self.funds@)
        &&& unique_keys(self.accounts@)
        &&& self.funds_positive()
    }

    /// An empty ledger.
    pub fn new(program_id: AccountId) -> (r: Escrow)
        ensures
            r.wf(),
            r.program_id@ == program_id@,
            forall|k: Seq<u8>| (#[trigger] r.spec_fund(k)) is None,
            forall|k: Seq<u8>| (#[trigger] r.spec_account(k)) is None,
    {
        Escrow { program_id, funds: Vec::new(), accounts: Vec::new() }
    }
}

/// The error `create_fund` refuses with, or `None` where it succeeds: the
/// checks in the order the transition makes them. Derivation comes first;
/// an occupied derived address is a seed reuse; the source account must be
/// of the right asset type and controlled by the depositor; and the locked
/// quantity must be positive and covered.
pub open spec fn create_error(pre: Escrow, a: CreateFund, seed: Seq<u8>, amount: u64) -> Option<
    ErrorCode,
> {
    match fund_addr_of(pre.program_id@, a.depositor@, seed) {
        None => Some(ErrorCode::DerivationFailure),
        Some(fa) => if pre.spec_fund(fa.0) is Some {
            Some(ErrorCode::AlreadyExists)
        } else {
            match custody_addr_of(pre.program_id@, fa.0) {
                None => Some(ErrorCode::DerivationFailure),
                Some(ca) => if pre.spec_account(ca.0) is Some {
                    Some(ErrorCode::AlreadyExists)
                } else {
                    match vault_authority_of(pre.program_id@) {
                        None => Some(ErrorCode::DerivationFailure),
                        Some(va) => match pre.spec_account(a.depositor_account_id@) {
                            None => Some(ErrorCode::Unauthorized),
                            Some(dep) => if dep.mint@ != a.asset_id@ || dep.authority@
                                != a.depositor@ {
                                Some(ErrorCode::Unauthorized)
                            } else if amount == 0 || dep.balance < amount {
                                Some(ErrorCode::InsufficientFunds)
                            } else {
                                None
                            },
                        },
                    }
                },
            }
        },
    }
}

/// What a successful creation leaves behind: one new fund record at the
/// derived address `addr`, one new custody account bound to the asset and to
/// the vault authority and holding exactly `amount`, the depositor's account
/// debited by exactly `amount`, and nothing else changed.
pub open spec fn create_ok_post(
    pre: Escrow,
    post: Escrow,
    a: CreateFund,
    seed: Seq<u8>,
    amount: u64,
    unlock_time: u64,
    addr: Seq<u8>,
) -> bool {
    match (fund_addr_of(pre.program_id@, a.depositor@, seed), vault_authority_of(pre.program_id@)) {
        (Some(fa), Some(va)) => match custody_addr_of(pre.program_id@, fa.0) {
            None => false,
            Some(ca) => {
                &&& addr == fa.0
                &&& post.program_id@ == pre.program_id@
                &&& post.spec_fund(fa.0) matches Some(f) && f.asset_id@ == a.asset_id@
                    && f.custody_account_id@ == ca.0 && f.beneficiary_id@ == a.beneficiary_id@
                    && f.amount == amount && f.unlock_time == unlock_time
                &&& post.spec_account(ca.0) matches Some(c) && c.mint@ == a.asset_id@
                    && c.authority@ == va.0 && c.balance == amount
                &&& pre.spec_account(a.depositor_account_id@) matches Some(dep0)
                    && post.spec_account(a.depositor_account_id@) matches Some(dep1)
                    && dep1.mint == dep0.mint && dep1.authority == dep0.authority && dep1.balance
                    == dep0.balance - amount
                &&& forall|k: Seq<u8>|
                    k != fa.0 ==> (#[trigger] post.spec_fund(k)) == pre.spec_fund(k)
                &&& forall|k: Seq<u8>|
                    k != ca.0 && k != a.depositor_account_id@ ==> (#[trigger] post.spec_account(k))
                        == pre.spec_account(k)
            },
        },
        _ => false,
    }
}

/// The error `redeem` refuses with, or `None` where it succeeds: the checks
/// in the order the transition makes them. The beneficiary check comes before
/// everything, then the time gate, then the re-derivation of the vault
/// authority and the custody and destination bindings, then the transfer's
/// own checks.
pub open spec fn redeem_error(pre: Escrow, a: Redeem, now: u64) -> Option<ErrorCode> {
    match pre.spec_fund(a.fund_id@) {
        None => Some(ErrorCode::Unauthorized),
        Some(f) => if a.caller@ != f.beneficiary_id@ {
            Some(ErrorCode::Unauthorized)
        } else if now < f.unlock_time {
            Some(ErrorCode::InsufficientRedeemTime)
        } else {
            match vault_authority_of(pre.program_id@) {
                None => Some(ErrorCode::DerivationFailure),
                Some(va) => match pre.spec_account(f.custody_account_id@) {
                    None => Some(ErrorCode::Unauthorized),
                    Some(c) => if c.mint@ != f.asset_id@ || c.authority@ != va.0 {
                        Some(ErrorCode::Unauthorized)
                    } else if a.destination_id@ == f.custody_account_id@ {
                        Some(ErrorCode::Unauthorized)
                    } else if !(match pre.spec_account(a.destination_id@) {
                        None => true,
                        Some(d) => d.mint@ == f.asset_id@ && d.authority@ == a.caller@,
                    }) {
                        Some(ErrorCode::Unauthorized)
                    } else if c.balance < f.amount {
                        Some(ErrorCode::InsufficientFunds)
                    } else if (match pre.spec_account(a.destination_id@) {
                        None => 0u64,
                        Some(d) => d.balance,
                    }) > u64::MAX - f.amount {
                        Some(ErrorCode::Overflow)
                    } else {
                        None
                    },
                },
            }
        },
    }
}

/// What a successful redemption leaves behind: the fund records untouched,
/// the custody account debited by exactly the fund's amount, the destination
/// account holding its prior balance plus exactly that amount and bound to
/// the fund's asset and the caller, and nothing else changed.
pub open spec fn redeem_ok_post(pre: Escrow, post: Escrow, a: Redeem) -> bool {
    pre.spec_fund(a.fund_id@) matches Some(f) && {
        &&& post.program_id@ == pre.program_id@
        &&& post.funds@ == pre.funds@
        &&& pre.spec_account(f.custody_account_id@) matches Some(c) && post.spec_account(
            f.custody_account_id@,
        ) matches Some(c1) && c1.mint == c.mint && c1.authority == c.authority && c1.balance
            == c.balance - f.amount && (c.balance == f.amount ==> c1.balance == 0)
        &&& post.spec_account(a.destination_id@) matches Some(d1) && d1.mint@ == f.asset_id@
            && d1.authority@ == a.caller@ && d1.balance == (match pre.spec_account(
            a.destination_id@,
        ) {
            None => 0,
            Some(d) => d.balance,
        }) + f.amount
        &&& forall|k: Seq<u8>|
            k != f.custody_account_id@ && k != a.destination_id@ ==> (
            #[trigger] post.spec_account(k)) == pre.spec_account(k)
    }
}

impl Escrow {
    /// Open a token account at `id`, holding `balance` units of `mint` under
    /// `authority`. This models the surrounding ledger's account-creation and
    /// minting services, by which holder accounts come to exist and be funded
    /// before the escrow's own transitions run; the escrow itself never calls
    /// it.
    pub fn open_account(
        &mut self,
        id: AccountId,
        mint: AccountId,
        authority: AccountId,
        balance: u64,
    ) -> (r: Result<(), ErrorCode>)
        requires
            old(self).wf(),
        ensures
            final(self).wf(),
            final(self).program_id@ == old(self).program_id@,
            final(self).funds@ == old(self).funds@,
            r is Err <==> old(self).spec_account(id@) is Some,
            r matches Err(e) ==> e == ErrorCode::AlreadyExists && final(self).accounts@ == old(
                self,
            ).accounts@,
            r is Ok ==> (final(self).spec_account(id@) matches Some(t) && t.mint == mint
                && t.authority == authority && t.balance == balance),
            r is Ok ==> forall|k: Seq<u8>|
                k != id@ ==> (#[trigger] final(self).spec_account(k)) == old(self).spec_account(k),
    {
        match assoc_index(&self.accounts, &id) {
            Some(_) => Err(ErrorCode::AlreadyExists),
            None => {
                let ghost s0 = self.accounts@;
                let entry = (id, TokenAccount { mint, authority, balance });
                self.accounts.push(entry);
                proof {
                    lemma_assoc_none(s0, id@);
                    assert(unique_keys(self.accounts@));
                    assert forall|k: Seq<u8>| #[trigger]
                        assoc_at(self.accounts@, k) == (if k == id@ {
                            Some(entry.1)
                        } else {
                            assoc_at(s0, k)
                        }) by {
                        lemma_assoc_push(s0, entry, k);
                    }
                }
                Ok(())
            },
        }
    }

    /// Create a fund: derive the record's address from the depositor and the
    /// seed label, refuse a reused seed, derive and open the custody account
    /// under the vault authority, move `amount` units from the depositor's
    /// account into custody, and persist the record. All or nothing: on any
    /// refusal the ledger is exactly as before.
    pub fn create_fund(
        &mut self,
        a: CreateFund,
        seed: Vec<u8>,
        amount: u64,
        unlock_time: u64,
    ) -> (r: Result<AccountId, ErrorCode>)
        requires
            old(self).wf(),
        ensures
            final(self).wf(),
            r is Ok <==> create_error(*old(self), a, seed@, amount) is None,
            r matches Err(e) ==> Some(e) == create_error(*old(self), a, seed@, amount)
                && *final(self) == *old(self),
            r matches Ok(addr) ==> create_ok_post(
                *old(self),
                *final(self),
                a,
                seed@,
                amount,
                unlock_time,
                addr@,
            ),
    {
        let fund_addr = match derive_fund_addr(&self.program_id, &a.depositor, seed) {
            None => {
                return Err(ErrorCode::DerivationFailure);
            },
            Some(p) => p.0,
        };
        match assoc_index(&self.funds, &fund_addr) {
            Some(_) => {
                return Err(ErrorCode::AlreadyExists);
            },
            None => {},
        }
        let custody_addr = match derive_custody_addr(&self.program_id, &fund_addr) {
            None => {
                return Err(ErrorCode::DerivationFailure);
            },
            Some(p) => p.0,
        };
        match assoc_index(&self.accounts, &custody_addr) {
            Some(_) => {
                return Err(ErrorCode::AlreadyExists);
            },
            None => {},
        }
        let vault_authority = match derive_vault_authority(&self.program_id) {
            None => {
                return Err(ErrorCode::DerivationFailure);
            },
            Some(p) => p.0,
        };
        let dep_idx = match assoc_index(&self.accounts, &a.depositor_account_id) {
            None => {
                return Err(ErrorCode::Unauthorized);
            },
            Some(i) => i,
        };
        let dep = self.accounts[dep_idx].1;
        if !id_eq(&dep.mint, &a.asset_id) || !id_eq(&dep.authority, &a.depositor) {
            return Err(ErrorCode::Unauthorized);
        }
        if amount == 0 || dep.balance < amount {
            return Err(ErrorCode::InsufficientFunds);
        }
        let ghost s0 = self.accounts@;
        let ghost f0 = self.funds@;

        // the depositor pays
        let mut dep_entry = self.accounts[dep_idx];
        dep_entry.1.balance = dep_entry.1.balance - amount;
        self.accounts[dep_idx] = dep_entry;
        let ghost s1 = self.accounts@;
        proof {
            assert(forall|idx: int| 0 <= idx < s1.len() ==> s1[idx].0 == s0[idx].0);
            assert(unique_keys(s1));
            assert forall|k: Seq<u8>| #[trigger]
                assoc_at(s1, k) == (if k == a.depositor_account_id@ {
                    Some(dep_entry.1)
                } else {
                    assoc_at(s0, k)
                }) by {
                lemma_assoc_update(s0, dep_idx as int, dep_entry, k);
            }
            // the custody account is fresh, so it is not the depositor's
            assert(custody_addr@ != a.depositor_account_id@);
        }

        // the custody account receives the whole quantity
        let custody_entry = (
            custody_addr,
            TokenAccount { mint: a.asset_id, authority: vault_authority, balance: amount },
        );
        self.accounts.push(custody_entry);
        let ghost s2 = self.accounts@;
        proof {
            lemma_assoc_none(s1, custody_addr@);
            assert(unique_keys(s2));
            assert forall|k: Seq<u8>| #[trigger]
                assoc_at(s2, k) == (if k == custody_addr@ {
                    Some(custody_entry.1)
                } else {
                    assoc_at(s1, k)
                }) by {
                lemma_assoc_push(s1, custody_entry, k);
            }
        }

        // the record is persisted
        let fund_entry = (
            fund_addr,
            Fund {
                asset_id: a.asset_id,
                custody_account_id: custody_addr,
                beneficiary_id: a.beneficiary_id,
                amount,
                unlock_time,
            },
        );
        self.funds.push(fund_entry);
        proof {
            lemma_assoc_none(f0, fund_addr@);
            assert(unique_keys(self.funds@));
            assert forall|k: Seq<u8>| #[trigger]
                assoc_at(self.funds@, k) == (if k == fund_addr@ {
                    Some(fund_entry.1)
                } else {
                    assoc_at(f0, k)
                }) by {
                lemma_assoc_push(f0, fund_entry, k);
            }
        }
        Ok(fund_addr)
    }

    /// Redeem a fund: only its beneficiary, only once the unlock time has
    /// passed, and only out of a custody account still bound to the
    /// re-derived vault authority. Moves the whole recorded amount into the
    /// destination account, opening it on demand; the record itself stays,
    /// and a replay finds the custody account empty. All or nothing: on any
    /// refusal the ledger is exactly as before.
    pub fn redeem(&mut self, a: Redeem, now: u64) -> (r: Result<(), ErrorCode>)
        requires
            old(self).wf(),
        ensures
            final(self).wf(),
            r is Ok <==> redeem_error(*old(self), a, now) is None,
            r matches Err(e) ==> Some(e) == redeem_error(*old(self), a, now) && *final(self)
                == *old(self),
            r is Ok ==> redeem_ok_post(*old(self), *final(self), a),
    {
        let fund = match assoc_index(&self.funds, &a.fund_id) {
            None => {
                return Err(ErrorCode::Unauthorized);
            },
            Some(i) => self.funds[i].1,
        };
        if !id_eq(&a.caller, &fund.beneficiary_id) {
            return Err(ErrorCode::Unauthorized);
        }
        if now < fund.unlock_time {
            return Err(ErrorCode::InsufficientRedeemTime);
        }
        let vault_authority = match derive_vault_authority(&self.program_id) {
            None => {
                return Err(ErrorCode::DerivationFailure);
            },
            Some(p) => p.0,
        };
        let custody_idx = match assoc_index(&self.accounts, &fund.custody_account_id) {
            None => {
                return Err(ErrorCode::Unauthorized);
            },
            Some(i) => i,
        };
        let custody = self.accounts[custody_idx].1;
        if !id_eq(&custody.mint, &fund.asset_id) || !id_eq(&custody.authority, &vault_authority) {
            return Err(ErrorCode::Unauthorized);
        }
        if id_eq(&a.destination_id, &fund.custody_account_id) {
            return Err(ErrorCode::Unauthorized);
        }
        let dest_idx = match assoc_index(&self.accounts, &a.destination_id) {
            None => None,
            Some(i) => {
                let d = self.accounts[i].1;
                if !id_eq(&d.mint, &fund.asset_id) || !id_eq(&d.authority, &a.caller) {
                    return Err(ErrorCode::Unauthorized);
                }
                Some(i)
            },
        };
        let dest_balance: u64 = match dest_idx {
            None => 0,
            Some(i) => self.accounts[i].1.balance,
        };
        if custody.balance < fund.amount {
            return Err(ErrorCode::InsufficientFunds);
        }
        if dest_balance > u64::MAX - fund.amount {
            return Err(ErrorCode::Overflow);
        }
        let ghost s0 = self.accounts@;

        // the custody account is emptied of the fund's amount
        let mut custody_entry = self.accounts[custody_idx];
        custody_entry.1.balance = custody_entry.1.balance - fund.amount;
        self.accounts[custody_idx] = custody_entry;
        let ghost s1 = self.accounts@;
        proof {
            assert(forall|idx: int| 0 <= idx < s1.len() ==> s1[idx].0 == s0[idx].0);
            assert(unique_keys(s1));
            assert forall|k: Seq<u8>| #[trigger]
                assoc_at(s1, k) == (if k == fund.custody_account_id@ {
                    Some(custody_entry.1)
                } else {
                    assoc_at(s0, k)
                }) by {
                lemma_assoc_update(s0, custody_idx as int, custody_entry, k);
            }
        }

        // the destination receives it
        match dest_idx {
            None => {
                let dest_entry = (
                    a.destination_id,
                    TokenAccount { mint: fund.asset_id, authority: a.caller, balance: fund.amount },
                );
                self.accounts.push(dest_entry);
                proof {
                    lemma_assoc_none(s1, a.destination_id@);
                    assert(unique_keys(self.accounts@));
                    assert forall|k: Seq<u8>| #[trigger]
                        assoc_at(self.accounts@, k) == (if k == a.destination_id@ {
                            Some(dest_entry.1)
                        } else {
                            assoc_at(s1, k)
                        }) by {
                        lemma_assoc_push(s1, dest_entry, k);
                    }
                }
            },
            Some(i) => {
                let mut dest_entry = self.accounts[i];
                dest_entry.1.balance = dest_entry.1.balance + fund.amount;
                self.accounts[i] = dest_entry;
                proof {
                    assert(forall|idx: int|
                        0 <= idx < self.accounts@.len() ==> self.accounts@[idx].0 == s1[idx].0);
                    assert(unique_keys(self.accounts@));
                    assert forall|k: Seq<u8>| #[trigger]
                        assoc_at(self.accounts@, k) == (if k == a.destination_id@ {
                            Some(dest_entry.1)
                        } else {
                            assoc_at(s1, k)
                        }) by {
                        lemma_assoc_update(s1, i as int, dest_entry, k);
                    }
                }
            },
        }
        Ok(())
    }

    /// The balance of the token account at `id`, if any.
    pub fn balance_of(&self, id: &AccountId) -> (r: Option<u64>)
        ensures
            r == self.spec_balance(id@),
    {
        match assoc_index(&self.accounts, id) {
            None => None,
            Some(i) => Some(self.accounts[i].1.balance),
        }
    }

    /// The fund record at `id`, if any.
    pub fn fund_record(&self, id: &AccountId) -> (r: Option<Fund>)
        ensures
            r == self.spec_fund(id@),
    {
        match assoc_index(&self.funds, id) {
            None => None,
            Some(i) => Some(self.funds[i].1),
        }
    }
}

/// A seed already used by the same depositor derives the same fund address,
/// so a second creation under it is always refused as a reuse, whatever the
/// amount.
pub proof fn lemma_seed_reuse_rejected(pre: Escrow, a: CreateFund, seed: Seq<u8>, amount: u64)
    ensures
        (fund_addr_of(pre.program_id@, a.depositor@, seed) matches Some(fa) && pre.spec_fund(fa.0)
            is Some) ==> create_error(pre, a, seed, amount) == Some(ErrorCode::AlreadyExists),
{
}

/// Before the unlock time, redemption by the rightful beneficiary is always
/// refused with the recoverable time-gate error, however often it is retried.
pub proof fn lemma_early_redeem_rejected(pre: Escrow, a: Redeem, now: u64)
    ensures
        (pre.spec_fund(a.fund_id@) matches Some(f) && a.caller@ == f.beneficiary_id@ && now
            < f.unlock_time) ==> redeem_error(pre, a, now) == Some(
            ErrorCode::InsufficientRedeemTime,
        ),
{
}

/// A caller other than the fund's beneficiary is always refused, whatever
/// the time.
pub proof fn lemma_wrong_beneficiary_rejected(pre: Escrow, a: Redeem, now: u64)
    ensures
        (pre.spec_fund(a.fund_id@) matches Some(f) && a.caller@ != f.beneficiary_id@)
            ==> redeem_error(pre, a, now) == Some(ErrorCode::Unauthorized),
{
}

/// Once the custody account is empty, no redemption of that fund can succeed
/// any more: every fund locks a positive amount, which an empty custody
/// account cannot cover. Replay after a successful redemption is refused at
/// the transfer.
pub proof fn lemma_replay_rejected(pre: Escrow, a: Redeem, now: u64)
    requires
        pre.wf(),
    ensures
        (pre.spec_fund(a.fund_id@) matches Some(f) && pre.spec_account(f.custody_account_id@)
            matches Some(c) && c.balance == 0) ==> redeem_error(pre, a, now) is Some,
{
}

} // verus!
