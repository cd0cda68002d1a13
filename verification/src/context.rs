//! The execution context: a simulator instance plus the evolving set of
//! on-chain accounts.
//!
//! The context owns its account mapping outright; every mutation from one
//! executed instruction is visible to the next within the same context,
//! and nothing is shared between contexts. The simulator itself is an
//! external collaborator: the instruction-execution call crosses a
//! trusted boundary, and everything around it — account bookkeeping,
//! registration checks, outcome classification — is verified here.

use vstd::prelude::*;
use vstd::string::*;

use mollusk_svm::result::ProgramResult;

use crate::account::{spec_system_account, AccountSnapshot, AccountState};
use crate::errors::TestContextError;
use crate::identity::Identity;
use crate::instruction::Instruction;

verus! {

/// The simulator type of the mollusk_svm crate, opaque to this crate.
#[verifier::external_type_specification]
#[verifier::external_body]
pub struct ExMollusk(mollusk_svm::Mollusk);

/// A program address of the solana_pubkey crate, opaque to this crate.
#[verifier::external_type_specification]
#[verifier::external_body]
pub struct ExPubkey(solana_pubkey::Pubkey);

/// An account of the solana_account crate, opaque to this crate.
#[verifier::external_type_specification]
#[verifier::external_body]
pub struct ExAccount(solana_account::Account);

/// An account reference of the solana_instruction crate, opaque to this
/// crate.
#[verifier::external_type_specification]
#[verifier::external_body]
pub struct ExAccountMeta(solana_instruction::AccountMeta);

/// What one simulated instruction execution came to.
pub enum SimOutcome {
    /// The program executed successfully; holds the updated states of the
    /// accounts that were handed to the simulator, key for key in order.
    Success(Vec<(Identity, AccountState)>),
    /// The program's own logic rejected the instruction.
    Failure(String),
    /// The simulator could not execute the instruction at all.
    Unknown(String),
}

/// Relies on solana_instruction's `AccountMeta`: converts one account
/// reference of this crate, field for field, into the simulator's.
#[verifier::external_body]
fn to_sim_meta(a: &crate::instruction::AccountRef) -> solana_instruction::AccountMeta {
    solana_instruction::AccountMeta {
        pubkey: solana_pubkey::Pubkey::new_from_array(a.id.bytes),
        is_signer: a.is_signer,
        is_writable: a.is_writable,
    }
}

/// Relies on solana_pubkey's `Pubkey::new_from_array`: converts one keyed
/// account of this crate, field for field, into the simulator's pair.
#[verifier::external_body]
fn to_sim_account(id: &Identity, a: &AccountState) -> (solana_pubkey::Pubkey, solana_account::Account) {
    (
        solana_pubkey::Pubkey::new_from_array(id.bytes),
        solana_account::Account {
            lamports: a.lamports,
            data: a.data.clone(),
            owner: solana_pubkey::Pubkey::new_from_array(a.owner.bytes),
            executable: a.executable,
            rent_epoch: a.rent_epoch,
        },
    )
}

/// Relies on solana_pubkey's `Pubkey::to_bytes`: converts one keyed
/// account of the simulator, field for field, back into this crate's pair.
#[verifier::external_body]
pub(crate) fn from_sim_account(k: solana_pubkey::Pubkey, a: solana_account::Account) -> (Identity, AccountState) {
    (
        Identity { bytes: k.to_bytes() },
        AccountState {
            lamports: a.lamports,
            data: a.data,
            owner: Identity { bytes: a.owner.to_bytes() },
            executable: a.executable,
            rent_epoch: a.rent_epoch,
        },
    )
}

/// Relies on mollusk_svm's `Mollusk::process_instruction`: the resulting
/// accounts are exactly the accounts that were provided, key for key in
/// their original order, with updated state; `Success`, `Failure` and
/// `UnknownError` of its result code distinguish a successful run, a
/// rejection by the program's own logic, and a simulator-level failure.
///
/// The call panics on inputs the `requires` excludes: account compilation
/// panics when an instruction references an account that was not
/// provided; the fallback stub it would build for an unprovided target
/// program consults the program cache and panics when the program is not
/// cached (with the target program provided as an account, that fallback
/// is never constructed); and message compilation counts each privilege
/// category of distinct referenced keys — the target program included —
/// in one byte, panicking on overflow, so at most 254 references keep
/// every category at 255 or fewer.
#[verifier::external_body]
fn simulate(mollusk: &mollusk_svm::Mollusk, instr: &Instruction, accounts: &Vec<(Identity, AccountState)>) -> (r: SimOutcome)
    requires
        spec_accounts_map(accounts@).contains_key(instr.program_id@),
        forall|k: int| 0 <= k < instr.accounts@.len() ==> spec_accounts_map(
            accounts@,
        ).contains_key(#[trigger] instr.accounts@[k].id@),
        instr.accounts@.len() <= 254,
    ensures
        r matches SimOutcome::Success(rs) ==> rs@.len() == accounts@.len() && (forall|i: int|
            0 <= i < rs@.len() ==> rs@[i].0@ == accounts@[i].0@),
{
    let metas = instr.accounts.iter().map(to_sim_meta).collect();
    let pid = solana_pubkey::Pubkey::new_from_array(instr.program_id.bytes);
    let ix = solana_instruction::Instruction::new_with_bytes(pid, &instr.data, metas);
    let accs: Vec<_> = accounts.iter().map(|(i, a)| to_sim_account(i, a)).collect();
    let res = mollusk.process_instruction(&ix, &accs);
    match res.program_result {
        ProgramResult::Success => SimOutcome::Success(
            res.resulting_accounts.into_iter().map(|(k, a)| from_sim_account(k, a)).collect(),
        ),
        ProgramResult::Failure(e) => SimOutcome::Failure(format!("{}", e)),
        ProgramResult::UnknownError(e) => SimOutcome::Unknown(format!("{:?}", e)),
    }
}

/// Relies on solana_pubkey's `Pubkey::new_unique`: a 32-byte identifier
/// meant to be distinct within the process; nothing more is assumed of
/// its value.
#[verifier::external_body]
fn fresh_identity() -> Identity {
    Identity { bytes: solana_pubkey::Pubkey::new_unique().to_bytes() }
}

/// Classify one simulator outcome into the context's error taxonomy: a
/// rejection by the program's own logic is an `ExecutionError`, and a
/// simulator-level failure a `ContextError`.
pub fn classify_sim_outcome(out: SimOutcome) -> (r: Result<(), TestContextError>)
    ensures
        out is Success <==> r is Ok,
        out is Failure ==> r == Err::<(), TestContextError>(
            TestContextError::ExecutionError(out->Failure_0),
        ),
        out is Unknown ==> r == Err::<(), TestContextError>(
            TestContextError::ContextError(out->Unknown_0),
        ),
{
    match out {
        SimOutcome::Success(_) => Ok(()),
        SimOutcome::Failure(m) => Err(TestContextError::ExecutionError(m)),
        SimOutcome::Unknown(m) => Err(TestContextError::ContextError(m)),
    }
}

/// Whether no two entries of an account table share a key.
pub open spec fn spec_unique_keys(s: Seq<(Identity, AccountState)>) -> bool {
    forall|i: int, j: int| 0 <= i < j < s.len() ==> s[i].0@ != s[j].0@
}

/// The mapping an account table denotes, later entries overriding earlier
/// ones.
pub open spec fn spec_accounts_map(s: Seq<(Identity, AccountState)>) -> Map<
    Seq<u8>,
    AccountSnapshot,
>
    decreases s.len(),
{
    if s.len() == 0 {
        Map::empty()
    } else {
        spec_accounts_map(s.drop_last()).insert(s.last().0@, s.last().1@)
    }
}

proof fn lemma_accounts_map_contains(s: Seq<(Identity, AccountState)>, k: Seq<u8>)
    ensures
        spec_accounts_map(s).contains_key(k) <==> (exists|i: int|
            0 <= i < s.len() && s[i].0@ == k),
    decreases s.len(),
{
    if s.len() > 0 {
        lemma_accounts_map_contains(s.drop_last(), k);
        if s.last().0@ == k {
            assert(s[s.len() - 1].0@ == k);
        } else if spec_accounts_map(s).contains_key(k) {
            let i = choose|i: int| 0 <= i < s.drop_last().len() && s.drop_last()[i].0@ == k;
            assert(s[i].0@ == k);
        } else {
            assert(forall|i: int| 0 <= i < s.len() - 1 ==> s.drop_last()[i] == s[i]);
        }
    }
}

proof fn lemma_accounts_map_update(
    s: Seq<(Identity, AccountState)>,
    i: int,
    id: Identity,
    a: AccountState,
)
    requires
        spec_unique_keys(s),
        0 <= i < s.len(),
        s[i].0@ == id@,
    ensures
        spec_accounts_map(s.update(i, (id, a))) == spec_accounts_map(s).insert(id@, a@),
    decreases s.len(),
{
    let t = s.update(i, (id, a));
    if i == s.len() - 1 {
        assert(t.drop_last() =~= s.drop_last());
        assert(spec_accounts_map(t) =~= spec_accounts_map(s).insert(id@, a@));
    } else {
        assert(t.drop_last() =~= s.drop_last().update(i, (id, a)));
        lemma_accounts_map_update(s.drop_last(), i, id, a);
        assert(s.last().0@ != id@);
        assert(t.last() == s.last());
        assert(spec_accounts_map(t) =~= spec_accounts_map(s).insert(id@, a@));
    }
}

proof fn lemma_accounts_map_same_keys(
    s1: Seq<(Identity, AccountState)>,
    s2: Seq<(Identity, AccountState)>,
)
    requires
        s1.len() == s2.len(),
        forall|i: int| 0 <= i < s1.len() ==> s1[i].0@ == s2[i].0@,
    ensures
        spec_accounts_map(s1).dom() == spec_accounts_map(s2).dom(),
{
    assert forall|k: Seq<u8>|
        spec_accounts_map(s1).contains_key(k) <==> spec_accounts_map(s2).contains_key(k) by {
        lemma_accounts_map_contains(s1, k);
        lemma_accounts_map_contains(s2, k);
    }
    assert(spec_accounts_map(s1).dom() =~= spec_accounts_map(s2).dom());
}

/// A simulator instance together with the account state it runs against.
pub struct LendingTestContext {
    /// The simulator handle.
    pub mollusk: mollusk_svm::Mollusk,
    /// The identity of the learner's program under test.
    pub program_id: Identity,
    /// The accounts the simulator runs against, keyed by identity.
    pub accounts: Vec<(Identity, AccountState)>,
}

impl LendingTestContext {
    /// The context's well-formedness: account keys are unique.
    pub open spec fn wf(&self) -> bool {
        spec_unique_keys(self.accounts@)
    }

    /// The account mapping the context currently holds.
    pub open spec fn accounts_map(&self) -> Map<Seq<u8>, AccountSnapshot> {
        spec_accounts_map(self.accounts@)
    }

    /// Wrap a simulator instance for the given program identity, with no
    /// accounts registered yet.
    pub fn new(mollusk: mollusk_svm::Mollusk, program_id: Identity) -> (r: Result<
        LendingTestContext,
        TestContextError,
    >)
        ensures
            r matches Ok(c) && c.wf() && c.program_id == program_id && c.accounts_map()
                == Map::<Seq<u8>, AccountSnapshot>::empty(),
    {
        Ok(LendingTestContext { mollusk, program_id, accounts: Vec::new() })
    }

    /// The identity of the program under test.
    pub fn program_id(&self) -> (r: Identity)
        ensures
            r == self.program_id,
    {
        self.program_id
    }

    /// The index of an account in the table, if it is registered.
    fn find_index(&self, id: &Identity) -> (r: Option<usize>)
        ensures
            r matches Some(i) ==> i < self.accounts@.len() && self.accounts@[i as int].0@ == id@,
            r is None ==> forall|j: int| 0 <= j < self.accounts@.len() ==> self.accounts@[j].0@
                != id@,
    {
        let n = self.accounts.len();
        let mut i: usize = 0;
        while i < n
            invariant
                0 <= i <= n,
                n == self.accounts@.len(),
                forall|j: int| 0 <= j < i ==> self.accounts@[j].0@ != id@,
            decreases n - i,
        {
            if self.accounts[i].0.same_as(id) {
                return Some(i);
            }
            i += 1;
        }
        None
    }

    /// Whether the given identity is registered in the account table.
    pub fn has_account(&self, id: &Identity) -> (r: bool)
        ensures
            r <==> self.accounts_map().contains_key(id@),
    {
        proof {
            lemma_accounts_map_contains(self.accounts@, id@);
        }
        self.find_index(id).is_some()
    }

    /// Insert or overwrite one account.
    pub fn add_account(&mut self, id: Identity, account: AccountState)
        requires
            old(self).wf(),
        ensures
            final(self).wf(),
            final(self).program_id == old(self).program_id,
            final(self).accounts_map() == old(self).accounts_map().insert(id@, account@),
    {
        match self.find_index(&id) {
            Some(i) => {
                proof {
                    lemma_accounts_map_update(self.accounts@, i as int, id, account);
                }
                self.accounts.set(i, (id, account));
            },
            None => {
                proof {
                    assert(self.accounts@.push((id, account)).drop_last() =~= self.accounts@);
                }
                self.accounts.push((id, account));
            },
        }
    }

    /// Generate a fresh identity and register a funded, system-owned
    /// account under it.
    pub fn create_funded_account(&mut self, lamports: u64) -> (r: Identity)
        requires
            old(self).wf(),
        ensures
            final(self).wf(),
            final(self).program_id == old(self).program_id,
            final(self).accounts_map() == old(self).accounts_map().insert(
                r@,
                spec_system_account(lamports),
            ),
    {
        let id = fresh_identity();
        self.add_account(id, crate::account::create_system_account(lamports));
        id
    }

    /// Whether every account the instruction references is registered.
    fn all_registered(&self, instr: &Instruction) -> (r: bool)
        ensures
            r <==> (forall|k: int| 0 <= k < instr.accounts@.len() ==> self.accounts_map().contains_key(
                #[trigger] instr.accounts@[k].id@,
            )),
    {
        let n = instr.accounts.len();
        let mut k: usize = 0;
        while k < n
            invariant
                0 <= k <= n,
                n == instr.accounts@.len(),
                forall|j: int| 0 <= j < k ==> self.accounts_map().contains_key(
                    #[trigger] instr.accounts@[j].id@,
                ),
            decreases n - k,
        {
            if !self.has_account(&instr.accounts[k].id) {
                return false;
            }
            k += 1;
        }
        true
    }

    /// Whether the context admits an instruction: every referenced
    /// account is registered, the target program is registered as an
    /// account, and the reference list fits the simulator's byte-sized
    /// privilege counts.
    pub open spec fn spec_admits(&self, instr: Instruction) -> bool {
        &&& forall|k: int| 0 <= k < instr.accounts@.len() ==> self.accounts_map().contains_key(
            #[trigger] instr.accounts@[k].id@,
        )
        &&& self.accounts_map().contains_key(instr.program_id@)
        &&& instr.accounts@.len() <= 254
    }

    /// Decide whether an instruction may be handed to the simulator, and
    /// name what is wrong with one that may not.
    pub fn check_instruction_admitted(&self, instr: &Instruction) -> (r: Result<
        (),
        TestContextError,
    >)
        ensures
            r is Ok <==> self.spec_admits(*instr),
            !(forall|k: int| 0 <= k < instr.accounts@.len() ==> self.accounts_map().contains_key(
                #[trigger] instr.accounts@[k].id@,
            )) ==> (r matches Err(TestContextError::ContextError(m)) && m@
                == "instruction references an unregistered account"@),
            (forall|k: int| 0 <= k < instr.accounts@.len() ==> self.accounts_map().contains_key(
                #[trigger] instr.accounts@[k].id@,
            )) && !self.accounts_map().contains_key(instr.program_id@) ==> (r matches Err(
                TestContextError::ContextError(m),
            ) && m@ == "instruction targets an unregistered program"@),
            (forall|k: int| 0 <= k < instr.accounts@.len() ==> self.accounts_map().contains_key(
                #[trigger] instr.accounts@[k].id@,
            )) && self.accounts_map().contains_key(instr.program_id@) && instr.accounts@.len()
                > 254 ==> (r matches Err(TestContextError::ContextError(m)) && m@
                == "instruction references too many accounts"@),
    {
        if !self.all_registered(instr) {
            return Err(
                TestContextError::ContextError(
                    String::from_str("instruction references an unregistered account"),
                ),
            );
        }
        if !self.has_account(&instr.program_id) {
            return Err(
                TestContextError::ContextError(
                    String::from_str("instruction targets an unregistered program"),
                ),
            );
        }
        if instr.accounts.len() > 254 {
            return Err(
                TestContextError::ContextError(
                    String::from_str("instruction references too many accounts"),
                ),
            );
        }
        Ok(())
    }

    /// Run one instruction against the simulator and classify the result.
    ///
    /// An instruction the context does not admit — one referencing an
    /// unregistered account, targeting a program not registered as an
    /// account, or referencing too many accounts — is rejected as a
    /// context-level error before the simulator is consulted. A rejection
    /// by the program's own logic surfaces as `ExecutionError`; any other
    /// simulator failure as `ContextError`. Only a successful run commits
    /// account mutations, and a committed run touches no account identity
    /// that was not already registered.
    pub fn execute_instruction(&mut self, instr: &Instruction) -> (r: Result<
        (),
        TestContextError,
    >)
        requires
            old(self).wf(),
        ensures
            final(self).wf(),
            final(self).program_id == old(self).program_id,
            !(forall|k: int| 0 <= k < instr.accounts@.len() ==> old(self).accounts_map().contains_key(
                #[trigger] instr.accounts@[k].id@,
            )) ==> (r matches Err(TestContextError::ContextError(m)) && m@
                == "instruction references an unregistered account"@ && final(self).accounts_map()
                == old(self).accounts_map()),
            (forall|k: int| 0 <= k < instr.accounts@.len() ==> old(self).accounts_map().contains_key(
                #[trigger] instr.accounts@[k].id@,
            )) && !old(self).accounts_map().contains_key(instr.program_id@) ==> (r matches Err(
                TestContextError::ContextError(m),
            ) && m@ == "instruction targets an unregistered program"@
                && final(self).accounts_map() == old(self).accounts_map()),
            (forall|k: int| 0 <= k < instr.accounts@.len() ==> old(self).accounts_map().contains_key(
                #[trigger] instr.accounts@[k].id@,
            )) && old(self).accounts_map().contains_key(instr.program_id@)
                && instr.accounts@.len() > 254 ==> (r matches Err(TestContextError::ContextError(m))
                && m@ == "instruction references too many accounts"@
                && final(self).accounts_map() == old(self).accounts_map()),
            r is Err ==> final(self).accounts_map() == old(self).accounts_map(),
            r is Ok ==> final(self).accounts_map().dom() == old(self).accounts_map().dom(),
    {
        match self.check_instruction_admitted(instr) {
            Err(e) => {
                return Err(e);
            },
            Ok(()) => {},
        }
        match simulate(&self.mollusk, instr, &self.accounts) {
            SimOutcome::Success(updated) => {
                proof {
                    lemma_accounts_map_same_keys(self.accounts@, updated@);
                    assert forall|i: int, j: int| 0 <= i < j < updated@.len() implies updated@[i].0@
                        != updated@[j].0@ by {
                        assert(self.accounts@[i].0@ != self.accounts@[j].0@);
                    }
                }
                self.accounts = updated;
                Ok(())
            },
            other => classify_sim_outcome(other),
        }
    }
}

/// Initialize a test context from a simulator instance that already holds
/// the learner's program, together with the program's identity.
pub fn init_test_context(mollusk: mollusk_svm::Mollusk, program_id: Identity) -> (r: Result<
    LendingTestContext,
    TestContextError,
>)
    ensures
        r matches Ok(c) && c.wf() && c.program_id == program_id && c.accounts_map() == Map::<
            Seq<u8>,
            AccountSnapshot,
        >::empty(),
{
    LendingTestContext::new(mollusk, program_id)
}

} // verus!
