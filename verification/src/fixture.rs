//! The test fixture behind the shared "initialize" smoke test.
//!
//! A fixture wraps a ready-to-use execution context: the three auxiliary
//! programs nearly every lending operation needs (the base system
//! program, the fungible-token program and the associated-account
//! program) are registered, and one generously funded actor account is
//! created. The canonical zero-argument "initialize" instruction is then
//! executed as a smoke test: outright success and a rejection by the
//! submission's own logic both count as passing, while any structural or
//! simulator-level failure is surfaced verbatim.

use vstd::prelude::*;

use crate::account::{spec_system_account, AccountSnapshot, AccountState};
use crate::context::{from_sim_account, init_test_context, LendingTestContext};
use crate::errors::{CaseError, TestContextError};
use crate::identity::{spec_default_identity, system_program_identity, Identity};
use crate::instruction::{
    build_initialize_data, create_lending_instruction, spec_initialize_data, AccountRef,
    Instruction,
};

verus! {

/// The identity of the fungible-token program.
pub open spec fn spec_token_program_identity() -> Seq<u8> {
    seq![
        6u8, 221u8, 246u8, 225u8, 215u8, 101u8, 161u8, 147u8, 217u8, 203u8, 225u8, 70u8, 206u8,
        235u8, 121u8, 172u8, 28u8, 180u8, 133u8, 237u8, 95u8, 91u8, 55u8, 145u8, 58u8, 140u8,
        245u8, 133u8, 126u8, 255u8, 0u8, 169u8,
    ]
}

/// The identity of the associated-account-derivation program.
pub open spec fn spec_associated_token_program_identity() -> Seq<u8> {
    seq![
        140u8, 151u8, 37u8, 143u8, 78u8, 36u8, 137u8, 241u8, 187u8, 61u8, 16u8, 41u8, 20u8, 142u8,
        13u8, 131u8, 11u8, 90u8, 19u8, 153u8, 218u8, 255u8, 16u8, 132u8, 4u8, 142u8, 123u8, 216u8,
        219u8, 233u8, 248u8, 89u8,
    ]
}

/// The lamport balance of the fixture's actor account: generous enough
/// that no stage can plausibly exhaust it.
pub open spec fn spec_actor_funding() -> u64 {
    1_000_000_000u64
}

/// Relies on mollusk_svm's `create_program_account_loader_v3`: an
/// executable program account for the given identity, shaped as the
/// simulator's default loader represents a loaded program.
#[verifier::external_body]
fn program_keyed_account(id: &Identity) -> (r: AccountState)
    ensures
        r@.executable,
{
    let key = solana_pubkey::Pubkey::new_from_array(id.bytes);
    let account = mollusk_svm::program::create_program_account_loader_v3(&key);
    from_sim_account(key, account).1
}

/// Relies on mollusk_svm's `keyed_account_for_system_program`: the key is
/// the base system program's all-zero identity and the account is an
/// executable builtin-program account.
#[verifier::external_body]
fn system_keyed_account() -> (r: (Identity, AccountState))
    ensures
        r.0@ == spec_default_identity(),
        r.1@.executable,
{
    let (k, a) = mollusk_svm::program::keyed_account_for_system_program();
    from_sim_account(k, a)
}

/// Relies on mollusk_svm_programs_token's `token::keyed_account`: the key
/// is the fungible-token program's well-known identity and the account is
/// an executable program account holding the program's code.
#[verifier::external_body]
fn token_keyed_account() -> (r: (Identity, AccountState))
    ensures
        r.0@ == spec_token_program_identity(),
        r.1@.executable,
{
    let (k, a) = mollusk_svm_programs_token::token::keyed_account();
    from_sim_account(k, a)
}

/// Relies on mollusk_svm_programs_token's `associated_token::keyed_account`:
/// the key is the associated-account program's well-known identity and
/// the account is an executable program account holding its code.
#[verifier::external_body]
fn associated_token_keyed_account() -> (r: (Identity, AccountState))
    ensures
        r.0@ == spec_associated_token_program_identity(),
        r.1@.executable,
{
    let (k, a) = mollusk_svm_programs_token::associated_token::keyed_account();
    from_sim_account(k, a)
}

/// A ready-to-use context for smoke-testing the learner's program.
pub struct LendingFixture {
    /// The execution context the fixture drives.
    pub context: LendingTestContext,
    /// The identity of the learner's program under test.
    pub program_id: Identity,
    /// The funded actor that signs the canonical initialize call.
    pub user: Identity,
    /// The fungible-token program's identity.
    pub token_program: Identity,
    /// The associated-account program's identity.
    pub associated_token_program: Identity,
}

/// What a freshly built default fixture holds: exactly a program account
/// for the program under test, the three auxiliary program accounts, and
/// one funded actor account, nothing else.
pub open spec fn spec_default_fixture(f: LendingFixture, program_id: Identity) -> bool {
    &&& f.context.wf()
    &&& f.program_id == program_id
    &&& f.context.program_id == program_id
    &&& f.token_program@ == spec_token_program_identity()
    &&& f.associated_token_program@ == spec_associated_token_program_identity()
    &&& exists|
        prog_a: AccountSnapshot,
        sys_a: AccountSnapshot,
        tok_a: AccountSnapshot,
        atok_a: AccountSnapshot,
    |
        #![all_triggers]
        prog_a.executable && sys_a.executable && tok_a.executable && atok_a.executable
            && f.context.accounts_map() == Map::<Seq<u8>, AccountSnapshot>::empty().insert(
            program_id@,
            prog_a,
        ).insert(spec_default_identity(), sys_a).insert(
            spec_token_program_identity(),
            tok_a,
        ).insert(spec_associated_token_program_identity(), atok_a).insert(
            f.user@,
            spec_system_account(spec_actor_funding()),
        )
}

impl LendingFixture {
    /// Build the default fixture: wrap the simulator in a fresh context,
    /// register a program account for the program under test and the
    /// three auxiliary programs, and fund one actor.
    pub fn new_default(mollusk: mollusk_svm::Mollusk, program_id: Identity) -> (r: Result<
        LendingFixture,
        TestContextError,
    >)
        ensures
            r matches Ok(f) && spec_default_fixture(f, program_id),
    {
        let mut context = init_test_context(mollusk, program_id)?;

        let program_account = program_keyed_account(&program_id);
        context.add_account(program_id, program_account);

        let (system_program_id, system_program_account) = system_keyed_account();
        context.add_account(system_program_id, system_program_account);

        let (token_program_id, token_program_account) = token_keyed_account();
        context.add_account(token_program_id, token_program_account);

        let (associated_program_id, associated_program_account) = associated_token_keyed_account();
        context.add_account(associated_program_id, associated_program_account);

        let user = context.create_funded_account(1_000_000_000);

        let f = LendingFixture {
            context,
            program_id,
            user,
            token_program: token_program_id,
            associated_token_program: associated_program_id,
        };
        proof {
            assert(spec_default_fixture(f, program_id)) by {
                assert(program_account@.executable && system_program_account@.executable
                    && token_program_account@.executable && associated_program_account@.executable
                    && f.context.accounts_map() == Map::<Seq<u8>, AccountSnapshot>::empty().insert(
                    program_id@,
                    program_account@,
                ).insert(spec_default_identity(), system_program_account@).insert(
                    spec_token_program_identity(),
                    token_program_account@,
                ).insert(spec_associated_token_program_identity(), associated_program_account@)
                    .insert(f.user@, spec_system_account(spec_actor_funding())));
            }
        }
        Ok(f)
    }

    /// The canonical zero-argument "initialize" call: addressed to the
    /// learner's program, carrying the initialize discriminator, signed
    /// by the funded actor, referencing the system program read-only.
    pub fn initialize_instruction(&self) -> (r: Instruction)
        ensures
            r.program_id == self.program_id,
            r.data@ == spec_initialize_data(),
            r.accounts@.len() == 2,
            r.accounts@[0].id == self.user,
            r.accounts@[0].is_signer,
            r.accounts@[0].is_writable,
            r.accounts@[1].id@ == spec_default_identity(),
            !r.accounts@[1].is_signer,
            !r.accounts@[1].is_writable,
    {
        let data = build_initialize_data();
        let mut accounts: Vec<AccountRef> = Vec::new();
        accounts.push(AccountRef { id: self.user, is_signer: true, is_writable: true });
        accounts.push(
            AccountRef { id: system_program_identity(), is_signer: false, is_writable: false },
        );
        create_lending_instruction(self.program_id, data, accounts)
    }

    /// Execute the canonical initialize instruction against the context.
    pub fn execute_initialize(&mut self) -> (r: Result<(), TestContextError>)
        requires
            old(self).context.wf(),
        ensures
            final(self).context.wf(),
            final(self).program_id == old(self).program_id,
            final(self).user == old(self).user,
            r is Err ==> final(self).context.accounts_map() == old(self).context.accounts_map(),
            r is Ok ==> final(self).context.accounts_map().dom() == old(
                self,
            ).context.accounts_map().dom(),
    {
        let instruction = self.initialize_instruction();
        self.context.execute_instruction(&instruction)
    }
}

/// Whether smoke-test stages accept an execution outcome: success and a
/// rejection by the submission's own logic both pass.
pub open spec fn spec_smoke_accepts(r: Result<(), TestContextError>) -> bool {
    match r {
        Ok(()) => true,
        Err(TestContextError::ExecutionError(_)) => true,
        Err(_) => false,
    }
}

/// Classify one execution outcome the way smoke-test stages do.
///
/// An `ExecutionError` — the submission's own logic rejecting the call —
/// is an acceptable, non-fatal outcome: these stages only ask whether an
/// initialize-style operation exists and does not break the simulator.
/// Every other error is surfaced verbatim through the uniform channel.
pub fn classify_smoke_outcome(r: Result<(), TestContextError>) -> (c: Result<(), CaseError>)
    ensures
        c is Ok <==> spec_smoke_accepts(r),
        r is Err && !(r->Err_0 is ExecutionError) ==> c == Err::<(), CaseError>(CaseError::Context(r->Err_0)),
{
    match r {
        Ok(()) => Ok(()),
        Err(TestContextError::ExecutionError(_)) => Ok(()),
        Err(e) => Err(CaseError::Context(e)),
    }
}

/// Build-and-run of the shared smoke test, starting from the outcome of
/// fixture construction: a construction failure is surfaced verbatim;
/// otherwise the canonical initialize call is executed and classified.
pub fn run_initialize_smoke(built: Result<LendingFixture, TestContextError>) -> (r: Result<
    (),
    CaseError,
>)
    requires
        built matches Ok(f) ==> f.context.wf(),
    ensures
        built is Err ==> r == Err::<(), CaseError>(CaseError::Context(built->Err_0)),
        built is Ok && r is Err ==> (r->Err_0 matches CaseError::Context(e) && !(
        e is ExecutionError)),
{
    match built {
        Err(e) => Err(CaseError::Context(e)),
        Ok(mut fixture) => classify_smoke_outcome(fixture.execute_initialize()),
    }
}

/// Law: a stub program that always rejects its initialize call with a
/// logic error still passes the smoke test.
pub proof fn lemma_smoke_accepts_execution_error(m: String)
    ensures
        spec_smoke_accepts(Err(TestContextError::ExecutionError(m))),
{
}

/// Law: a context-level failure — an unregistered account, a malformed
/// instruction, a simulator-internal error — fails the smoke test.
pub proof fn lemma_smoke_rejects_context_error(m: String)
    ensures
        !spec_smoke_accepts(Err(TestContextError::ContextError(m))),
{
}

/// Law: fixtures built from identical inputs are independent. Each holds
/// accounts at exactly the program under test, the three auxiliary
/// program identities, and its own fresh actor; the actor accounts hold
/// the same funded state; and apart from the two actors, the two
/// fixtures register exactly the same identities — no state leaks from
/// one instance into the other.
pub proof fn lemma_fixture_isolation(f1: LendingFixture, f2: LendingFixture, program_id: Identity)
    requires
        spec_default_fixture(f1, program_id),
        spec_default_fixture(f2, program_id),
    ensures
        f1.context.accounts_map().dom() == Set::<Seq<u8>>::empty().insert(program_id@).insert(
            spec_default_identity(),
        ).insert(spec_token_program_identity()).insert(
            spec_associated_token_program_identity(),
        ).insert(f1.user@),
        f2.context.accounts_map().dom() == Set::<Seq<u8>>::empty().insert(program_id@).insert(
            spec_default_identity(),
        ).insert(spec_token_program_identity()).insert(
            spec_associated_token_program_identity(),
        ).insert(f2.user@),
        f1.context.accounts_map()[f1.user@] == spec_system_account(spec_actor_funding()),
        f2.context.accounts_map()[f2.user@] == spec_system_account(spec_actor_funding()),
        forall|k: Seq<u8>|
            k != f1.user@ && k != f2.user@ ==> (f1.context.accounts_map().contains_key(k)
                <==> f2.context.accounts_map().contains_key(k)),
{
    assert(f1.context.accounts_map().dom() =~= Set::<Seq<u8>>::empty().insert(
        program_id@,
    ).insert(spec_default_identity()).insert(spec_token_program_identity()).insert(
        spec_associated_token_program_identity(),
    ).insert(f1.user@));
    assert(f2.context.accounts_map().dom() =~= Set::<Seq<u8>>::empty().insert(
        program_id@,
    ).insert(spec_default_identity()).insert(spec_token_program_identity()).insert(
        spec_associated_token_program_identity(),
    ).insert(f2.user@));
}

} // verus!
