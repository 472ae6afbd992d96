//! The program's single instruction, `initialize`, and its execution
//! context.

use vstd::prelude::*;
use vstd::string::StringExecFns;
use crate::id::ProgramId;

verus! {

/// The base58 text that the runtime's key type renders 32 key bytes as.
pub uninterp spec fn base58_of(bytes: Seq<u8>) -> Seq<char>;

/// Relies on the `Debug` impl of `anchor_lang::prelude::Pubkey`: it renders
/// the key's 32 bytes as their base58 text, a function of the bytes alone.
#[verifier::external_body]
pub(crate) fn base58_text(bytes: &[u8; 32]) -> (r: String)
    ensures
        r@ == base58_of(bytes@),
{
    let key = anchor_lang::prelude::Pubkey::new_from_array(*bytes);
    format!("{:?}", key)
}

impl ProgramId {
    /// This identifier in its base58 text form.
    pub fn text(&self) -> (r: String)
        ensures
            r@ == base58_of(self@),
    {
        base58_text(&self.bytes)
    }
}

/// The accounts that `initialize` requires: none.
pub struct Initialize {}

/// What the host runtime hands an instruction at call time: the identifier
/// of the program being run, beside the (empty) account list.
pub struct Context {
    pub program_id: ProgramId,
    pub accounts: Initialize,
}

/// The fixed text that opens the log line.
pub open spec fn greeting_prefix() -> Seq<char> {
    "Greetings from: "@
}

/// The log line that an invocation with the given program id emits.
pub open spec fn log_message_of(id_bytes: Seq<u8>) -> Seq<char> {
    greeting_prefix() + base58_of(id_bytes)
}

/// Everything an invocation of `initialize` promises of its result: it
/// succeeds, and the log line it hands back is determined by the program id
/// of the context alone.
pub open spec fn initialize_post(ctx: Context, r: Result<String, ()>) -> bool {
    &&& r is Ok
    &&& (r matches Ok(msg) ==> msg@ == log_message_of(ctx.program_id@))
}

/// The one instruction. It reads no account data, validates nothing and
/// alters nothing (the context is only borrowed); it succeeds on every
/// context, handing back the log line for the runtime to emit. The error
/// type is `()`: no failure mode exists.
pub fn initialize(ctx: &Context) -> (r: Result<String, ()>)
    ensures
        r is Ok,
        initialize_post(*ctx, r),
{
    let id_text = ctx.program_id.text();
    let msg = String::from_str("Greetings from: ").concat(id_text.as_str());
    Ok(msg)
}

/// The log line of any invocation contains the identifier of the program it
/// was invoked with: what follows the fixed prefix is exactly that
/// identifier's base58 text.
pub proof fn lemma_log_contains_id(id_bytes: Seq<u8>)
    ensures
        log_message_of(id_bytes).len() == greeting_prefix().len() + base58_of(id_bytes).len(),
        log_message_of(id_bytes).subrange(
            greeting_prefix().len() as int,
            log_message_of(id_bytes).len() as int,
        ) == base58_of(id_bytes),
{
    assert(log_message_of(id_bytes).subrange(
        greeting_prefix().len() as int,
        log_message_of(id_bytes).len() as int,
    ) =~= base58_of(id_bytes));
}

/// Repeated invocations are indistinguishable in effect: the instruction
/// alters nothing (it only borrows the context, and there is no other
/// state), and any two invocations with the same program id both succeed
/// with the same log line.
pub proof fn lemma_invocations_indistinguishable(
    ctx1: Context,
    ctx2: Context,
    r1: Result<String, ()>,
    r2: Result<String, ()>,
)
    requires
        ctx1.program_id@ == ctx2.program_id@,
        initialize_post(ctx1, r1),
        initialize_post(ctx2, r2),
    ensures
        r1 is Ok,
        r2 is Ok,
        r1->Ok_0@ == r2->Ok_0@,
{
}

} // verus!
