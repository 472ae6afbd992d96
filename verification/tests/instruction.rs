use solana::id::{declared_id, declared_id_text, ProgramId};
use solana::instruction::{initialize, Context, Initialize};

fn context_with(bytes: [u8; 32]) -> Context {
    Context { program_id: ProgramId { bytes }, accounts: Initialize {} }
}

#[test]
fn initialize_succeeds_with_declared_id() {
    let ctx = Context { program_id: declared_id(), accounts: Initialize {} };
    let r = initialize(&ctx);
    assert_eq!(
        r,
        Ok("Greetings from: 3o24BJPniXvoYR2YU4vTuJkuk6Th6b7G2TPQPykP4qci".to_string())
    );
}

#[test]
fn log_line_contains_declared_id_text() {
    let ctx = Context { program_id: declared_id(), accounts: Initialize {} };
    let msg = initialize(&ctx).unwrap();
    assert!(msg.contains(declared_id_text().as_str()));
}

#[test]
fn declared_id_constants_agree() {
    assert_eq!(declared_id().text(), declared_id_text());
}

#[test]
fn repeated_invocations_indistinguishable() {
    let ctx = Context { program_id: declared_id(), accounts: Initialize {} };
    let first = initialize(&ctx);
    let second = initialize(&ctx);
    assert!(first.is_ok());
    assert_eq!(first, second);
}

#[test]
fn initialize_succeeds_with_any_id() {
    let ctx = context_with([0u8; 32]);
    let r = initialize(&ctx);
    assert_eq!(
        r,
        Ok("Greetings from: 11111111111111111111111111111111".to_string())
    );
}

#[test]
fn id_text_matches_runtime_rendering() {
    let mut bytes = [0u8; 32];
    for (i, b) in bytes.iter_mut().enumerate() {
        *b = i as u8;
    }
    let key = anchor_lang::prelude::Pubkey::new_from_array(bytes);
    let id = ProgramId { bytes };
    assert_eq!(id.text(), format!("{:?}", key));
}
