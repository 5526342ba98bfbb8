//! Identifiers and generations.
use control_plane::ids::{Generation, IdempotencyKey};

#[test]
fn idempotency_key_rejects_blank_values() {
    let error = IdempotencyKey::new("  ").expect_err("blank keys are invalid");

    assert_eq!(error.field(), "IdempotencyKey");
}

#[test]
fn generation_advances_by_one() {
    assert_eq!(Generation::new(41).next(), Generation::new(42));
}
