//! Layout of the processor identification register of coprocessor 0.
//!
//! The register encodes vendor, model and revision of the processor that
//! reads it. Only the model field tells the two processors of the platform
//! apart.

use vstd::prelude::*;

verus! {

/// The bits of the identification register that hold the processor model.
pub const MODEL_MASK: u32 = 0xFF00;

/// The model field of the main processor, the one with the vector units.
pub const EE_MODEL: u32 = 0x2E00;

/// The model field of the I/O processor.
pub const IOP_MODEL: u32 = 0x0000;

/// The model field of an identification value: the value with every bit
/// outside [`MODEL_MASK`] cleared.
pub open spec fn model_of(prid: u32) -> u32 {
    prid & MODEL_MASK
}

/// Isolates the model field of an identification value.
pub fn model(prid: u32) -> (field: u32)
    ensures
        field == model_of(prid),
{
    prid & MODEL_MASK
}

/// Masking is idempotent: the model field of a model field is that field.
pub proof fn lemma_model_idempotent(prid: u32)
    ensures
        model_of(model_of(prid)) == model_of(prid),
{
    assert((prid & 0xFF00) & 0xFF00 == prid & 0xFF00) by (bit_vector);
}

} // verus!
