//! The boot decision: from an identification value to the processor whose
//! setup takes over, or to the refusal to go on.

use vstd::prelude::*;
use crate::cop0::{model, model_of, EE_MODEL, IOP_MODEL};

verus! {

/// The processor whose setup a boot hands control to.
#[derive(Clone, Copy, Debug, PartialEq, Eq, Structural)]
pub enum BootTarget {
    /// The main processor with its vector units.
    Primary,
    /// The I/O processor.
    Secondary,
}

/// Why a boot cannot go on.
#[derive(Clone, Copy, Debug, PartialEq, Eq, Structural)]
pub enum BootError {
    /// The model field belongs to neither processor of the platform.
    UnrecognizedProcessor,
}

/// Entry of the main processor's setup. No setup work is defined yet: the
/// routine only reports whose setup control has reached. The caller hands
/// control to that processor and does not expect it back.
pub fn ee_setup() -> (entered: BootTarget)
    ensures
        entered == BootTarget::Primary,
{
    BootTarget::Primary
}

/// Entry of the I/O processor's setup. No setup work is defined yet: the
/// routine only reports whose setup control has reached. The caller hands
/// control to that processor and does not expect it back.
pub fn iop_setup() -> (entered: BootTarget)
    ensures
        entered == BootTarget::Secondary,
{
    BootTarget::Secondary
}

/// The decision of the boot entry. From the identification value that the
/// running processor reported it finds the processor's setup and enters it;
/// the result is what that setup reports. The decision rests on the model
/// field alone: no other bit of the value changes it.
///
/// A value with the main processor's model gives [`BootTarget::Primary`], one
/// with the I/O processor's model gives [`BootTarget::Secondary`], and every
/// other value is refused with [`BootError::UnrecognizedProcessor`]: on such
/// a processor no setup may run, and the caller has to stop for good.
pub fn _start(prid: u32) -> (decision: Result<BootTarget, BootError>)
    ensures
        model_of(prid) == EE_MODEL ==> decision === Ok(BootTarget::Primary),
        model_of(prid) == IOP_MODEL ==> decision === Ok(BootTarget::Secondary),
        model_of(prid) != EE_MODEL && model_of(prid) != IOP_MODEL ==> decision === Err(
            BootError::UnrecognizedProcessor,
        ),
{
    let field: u32 = model(prid);
    if field == EE_MODEL {
        Ok(ee_setup())
    } else if field == IOP_MODEL {
        Ok(iop_setup())
    } else {
        Err(BootError::UnrecognizedProcessor)
    }
}

} // verus!
