use vstd::prelude::*;

verus! {

/// How inbound gossip messages are checked for provenance.
#[derive(Debug, Clone, Copy, PartialEq, Eq, Structural)]
pub enum ValidationMode {
    /// Only messages carrying a valid signature of their claimed source pass.
    Strict,
    /// Unsigned or unverifiable messages pass as well.
    Permissive,
}

/// Whether a message whose signature check gave `signature_valid` passes
/// under `mode`.
pub open spec fn admitted(mode: ValidationMode, signature_valid: bool) -> bool {
    match mode {
        ValidationMode::Strict => signature_valid,
        ValidationMode::Permissive => true,
    }
}

/// Decides whether an inbound message passes validation.
pub fn admits(mode: ValidationMode, signature_valid: bool) -> (r: bool)
    ensures
        r == admitted(mode, signature_valid),
{
    match mode {
        ValidationMode::Strict => signature_valid,
        ValidationMode::Permissive => true,
    }
}

} // verus!
