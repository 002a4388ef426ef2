use vstd::prelude::*;

verus! {

/// The kind of trusted execution environment evidence comes from.
///
/// The kind is advisory metadata attached to a response; an unknown wire code
/// therefore falls back to `Plain` instead of failing the call.
#[derive(Clone, Copy, Debug, PartialEq, Eq, Structural)]
pub enum TeeType {
    Plain,
    Tpm,
    Tdx,
    Sev,
    Cca,
}

/// The closed table from wire codes to TEE kinds: -1 maps to plain, 0 to TPM,
/// 1 to TDX, 2 to SEV, 3 to CCA, and every other code falls back to plain.
pub open spec fn spec_tee_type_of(code: int) -> TeeType {
    if code == -1 {
        TeeType::Plain
    } else if code == 0 {
        TeeType::Tpm
    } else if code == 1 {
        TeeType::Tdx
    } else if code == 2 {
        TeeType::Sev
    } else if code == 3 {
        TeeType::Cca
    } else {
        TeeType::Plain
    }
}

} // verus!
