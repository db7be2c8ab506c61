//! What the prover asks of its parameter file before it trusts it.
use vstd::prelude::*;
use crate::digest::digest_matches;
use crate::digest::sha256_digest;

verus! {

/// The size parameter that the circuit needs at least.
pub const REQUIRED_K: u32 = 17;

/// The number of group elements that parameters of size `REQUIRED_K` hold.
pub const REQUIRED_G1_ELEMENTS: usize = 131073;

/// Why a parameter file is not used.
#[derive(Clone, Copy, Debug, PartialEq, Eq)]
pub enum SrsError {
    /// There is no parameter file.
    NotFound,
    /// The file does not have the digest recorded for it.
    IntegrityFailure,
    /// The parameters do not fit the circuit.
    Incompatible,
}

/// The parameters fit the circuit: they are large enough, they hold the
/// elements of the second group, and they hold exactly the elements of the
/// first group that the size calls for.
pub open spec fn srs_compatible(k: u32, has_g2: bool, g1_elements: usize) -> bool {
    k >= REQUIRED_K && has_g2 && g1_elements == REQUIRED_G1_ELEMENTS
}

/// Whether parameters with the given features fit the circuit.
pub fn verify_srs_compatibility(k: u32, has_g2: bool, g1_elements: usize) -> (r: bool)
    ensures
        r == srs_compatible(k, has_g2, g1_elements),
{
    if k < REQUIRED_K {
        return false;
    }
    if !has_g2 {
        return false;
    }
    if g1_elements != REQUIRED_G1_ELEMENTS {
        return false;
    }
    true
}

/// Whether the parameter file may be read: it must exist, and where a
/// digest is recorded for it, it must have that digest.
pub fn check_srs_file(srs: Option<&[u8]>, stored_hash: Option<&[u8]>) -> (r: Result<(), SrsError>)
    ensures
        srs is None ==> r == Err::<(), SrsError>(SrsError::NotFound),
        srs is Some && stored_hash is Some && sha256_digest(srs.unwrap()@)
            != stored_hash.unwrap()@ ==> r == Err::<(), SrsError>(SrsError::IntegrityFailure),
        srs is Some && (stored_hash is None || sha256_digest(srs.unwrap()@)
            == stored_hash.unwrap()@) ==> r is Ok,
{
    match srs {
        None => Err(SrsError::NotFound),
        Some(bytes) => match stored_hash {
            None => Ok(()),
            Some(stored) => {
                if digest_matches(bytes, stored) {
                    Ok(())
                } else {
                    Err(SrsError::IntegrityFailure)
                }
            },
        },
    }
}

/// Whether the parameters may be used: the file must pass `check_srs_file`
/// and what was read from it must fit the circuit.
pub fn load_and_verify_params(
    srs: Option<&[u8]>,
    stored_hash: Option<&[u8]>,
    k: u32,
    has_g2: bool,
    g1_elements: usize,
) -> (r: Result<(), SrsError>)
    ensures
        srs is None ==> r == Err::<(), SrsError>(SrsError::NotFound),
        srs is Some && stored_hash is Some && sha256_digest(srs.unwrap()@)
            != stored_hash.unwrap()@ ==> r == Err::<(), SrsError>(SrsError::IntegrityFailure),
        srs is Some && (stored_hash is None || sha256_digest(srs.unwrap()@)
            == stored_hash.unwrap()@) ==> (if srs_compatible(k, has_g2, g1_elements) {
            r is Ok
        } else {
            r == Err::<(), SrsError>(SrsError::Incompatible)
        }),
{
    match check_srs_file(srs, stored_hash) {
        Err(e) => Err(e),
        Ok(()) => {
            if verify_srs_compatibility(k, has_g2, g1_elements) {
                Ok(())
            } else {
                Err(SrsError::Incompatible)
            }
        },
    }
}

} // verus!
