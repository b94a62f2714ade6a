//! Memory and swap usage.
use crate::result::{Error, SigarResult};
use vstd::prelude::*;

verus! {

/// The native swap record (`sigar_swap_t`).
#[derive(Clone, Copy, Debug, PartialEq, Eq, Structural)]
pub struct RawSwap {
    pub total: u64,
    pub used: u64,
    pub free: u64,
    pub page_in: u64,
    pub page_out: u64,
}

/// Swap usage
#[derive(Clone, Copy, Debug, PartialEq, Eq, Structural)]
pub struct Swap {
    pub total: u64,
    pub used: u64,
    pub free: u64,
    pub page_in: u64,
    pub page_out: u64,
}

impl Swap {
    /// The usage that a native record gives: every field copied as it is.
    pub open spec fn spec_from_raw(raw: RawSwap) -> Swap {
        Swap {
            total: raw.total,
            used: raw.used,
            free: raw.free,
            page_in: raw.page_in,
            page_out: raw.page_out,
        }
    }

    /// Converts a native record.
    pub fn from_raw(raw: &RawSwap) -> (r: Swap)
        ensures
            r == Self::spec_from_raw(*raw),
    {
        Swap {
            total: raw.total,
            used: raw.used,
            free: raw.free,
            page_in: raw.page_in,
            page_out: raw.page_out,
        }
    }
}

/// Returns swap usage, from the outcome of the native swap query.
pub fn swap(fetched: SigarResult<RawSwap>) -> (r: SigarResult<Swap>)
    ensures
        match fetched {
            Ok(raw) => r == Ok::<Swap, Error>(Swap::spec_from_raw(raw)),
            Err(e) => r == Err::<Swap, Error>(e),
        },
{
    match fetched {
        Ok(raw) => Ok(Swap::from_raw(&raw)),
        Err(e) => Err(e),
    }
}

} // verus!
