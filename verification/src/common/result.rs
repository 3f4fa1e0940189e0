use vstd::prelude::*;
use crate::common::error::VumError;

verus! {

/// The result type used throughout the manager.
pub type VumResult<T> = Result<T, VumError>;

} // verus!
