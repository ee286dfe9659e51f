use vstd::prelude::*;

verus! {

/// First code of the validation category.
pub const VALIDATION_START: u32 = 1;

/// Last code of the validation category.
pub const VALIDATION_END: u32 = 99;

/// First code of the authorization category.
pub const AUTH_START: u32 = 100;

/// Last code of the authorization category.
pub const AUTH_END: u32 = 199;

/// First code of the state category.
pub const STATE_START: u32 = 200;

/// Last code of the state category.
pub const STATE_END: u32 = 299;

/// First code of the resource category.
pub const RESOURCE_START: u32 = 300;

/// Last code of the resource category.
pub const RESOURCE_END: u32 = 399;

/// First code of the system category.
pub const SYSTEM_START: u32 = 400;

/// Last code of the system category.
pub const SYSTEM_END: u32 = 499;

} // verus!
