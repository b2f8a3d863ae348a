//! Where the service listens.

use vstd::prelude::*;

verus! {

/// The address the listener binds: all interfaces.
pub const BIND_HOST: &'static str = "0.0.0.0";

/// The port the listener binds.
pub const BIND_PORT: u16 = 8000;

} // verus!
