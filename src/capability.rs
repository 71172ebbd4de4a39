use vstd::prelude::*;
use crate::error::{Capability, ExplorerError};

verus! {

/// Which optional capabilities this build offers. Every entry point exists
/// in every build; a disabled one fails with the same error each time.
#[derive(Clone, Copy, Debug, PartialEq, Eq, Structural)]
pub struct Capabilities {
    pub line_delimited: bool,
    pub cloud_store: bool,
}

/// Whether `caps` offers `c`.
pub open spec fn enabled(caps: Capabilities, c: Capability) -> bool {
    match c {
        Capability::LineDelimited => caps.line_delimited,
        Capability::CloudStore => caps.cloud_store,
    }
}

impl Capabilities {
    /// Every capability on.
    pub fn all() -> (r: Capabilities)
        ensures
            r.line_delimited && r.cloud_store,
    {
        Capabilities { line_delimited: true, cloud_store: true }
    }
}

/// Succeeds when `c` is built in; otherwise the capability-disabled error
/// that names it.
pub fn require(caps: Capabilities, c: Capability) -> (r: Result<(), ExplorerError>)
    ensures
        enabled(caps, c) <==> r is Ok,
        !enabled(caps, c) ==> r == Err::<(), ExplorerError>(ExplorerError::CapabilityDisabled(c)),
{
    let on = match c {
        Capability::LineDelimited => caps.line_delimited,
        Capability::CloudStore => caps.cloud_store,
    };
    if on {
        Ok(())
    } else {
        Err(ExplorerError::CapabilityDisabled(c))
    }
}

} // verus!
