//! Probing of optional protocol extensions. Absence is a normal, expected
//! configuration, recorded as such and never an error.

use vstd::prelude::*;

verus! {

/// Availability of one optional extension, with the base event and error
/// codes later consumers need when it is present.
#[derive(Clone, Copy, Debug, PartialEq, Eq, Structural)]
pub struct ExtensionInfo {
    pub present: bool,
    pub event_base: i32,
    pub error_base: i32,
}

/// The per-extension availability flags, set once during probing and
/// read-only thereafter.
#[derive(Clone, Copy, Debug, PartialEq, Eq, Structural)]
pub struct ExtensionFlags {
    pub shape: ExtensionInfo,
    pub render: ExtensionInfo,
}

/// What a capability query's reply records: presence with the reported base
/// codes, or a plain absence with zeroed bases.
pub open spec fn spec_probe(reply: Option<(i32, i32)>) -> ExtensionInfo {
    match reply {
        Some(bases) => ExtensionInfo { present: true, event_base: bases.0, error_base: bases.1 },
        None => ExtensionInfo { present: false, event_base: 0, error_base: 0 },
    }
}

/// Record one extension's capability-query reply.
pub fn probe_extension(reply: Option<(i32, i32)>) -> (r: ExtensionInfo)
    ensures
        r == spec_probe(reply),
{
    match reply {
        Some((event_base, error_base)) => ExtensionInfo { present: true, event_base, error_base },
        None => ExtensionInfo { present: false, event_base: 0, error_base: 0 },
    }
}

/// Record the replies for every extension of interest.
pub fn probe_all(shape: Option<(i32, i32)>, render: Option<(i32, i32)>) -> (r: ExtensionFlags)
    ensures
        r.shape == spec_probe(shape),
        r.render == spec_probe(render),
{
    ExtensionFlags { shape: probe_extension(shape), render: probe_extension(render) }
}

} // verus!
