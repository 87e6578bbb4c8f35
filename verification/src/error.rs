use crate::stream_options::Format;
use vstd::prelude::*;

verus! {

/// What can go wrong before the native host is asked for anything.
#[derive(Debug, Clone, Copy, PartialEq, Eq, Structural)]
pub enum Error {
    /// The native host has no constant for this sample encoding.
    IncompatibleFormat(Format),
}

} // verus!
