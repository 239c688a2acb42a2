//! Errors of the audio pipelines.

use vstd::prelude::*;

verus! {

/// What can go wrong inside the container stage of a pipeline. Per-message
/// codec failures and transport failures belong to the unverified edge and
/// never reach these variants.
#[derive(Clone, Copy, Debug, PartialEq, Eq, Structural)]
pub enum PipeError {
    /// The inbound container byte stream could not be parsed.
    MalformedContainer,
    /// The outbound container writer refused a packet.
    ContainerWrite,
}

} // verus!
