//! The failures of the pipeline, and how far each of them reaches.

use crate::bumprecord::PersistenceError;
use crate::config::ConfigError;
use crate::message::RejectReason;
use crate::osrm::SnapServiceError;
use vstd::prelude::*;

verus! {

/// Anything that can go wrong between the broker and the store.
#[derive(Clone, Copy, Debug, PartialEq, Eq, Structural)]
pub enum Failure {
    /// A required setting is missing or invalid at startup.
    Config(ConfigError),
    /// The broker or the store cannot be reached at startup.
    Connection,
    /// A delivery was rejected before it reached a batch.
    Rejected(RejectReason),
    /// The map-matching service failed a batch.
    SnapService(SnapServiceError),
    /// A batch could not be persisted.
    Persistence(PersistenceError),
    /// The broker did not take an acknowledgement.
    Ack,
}

/// What is done about a failure.
#[derive(Clone, Copy, Debug, PartialEq, Eq, Structural)]
pub enum Remedy {
    /// The process exits with a non-zero status.
    Exit,
    /// The consumer stops consuming; what has been accepted is still flushed.
    StopConsuming,
    /// The message is dropped and the loop goes on; no batch is touched.
    DropMessage,
    /// The batch goes to the store with the coordinates it came with.
    KeepOriginalCoordinates,
    /// The batch is discarded as a whole, and the pipeline goes on with the
    /// next one.
    DiscardBatch,
}

/// The remedy that applies to each failure. Nothing is ever retried, and no
/// failure is reported back to the producer of a message.
pub open spec fn remedy_of(failure: Failure) -> Remedy {
    match failure {
        Failure::Config(_) => Remedy::Exit,
        Failure::Connection => Remedy::Exit,
        Failure::Rejected(_) => Remedy::DropMessage,
        Failure::SnapService(_) => Remedy::KeepOriginalCoordinates,
        Failure::Persistence(_) => Remedy::DiscardBatch,
        Failure::Ack => Remedy::StopConsuming,
    }
}

/// Whether a failure ends the process or the consumer.
pub open spec fn is_fatal(failure: Failure) -> bool {
    remedy_of(failure) == Remedy::Exit || remedy_of(failure) == Remedy::StopConsuming
}

/// Says what to do about a failure.
pub fn remedy(failure: Failure) -> (remedy: Remedy)
    ensures
        remedy == remedy_of(failure),
{
    match failure {
        Failure::Config(_) => Remedy::Exit,
        Failure::Connection => Remedy::Exit,
        Failure::Rejected(_) => Remedy::DropMessage,
        Failure::SnapService(_) => Remedy::KeepOriginalCoordinates,
        Failure::Persistence(_) => Remedy::DiscardBatch,
        Failure::Ack => Remedy::StopConsuming,
    }
}

/// Failures stay where they occur: one that concerns a message never costs a
/// batch, one that concerns a batch never stops the pipeline, and only
/// failures of the configuration, of a connection at startup or of an
/// acknowledgement are fatal.
pub proof fn failures_are_isolated(failure: Failure)
    ensures
        failure is Rejected ==> remedy_of(failure) == Remedy::DropMessage,
        failure is SnapService || failure is Persistence ==> !is_fatal(failure) && remedy_of(
            failure,
        ) != Remedy::DropMessage,
        failure is SnapService ==> remedy_of(failure) != Remedy::DiscardBatch,
        is_fatal(failure) <==> failure is Config || failure is Connection || failure is Ack,
{
}

} // verus!
