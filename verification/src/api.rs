//! Entry points of the Work bounded context: the command and query handler sets, and
//! how a service outcome is answered on the public protocol.

use vstd::prelude::*;

use crate::errors::{protocol_error_of, ApplicationError, WorkProtocolError};

verus! {

/// Command handler set for Work write operations.
pub struct WorkCommandHandlers<P, M, W, PR, D, I> {
    /// Project and backlog command service.
    pub project_service: P,
    /// Project member command service.
    pub member_service: M,
    /// Formal work command service.
    pub workitem_service: W,
    /// Promote command service.
    pub promote_service: PR,
    /// Dependency and blocker command service.
    pub dependency_service: D,
    /// Iteration command service.
    pub iteration_service: I,
}

/// Query handler set for Work read operations.
pub struct WorkQueryHandlers<Q> {
    /// Authorized query service.
    pub query_service: Q,
}

impl<Q> WorkQueryHandlers<Q> {
    /// Creates a query handler set around an authorized query service.
    pub fn new(query_service: Q) -> (r: Self)
        ensures
            r.query_service == query_service,
    {
        WorkQueryHandlers { query_service }
    }
}

impl<P, M, W, PR, D, I> WorkCommandHandlers<P, M, W, PR, D, I> {
    /// Creates a command handler set from its services.
    pub fn new(
        project_service: P,
        member_service: M,
        workitem_service: W,
        promote_service: PR,
        dependency_service: D,
        iteration_service: I,
    ) -> (r: Self)
        ensures
            r.project_service == project_service,
            r.member_service == member_service,
            r.workitem_service == workitem_service,
            r.promote_service == promote_service,
            r.dependency_service == dependency_service,
            r.iteration_service == iteration_service,
    {
        WorkCommandHandlers {
            project_service,
            member_service,
            workitem_service,
            promote_service,
            dependency_service,
            iteration_service,
        }
    }
}

/// The protocol answer to a service outcome: the value itself, or the protocol error the
/// application error surfaces as.
pub open spec fn protocol_answer<T>(outcome: Result<T, ApplicationError>) -> Result<T, WorkProtocolError> {
    match outcome {
        Ok(value) => Ok(value),
        Err(error) => Err(protocol_error_of(error)),
    }
}

/// Answers a service outcome on the public protocol.
pub fn answer<T>(outcome: Result<T, ApplicationError>) -> (r: Result<T, WorkProtocolError>)
    ensures
        r == protocol_answer(outcome),
{
    match outcome {
        Ok(value) => Ok(value),
        Err(error) => Err(error.into_protocol_error()),
    }
}

} // verus!
