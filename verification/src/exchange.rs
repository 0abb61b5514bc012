//! How a request to a worker ends: the three ways an exchange over a command
//! channel can go, and the result that the caller sees for each.

use vstd::prelude::*;

verus! {

/// What became of a request that a handle tried to hand to its worker.
#[derive(Debug)]
pub enum Exchange<T> {
    /// The command could not be enqueued: the worker is gone.
    Unsent,
    /// The command was enqueued, and the worker dropped the reply channel
    /// without answering.
    Unanswered,
    /// The worker sent this answer.
    Answered(T),
}

/// Why a request failed. Failures of communication are kept apart from the
/// errors that the worker itself reports.
#[derive(Debug)]
pub enum ServiceError<E> {
    /// The command could not be enqueued.
    SendFailed,
    /// No reply was received.
    ReceiveFailed,
    /// The worker answered with an error.
    Refused(E),
}

/// The result that the caller of a request sees. The worker's answer is
/// passed on as it is; an exchange that broke down becomes a communication
/// error.
pub open spec fn settled<T, E>(exchange: Exchange<Result<T, E>>) -> Result<T, ServiceError<E>> {
    match exchange {
        Exchange::Unsent => Err(ServiceError::SendFailed),
        Exchange::Unanswered => Err(ServiceError::ReceiveFailed),
        Exchange::Answered(Ok(value)) => Ok(value),
        Exchange::Answered(Err(error)) => Err(ServiceError::Refused(error)),
    }
}

/// Turns the outcome of an exchange into the caller's result.
pub fn settle<T, E>(exchange: Exchange<Result<T, E>>) -> (result: Result<T, ServiceError<E>>)
    ensures
        result == settled(exchange),
{
    match exchange {
        Exchange::Unsent => Err(ServiceError::SendFailed),
        Exchange::Unanswered => Err(ServiceError::ReceiveFailed),
        Exchange::Answered(Ok(value)) => Ok(value),
        Exchange::Answered(Err(error)) => Err(ServiceError::Refused(error)),
    }
}

/// The result of a request that the worker does not answer: it succeeds as
/// soon as the command is enqueued.
pub open spec fn enqueued<E>(sent: bool) -> Result<(), ServiceError<E>> {
    if sent {
        Ok(())
    } else {
        Err(ServiceError::SendFailed)
    }
}

/// Turns the outcome of enqueueing a command that has no reply into the
/// caller's result.
pub fn settle_unanswered<E>(sent: bool) -> (result: Result<(), ServiceError<E>>)
    ensures
        result == enqueued::<E>(sent),
{
    if sent {
        Ok(())
    } else {
        Err(ServiceError::SendFailed)
    }
}

/// A communication failure is never mistaken for an answer of the worker, nor
/// an answer for a communication failure.
pub proof fn lemma_communication_errors_are_distinct<T, E>(exchange: Exchange<Result<T, E>>)
    ensures
        settled(exchange) == Err::<T, ServiceError<E>>(ServiceError::SendFailed) <==> exchange
            is Unsent,
        settled(exchange) == Err::<T, ServiceError<E>>(ServiceError::ReceiveFailed) <==> exchange
            is Unanswered,
        exchange matches Exchange::Answered(answer) ==> match answer {
            Ok(value) => settled(exchange) == Ok::<T, ServiceError<E>>(value),
            Err(error) => settled(exchange) == Err::<T, ServiceError<E>>(
                ServiceError::Refused(error),
            ),
        },
{
}

} // verus!
