//! A tube that is read asynchronously.
use vstd::prelude::*;

verus! {

/// Why a message could not be taken from a tube.
#[derive(Debug, PartialEq, Eq)]
pub enum TubeError<E> {
    /// Waiting for the tube failed.
    Recv(E),
}

/// A tube and the source of wake-ups that it was registered with.
pub struct AsyncTube<S> {
    inner: S,
}

impl<S> AsyncTube<S> {
    /// The registered source.
    pub closed spec fn source(self) -> S {
        self.inner
    }

    /// The tube of a source, if it could be registered.
    pub fn new<E>(source: Result<S, E>) -> (tube: Result<AsyncTube<S>, E>)
        ensures
            match (source, tube) {
                (Ok(source), Ok(tube)) => tube.source() == source,
                (Err(expected), Err(error)) => error == expected,
                _ => false,
            },
    {
        match source {
            Ok(inner) => Ok(AsyncTube { inner }),
            Err(error) => Err(error),
        }
    }

    /// What to do once waiting for the tube to become readable has ended: receive from the source
    /// that is given, or report the failure to wait as a failure to receive.
    pub fn next<R, E>(&self, wait: Result<R, E>) -> (from: Result<&S, TubeError<E>>)
        ensures
            match (wait, from) {
                (Ok(_), Ok(source)) => *source == self.source(),
                (Err(failure), Err(error)) => error == TubeError::Recv(failure),
                _ => false,
            },
    {
        match wait {
            Ok(_) => Ok(&self.inner),
            Err(failure) => Err(TubeError::Recv(failure)),
        }
    }

    /// The registered source.
    pub fn as_source(&self) -> (source: &S)
        ensures
            *source == self.source(),
    {
        &self.inner
    }

    /// The source to send a message to, which takes no waiting.
    pub fn send(&self) -> (to: &S)
        ensures
            *to == self.source(),
    {
        &self.inner
    }

    /// The registered source itself.
    pub fn into_source(self) -> (source: S)
        ensures
            source == self.source(),
    {
        self.inner
    }
}

} // verus!
