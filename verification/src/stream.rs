use vstd::prelude::*;

use crate::error::{ExitInfo, SvnError};

verus! {

/// The control state of a managed process stream. The process is reaped
/// exactly once: the pipe handle is released first (so a child blocked on
/// a full pipe cannot deadlock the wait), then the process is waited on,
/// and the exit is cached so that a repeated finish never waits again.
#[derive(Debug, Clone, Copy, PartialEq)]
pub enum StreamLifecycle {
    /// The pipe is open and may still be read.
    Streaming,
    /// The pipe handle has been released; the process has not been waited
    /// on yet.
    PipeClosed,
    /// The process has been reaped; its exit is cached.
    Done(ExitInfo),
}

impl StreamLifecycle {
    pub fn new() -> (s: StreamLifecycle)
        ensures
            s is Streaming,
    {
        StreamLifecycle::Streaming
    }

    pub fn is_streaming(&self) -> (r: bool)
        ensures
            r == (self is Streaming),
    {
        match self {
            StreamLifecycle::Streaming => true,
            _ => false,
        }
    }

    pub fn is_done(&self) -> (r: bool)
        ensures
            r == (self is Done),
    {
        match self {
            StreamLifecycle::Done(_) => true,
            _ => false,
        }
    }

    /// The pipe handle has been released. This must happen before the
    /// wait, and only while the stream was still live.
    pub fn close_pipe(&mut self)
        requires
            *old(self) is Streaming,
        ensures
            *final(self) is PipeClosed,
    {
        *self = StreamLifecycle::PipeClosed;
    }

    /// The process has been waited on; cache its exit. Only reachable
    /// after the pipe was released, and only once.
    pub fn record_exit(&mut self, exit: ExitInfo)
        requires
            *old(self) is PipeClosed,
        ensures
            *final(self) == StreamLifecycle::Done(exit),
    {
        *self = StreamLifecycle::Done(exit);
    }

    /// The cached exit, once the process has been reaped.
    pub fn cached(&self) -> (r: Option<ExitInfo>)
        ensures
            match *self {
                StreamLifecycle::Done(e) => r == Some(e),
                _ => r is None,
            },
    {
        match self {
            StreamLifecycle::Done(e) => Some(*e),
            _ => None,
        }
    }

    /// How a genuine end of data must be reported: a crashed producer
    /// that emitted no further bytes is an error, never a clean end.
    pub fn eof_outcome(&self) -> (r: Result<(), SvnError>)
        requires
            self is Done,
        ensures
            match *self {
                StreamLifecycle::Done(e) => r == (if e.is_success() {
                    Ok::<(), SvnError>(())
                } else {
                    Err(SvnError::ExitFailure(e))
                }),
                _ => false,
            },
    {
        match self {
            StreamLifecycle::Done(e) => {
                if e.success() {
                    Ok(())
                } else {
                    Err(SvnError::ExitFailure(*e))
                }
            },
            _ => Err(SvnError::CommandError),
        }
    }
}

} // verus!
