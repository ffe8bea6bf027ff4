//! Streams and events, held by their runtime handles.

use vstd::prelude::*;
use crate::error::{HipError, check_hip, spec_check_hip, query_status, spec_query};
use crate::hip_types::{HIP_STREAM_NON_BLOCKING, HIP_EVENT_DISABLE_TIMING};

verus! {

/// A GPU stream: an ordered queue of work. The handle 0 is the null
/// (default) stream, which is never destroyed.
#[derive(Clone, Debug)]
pub struct HipStream {
    stream: usize,
}

impl HipStream {
    pub closed spec fn handle(&self) -> usize {
        self.stream
    }

    /// The stream that `hipStreamCreate` (or `hipStreamCreateWithFlags`)
    /// produced, given the status it answered and the handle it wrote.
    pub fn new(code: i32, msg: String, handle: usize) -> (r: Result<HipStream, HipError>)
        ensures
            match spec_check_hip(code, msg) {
                Ok(_) => r matches Ok(s) && s.handle() == handle,
                Err(e) => r == Err::<HipStream, HipError>(e),
            },
    {
        match check_hip(code, msg) {
            Ok(()) => Ok(HipStream { stream: handle }),
            Err(e) => Err(e),
        }
    }

    /// Creation flags of a stream that does not synchronise with the null stream.
    pub fn non_blocking() -> (r: u32)
        ensures
            r == HIP_STREAM_NON_BLOCKING,
    {
        HIP_STREAM_NON_BLOCKING
    }

    /// The runtime handle.
    pub fn as_raw(&self) -> (r: usize)
        ensures
            r == self.handle(),
    {
        self.stream
    }

    /// Handle of the null stream.
    pub fn null() -> (r: usize)
        ensures
            r == 0,
    {
        0
    }

    /// Whether this is the null stream.
    pub fn is_null(&self) -> (r: bool)
        ensures
            r == (self.handle() == 0),
    {
        self.stream == 0
    }

    /// Whether the queued work is done, from what `hipStreamQuery` answered.
    pub fn is_done(&self, code: i32, msg: String) -> (r: Result<bool, HipError>)
        ensures
            r == spec_query(code, msg),
    {
        query_status(code, msg)
    }

    /// Whether dropping the stream must destroy it: every stream but the null one.
    pub fn needs_destroy(&self) -> (r: bool)
        ensures
            r == (self.handle() != 0),
    {
        self.stream != 0
    }
}

impl Default for HipStream {
    /// The null stream.
    fn default() -> (r: HipStream)
        ensures
            r.handle() == 0,
    {
        HipStream { stream: 0 }
    }
}

/// A GPU event. An event built by `default` holds the null handle and owns
/// nothing.
#[derive(Debug)]
pub struct HipEvent {
    event: usize,
    owns: bool,
}

impl HipEvent {
    pub closed spec fn handle(&self) -> usize {
        self.event
    }

    pub closed spec fn owned(&self) -> bool {
        self.owns
    }

    /// The event that `hipEventCreate` (or `hipEventCreateWithFlags`)
    /// produced, given the status it answered and the handle it wrote; the
    /// new event owns its handle.
    pub fn new(code: i32, msg: String, handle: usize) -> (r: Result<HipEvent, HipError>)
        ensures
            match spec_check_hip(code, msg) {
                Ok(_) => r matches Ok(e) && e.handle() == handle && e.owned(),
                Err(e) => r == Err::<HipEvent, HipError>(e),
            },
    {
        match check_hip(code, msg) {
            Ok(()) => Ok(HipEvent { event: handle, owns: true }),
            Err(e) => Err(e),
        }
    }

    /// Creation flags of an event without timing, for signalling.
    pub fn signaling() -> (r: u32)
        ensures
            r == HIP_EVENT_DISABLE_TIMING,
    {
        HIP_EVENT_DISABLE_TIMING
    }

    /// Whether the event has been reached, from what `hipEventQuery` answered.
    pub fn is_complete(&self, code: i32, msg: String) -> (r: Result<bool, HipError>)
        ensures
            r == spec_query(code, msg),
    {
        query_status(code, msg)
    }

    /// The runtime handle.
    pub fn as_raw(&self) -> (r: usize)
        ensures
            r == self.handle(),
    {
        self.event
    }

    /// Whether dropping the event must destroy it: when it owns a non-null handle.
    pub fn needs_destroy(&self) -> (r: bool)
        ensures
            r == (self.owned() && self.handle() != 0),
    {
        self.owns && self.event != 0
    }
}

impl Default for HipEvent {
    /// The null event, which owns nothing.
    fn default() -> (r: HipEvent)
        ensures
            r.handle() == 0,
            !r.owned(),
    {
        HipEvent { event: 0, owns: false }
    }
}

} // verus!
