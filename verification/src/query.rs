//! One packet and the response to it.
//!
//! A packet is written, the headset is given a moment, and only then is the
//! response read, which is waited for no longer than a fixed span.
use vstd::prelude::*;
use crate::duration::Duration;
use crate::errors::HidError;
use crate::events::DeviceEvent;

verus! {

/// How long a headset is given between a packet and the reading of its response,
/// in milliseconds.
pub const RESPONSE_DELAY_MILLIS: u64 = 50;

/// How long a response is waited for, in seconds.
pub const RESPONSE_TIMEOUT_SECS: u64 = 1;

/// How a response is waited for: nothing is done for `delay`, and the read that
/// follows waits for `limit` at most.
#[derive(Clone, Copy, PartialEq, Eq, Structural)]
pub struct ResponseWait {
    pub delay: Duration,
    pub limit: Duration,
}

/// What came of one packet that was written and whose response was waited for.
pub enum QueryReply {
    WriteFailed(HidError),
    NoResponse,
    Events(Vec<DeviceEvent>),
}

/// What follows once the packet has been written.
pub enum QueryStep {
    /// The response is waited for.
    Await(ResponseWait),
    /// The query is over.
    Done(QueryReply),
}

/// A response is read after 50 milliseconds and waited for one second.
pub open spec fn response_wait() -> ResponseWait {
    ResponseWait {
        delay: Duration { secs: 0, nanos: 50_000_000 },
        limit: Duration { secs: 1, nanos: 0 },
    }
}

/// What follows once the packet has been written.
pub open spec fn written_step(wait: ResponseWait, written: Result<(), HidError>) -> QueryStep {
    match written {
        Ok(_) => QueryStep::Await(wait),
        Err(e) => QueryStep::Done(QueryReply::WriteFailed(e)),
    }
}

/// The reply to a packet that was written, by what was read.
pub open spec fn reply_of(heard: Option<Vec<DeviceEvent>>) -> QueryReply {
    match heard {
        Some(events) => QueryReply::Events(events),
        None => QueryReply::NoResponse,
    }
}

impl ResponseWait {
    /// How every response is waited for.
    pub fn new() -> (wait: Self)
        ensures
            wait == response_wait(),
            wait.delay.whole_millis() == RESPONSE_DELAY_MILLIS,
            wait.limit.secs == RESPONSE_TIMEOUT_SECS,
            wait.delay.wf(),
            wait.limit.wf(),
    {
        ResponseWait {
            delay: Duration::from_millis(RESPONSE_DELAY_MILLIS),
            limit: Duration::from_secs(RESPONSE_TIMEOUT_SECS),
        }
    }

    /// What follows once the packet has been written. Where that failed, no
    /// response is waited for.
    pub fn after_written(self, written: Result<(), HidError>) -> (step: QueryStep)
        ensures
            step == written_step(self, written),
    {
        match written {
            Ok(()) => QueryStep::Await(self),
            Err(e) => QueryStep::Done(QueryReply::WriteFailed(e)),
        }
    }
}

/// The reply to a packet that was written, by what was read.
pub fn query_reply(heard: Option<Vec<DeviceEvent>>) -> (reply: QueryReply)
    ensures
        reply == reply_of(heard),
{
    match heard {
        Some(events) => QueryReply::Events(events),
        None => QueryReply::NoResponse,
    }
}

/// What a whole query comes to, where `written` is what writing the packet comes
/// to and `heard` what is read if the response is waited for.
pub open spec fn query_outcome(
    wait: ResponseWait,
    written: Result<(), HidError>,
    heard: Option<Vec<DeviceEvent>>,
) -> QueryReply {
    match written_step(wait, written) {
        QueryStep::Await(_) => reply_of(heard),
        QueryStep::Done(reply) => reply,
    }
}

/// A query has one of three outcomes: it could not be written, it was answered
/// with what was read, or it was not answered.
pub proof fn query_has_one_outcome(
    wait: ResponseWait,
    written: Result<(), HidError>,
    heard: Option<Vec<DeviceEvent>>,
)
    ensures
        query_outcome(wait, written, heard) is WriteFailed <==> written is Err,
        written matches Err(e) ==> query_outcome(wait, written, heard)->WriteFailed_0 == e,
        written is Ok ==> (query_outcome(wait, written, heard) is Events <==> heard is Some),
        written is Ok && heard is Some ==> query_outcome(wait, written, heard)->Events_0
            == heard->0,
{
}

} // verus!
