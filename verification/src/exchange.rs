//! The CDC request/response exchange: drain what is pending, write the
//! request, flush, then gather the response until enough has come, the port
//! falls silent, or time runs out.
//!
//! The port is the caller's. Each call takes the outcome of the caller's last
//! port operation and answers with the next one to perform.

use vstd::prelude::*;
use crate::driver::{cdc_request, cdc_request_command, DriverError, DriverErrorView};
use crate::text::join2;

verus! {

/// Largest read while pending input is drained.
pub const DRAIN_CHUNK: usize = 256;

/// Largest read while the response is gathered.
pub const RESPONSE_CHUNK: usize = 128;

/// Number of bytes, in one read or in all, that completes a response.
pub const RESPONSE_ENOUGH: usize = 64;

/// How long the response is waited for after the request went out, in milliseconds.
pub const RESPONSE_DEADLINE_MS: u64 = 3000;

/// How one read on the port ended.
#[derive(Debug, Clone, PartialEq, Eq)]
pub enum PortRead {
    /// The read returned these bytes, possibly none.
    Data(Vec<u8>),
    /// The read timed out.
    TimedOut,
    /// The read failed otherwise, with this text.
    Failed(String),
}

pub enum PortReadView {
    Data(Seq<u8>),
    TimedOut,
    Failed(Seq<char>),
}

impl View for PortRead {
    type V = PortReadView;

    open spec fn view(&self) -> PortReadView {
        match self {
            PortRead::Data(bytes) => PortReadView::Data(bytes@),
            PortRead::TimedOut => PortReadView::TimedOut,
            PortRead::Failed(reason) => PortReadView::Failed(reason@),
        }
    }
}

/// The view of how a write or a flush ended.
pub open spec fn done_view(done: Result<(), String>) -> Result<(), Seq<char>> {
    match done {
        Ok(_) => Ok(()),
        Err(reason) => Err(reason@),
    }
}

/// What the caller reports to an exchange.
#[derive(Debug, PartialEq, Eq)]
pub enum ExchangeEvent {
    /// An exchange begins.
    Start,
    /// A draining read ended.
    Drained(PortRead),
    /// The request was written, or the write failed with this text.
    Written(Result<(), String>),
    /// The port was flushed, or the flush failed with this text.
    Flushed(Result<(), String>),
    /// A response read ended, `waited_ms` after the flush had succeeded.
    Received { read: PortRead, waited_ms: u64 },
}

pub enum ExchangeEventView {
    Start,
    Drained(PortReadView),
    Written(Result<(), Seq<char>>),
    Flushed(Result<(), Seq<char>>),
    Received { read: PortReadView, waited_ms: u64 },
}

impl View for ExchangeEvent {
    type V = ExchangeEventView;

    open spec fn view(&self) -> ExchangeEventView {
        match self {
            ExchangeEvent::Start => ExchangeEventView::Start,
            ExchangeEvent::Drained(read) => ExchangeEventView::Drained(read@),
            ExchangeEvent::Written(done) => ExchangeEventView::Written(done_view(*done)),
            ExchangeEvent::Flushed(done) => ExchangeEventView::Flushed(done_view(*done)),
            ExchangeEvent::Received { read, waited_ms } => ExchangeEventView::Received {
                read: read@,
                waited_ms: *waited_ms,
            },
        }
    }
}

/// What the caller of an exchange does next.
#[derive(Debug, PartialEq, Eq)]
pub enum ExchangeStep {
    /// Read up to this many bytes and report `Drained`.
    Drain { max: usize },
    /// Write all of these bytes and report `Written`.
    Write(Vec<u8>),
    /// Flush the port and report `Flushed`.
    Flush,
    /// Read up to this many bytes and report `Received`.
    Receive { max: usize },
    /// The exchange is over.
    Done(Result<Vec<u8>, DriverError>),
}

pub enum ExchangeStepView {
    Drain { max: usize },
    Write(Seq<u8>),
    Flush,
    Receive { max: usize },
    Done(Result<Seq<u8>, DriverErrorView>),
}

impl View for ExchangeStep {
    type V = ExchangeStepView;

    open spec fn view(&self) -> ExchangeStepView {
        match self {
            ExchangeStep::Drain { max } => ExchangeStepView::Drain { max: *max },
            ExchangeStep::Write(bytes) => ExchangeStepView::Write(bytes@),
            ExchangeStep::Flush => ExchangeStepView::Flush,
            ExchangeStep::Receive { max } => ExchangeStepView::Receive { max: *max },
            ExchangeStep::Done(Ok(frame)) => ExchangeStepView::Done(Ok(frame@)),
            ExchangeStep::Done(Err(error)) => ExchangeStepView::Done(Err(error@)),
        }
    }
}

/// One exchange in progress. Its view is the response gathered so far.
#[derive(Debug)]
pub struct CdcExchange {
    buf: Vec<u8>,
}

impl View for CdcExchange {
    type V = Seq<u8>;

    closed spec fn view(&self) -> Seq<u8> {
        self.buf@
    }
}

/// Whether draining goes on after this read: only while bytes keep coming.
pub open spec fn drain_continues(read: PortReadView) -> bool {
    read matches PortReadView::Data(bytes) && bytes.len() > 0
}

/// The response after a read: what was gathered, and what the read brought.
pub open spec fn gathered(before: Seq<u8>, read: PortReadView) -> Seq<u8> {
    match read {
        PortReadView::Data(bytes) => before + bytes,
        _ => before,
    }
}

/// Whether a read ends the gathering by itself: it brought enough bytes, or
/// enough have come in all, or the port timed out with something in hand.
pub open spec fn read_completes(before: Seq<u8>, read: PortReadView) -> bool {
    match read {
        PortReadView::Data(bytes) => bytes.len() > 0 && (bytes.len() >= RESPONSE_ENOUGH || (before
            + bytes).len() >= RESPONSE_ENOUGH),
        PortReadView::TimedOut => before.len() > 0,
        PortReadView::Failed(_) => false,
    }
}

/// How a finished gathering is reported: nothing in hand is a timeout.
pub open spec fn finished(response: Seq<u8>) -> ExchangeStepView {
    if response.len() == 0 {
        ExchangeStepView::Done(Err(DriverErrorView::Timeout))
    } else {
        ExchangeStepView::Done(Ok(response))
    }
}

/// The response in hand and the step that follow `event`.
///
/// An exchange begins by draining; draining goes on while bytes come, and
/// then the request is written and the port flushed. A failed write or
/// flush ends the exchange with its error. The response is gathered read by
/// read until a read completes it or the deadline has passed; a failed read
/// ends the exchange with its error at once.
pub open spec fn exchange_spec(before: Seq<u8>, event: ExchangeEventView) -> (
    Seq<u8>,
    ExchangeStepView,
) {
    match event {
        ExchangeEventView::Start => (Seq::empty(), ExchangeStepView::Drain { max: DRAIN_CHUNK }),
        ExchangeEventView::Drained(read) => if drain_continues(read) {
            (before, ExchangeStepView::Drain { max: DRAIN_CHUNK })
        } else {
            (before, ExchangeStepView::Write(cdc_request()))
        },
        ExchangeEventView::Written(Ok(_)) => (before, ExchangeStepView::Flush),
        ExchangeEventView::Written(Err(reason)) => (
            before,
            ExchangeStepView::Done(
                Err(DriverErrorView::Io("failed to write request command: "@ + reason)),
            ),
        ),
        ExchangeEventView::Flushed(Ok(_)) => (
            before,
            ExchangeStepView::Receive { max: RESPONSE_CHUNK },
        ),
        ExchangeEventView::Flushed(Err(reason)) => (
            before,
            ExchangeStepView::Done(
                Err(DriverErrorView::Io("failed to flush request command: "@ + reason)),
            ),
        ),
        ExchangeEventView::Received { read: PortReadView::Failed(reason), waited_ms } => (
            before,
            ExchangeStepView::Done(Err(DriverErrorView::Io("serial read failed: "@ + reason))),
        ),
        ExchangeEventView::Received { read, waited_ms } => {
            if read_completes(before, read) || waited_ms >= RESPONSE_DEADLINE_MS {
                (Seq::empty(), finished(gathered(before, read)))
            } else {
                (gathered(before, read), ExchangeStepView::Receive { max: RESPONSE_CHUNK })
            }
        },
    }
}

impl CdcExchange {
    /// An exchange with nothing gathered.
    pub fn new() -> (exchange: CdcExchange)
        ensures
            exchange@ == Seq::<u8>::empty(),
    {
        CdcExchange { buf: Vec::new() }
    }

    /// Advances the exchange by one event.
    pub fn step(&mut self, event: ExchangeEvent) -> (next: ExchangeStep)
        ensures
            final(self)@ == exchange_spec(old(self)@, event@).0,
            next@ == exchange_spec(old(self)@, event@).1,
    {
        match event {
            ExchangeEvent::Start => {
                self.buf = Vec::new();
                ExchangeStep::Drain { max: DRAIN_CHUNK }
            },
            ExchangeEvent::Drained(read) => {
                let goes_on: bool = match &read {
                    PortRead::Data(bytes) => bytes.len() > 0,
                    _ => false,
                };
                if goes_on {
                    ExchangeStep::Drain { max: DRAIN_CHUNK }
                } else {
                    ExchangeStep::Write(cdc_request_command())
                }
            },
            ExchangeEvent::Written(Ok(_)) => ExchangeStep::Flush,
            ExchangeEvent::Written(Err(reason)) => ExchangeStep::Done(
                Err(DriverError::Io(join2("failed to write request command: ", reason.as_str()))),
            ),
            ExchangeEvent::Flushed(Ok(_)) => ExchangeStep::Receive { max: RESPONSE_CHUNK },
            ExchangeEvent::Flushed(Err(reason)) => ExchangeStep::Done(
                Err(DriverError::Io(join2("failed to flush request command: ", reason.as_str()))),
            ),
            ExchangeEvent::Received { read, waited_ms } => {
                let mut complete: bool = false;
                match read {
                    PortRead::Data(bytes) => {
                        if bytes.len() > 0 {
                            let count: usize = bytes.len();
                            let mut bytes = bytes;
                            self.buf.append(&mut bytes);
                            complete = count >= RESPONSE_ENOUGH || self.buf.len()
                                >= RESPONSE_ENOUGH;
                        } else {
                            assert(self.buf@ + bytes@ =~= self.buf@);
                        }
                    },
                    PortRead::TimedOut => {
                        complete = self.buf.len() > 0;
                    },
                    PortRead::Failed(reason) => {
                        return ExchangeStep::Done(
                            Err(DriverError::Io(join2("serial read failed: ", reason.as_str()))),
                        );
                    },
                }
                if complete || waited_ms >= RESPONSE_DEADLINE_MS {
                    let mut response: Vec<u8> = Vec::new();
                    std::mem::swap(&mut self.buf, &mut response);
                    if response.len() == 0 {
                        ExchangeStep::Done(Err(DriverError::Timeout))
                    } else {
                        ExchangeStep::Done(Ok(response))
                    }
                } else {
                    ExchangeStep::Receive { max: RESPONSE_CHUNK }
                }
            },
        }
    }
}

/// An exchange never hands out an empty frame: where nothing was gathered
/// it ends in a timeout. The frame it hands out is all that was gathered,
/// and nothing stays in hand.
pub proof fn lemma_frame_never_empty(before: Seq<u8>, event: ExchangeEventView)
    ensures
        exchange_spec(before, event).1 matches ExchangeStepView::Done(Ok(frame)) ==> {
            &&& frame.len() > 0
            &&& event matches ExchangeEventView::Received { read, .. }
            &&& frame == gathered(before, read)
            &&& exchange_spec(before, event).0.len() == 0
        },
{
}

} // verus!
