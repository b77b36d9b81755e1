//! The connection to the X server.

use vstd::prelude::*;

verus! {

/// How the events in the queue are counted.
#[derive(Debug, Clone, Copy, PartialEq, Eq, Structural)]
pub enum EventsQueuedMode {
    /// Count what is in the queue.
    QueuedAlready,
    /// If the queue is empty, read what the connection holds first.
    QueuedAfterReading,
    /// If the queue is empty, flush the output and read what the
    /// connection holds first.
    QueuedAfterFlush,
}

impl EventsQueuedMode {
    /// The number of the mode in Xlib.
    pub open spec fn code(self) -> i32 {
        match self {
            EventsQueuedMode::QueuedAlready => 0,
            EventsQueuedMode::QueuedAfterReading => 1,
            EventsQueuedMode::QueuedAfterFlush => 2,
        }
    }

    pub fn to_xlib_mode(self) -> (r: i32)
        ensures
            r == self.code(),
    {
        match self {
            EventsQueuedMode::QueuedAlready => 0,
            EventsQueuedMode::QueuedAfterReading => 1,
            EventsQueuedMode::QueuedAfterFlush => 2,
        }
    }
}

/// What Xlib knows of a connection once it is open.
#[derive(Debug, Clone, Copy, PartialEq, Eq, Structural)]
pub struct XDisplay {
    pub connection_number: i32,
    pub protocol_version: i32,
    pub protocol_revision: i32,
    pub vendor_release: i32,
    pub screen_count: i32,
    pub max_request_size: i64,
    /// Zero without the big requests extension.
    pub extended_max_request_size: i64,
}

/// What reading an event without waiting does next, given the counts taken
/// so far.
pub open spec fn read_event_of(queued_already: Option<i32>, queued_after_reading: Option<i32>) -> ReadEvent {
    match queued_already {
        None => ReadEvent::Count(EventsQueuedMode::QueuedAlready),
        Some(event_count) => if event_count > 0 {
            ReadEvent::Next
        } else {
            match queued_after_reading {
                None => ReadEvent::Count(EventsQueuedMode::QueuedAfterReading),
                Some(event_count) => if event_count > 0 {
                    ReadEvent::Next
                } else {
                    ReadEvent::Nothing
                },
            }
        },
    }
}

/// What reading an event without waiting for one does next.
#[derive(Debug, Clone, Copy, PartialEq, Eq, Structural)]
pub enum ReadEvent {
    /// Count the events in the queue in this mode.
    Count(EventsQueuedMode),
    /// Take the next event out of the queue: there is one.
    Next,
    /// Give up: there is no event.
    Nothing,
}

/// A connection to the X server.
#[derive(Debug)]
pub struct X11Display {
    raw_display: XDisplay,
}

impl View for X11Display {
    type V = XDisplay;

    closed spec fn view(&self) -> XDisplay {
        self.raw_display
    }
}

impl X11Display {
    pub fn new(raw_display: XDisplay) -> (r: Self)
        ensures
            r@ == raw_display,
    {
        Self { raw_display }
    }

    pub fn raw_display(&self) -> (r: &XDisplay)
        ensures
            *r == self@,
    {
        &self.raw_display
    }

    pub fn connection_number(&self) -> (r: i32)
        ensures
            r == self@.connection_number,
    {
        self.raw_display.connection_number
    }

    /// The greatest size of a request with the big requests extension, or
    /// `None` if the server does not have the extension.
    pub fn extended_max_request_size(&self) -> (r: Option<i64>)
        ensures
            r == if self@.extended_max_request_size == 0 {
                None
            } else {
                Some(self@.extended_max_request_size)
            },
    {
        let size = self.raw_display.extended_max_request_size;
        if size == 0 {
            None
        } else {
            Some(size)
        }
    }

    pub fn max_request_size(&self) -> (r: i64)
        ensures
            r == self@.max_request_size,
    {
        self.raw_display.max_request_size
    }

    pub fn protocol_version(&self) -> (r: i32)
        ensures
            r == self@.protocol_version,
    {
        self.raw_display.protocol_version
    }

    pub fn protocol_revision(&self) -> (r: i32)
        ensures
            r == self@.protocol_revision,
    {
        self.raw_display.protocol_revision
    }

    pub fn screen_count(&self) -> (r: i32)
        ensures
            r == self@.screen_count,
    {
        self.raw_display.screen_count
    }

    pub fn vendor_release(&self) -> (r: i32)
        ensures
            r == self@.vendor_release,
    {
        self.raw_display.vendor_release
    }

    /// Says how to go on reading an event without waiting for one.
    ///
    /// `queued_already` and `queued_after_reading` are the counts of events
    /// in those modes, as far as they were taken. The queue is counted as
    /// it is first. Only if it is empty the connection is read, and the
    /// queue counted again. An event is taken as soon as a count is
    /// positive.
    pub fn read_event(&self, queued_already: Option<i32>, queued_after_reading: Option<i32>) -> (r:
        ReadEvent)
        ensures
            r == read_event_of(queued_already, queued_after_reading),
    {
        let event_count = match queued_already {
            None => {
                return ReadEvent::Count(EventsQueuedMode::QueuedAlready);
            },
            Some(event_count) => event_count,
        };
        if event_count <= 0 {
            let event_count = match queued_after_reading {
                None => {
                    return ReadEvent::Count(EventsQueuedMode::QueuedAfterReading);
                },
                Some(event_count) => event_count,
            };
            if event_count <= 0 {
                return ReadEvent::Nothing;
            }
        }
        ReadEvent::Next
    }
}

/// Reading an event without waiting takes two counts at most, and ends
/// with an event exactly when one of the counts taken is positive.
pub proof fn lemma_read_event_ends(first: i32, second: i32)
    ensures
        ({
            let after_first = read_event_of(Some(first), None);
            let after_second = read_event_of(Some(first), Some(second));
            &&& read_event_of(None, None) == ReadEvent::Count(EventsQueuedMode::QueuedAlready)
            &&& after_first is Next <==> first > 0
            &&& !(after_first is Next) ==> after_first == ReadEvent::Count(
                EventsQueuedMode::QueuedAfterReading,
            )
            &&& !(after_second is Count)
            &&& after_second is Next <==> first > 0 || second > 0
        }),
{
}

} // verus!
