use vstd::prelude::*;
use crate::broadcaster::Delivery;
use crate::events::BroadcastMessage;

verus! {

/// A frame read from an observer's connection.
#[derive(Debug)]
pub enum InboundFrame {
    Text(String),
    Binary,
    Ping,
    Pong,
    Close,
    ReadError,
    EndOfStream,
}

/// What a session learns: a read from its subscription, a failed write to
/// the observer, the end of the event source, or an inbound frame.
#[derive(Debug)]
pub enum SessionEvent {
    Relay(Delivery),
    SendFailed,
    BroadcasterClosed,
    Inbound(InboundFrame),
}

/// What the session's driver is to do next.
#[derive(Debug)]
pub enum SessionAction {
    /// Write this event to the observer.
    Send(BroadcastMessage),
    /// Nothing to do; keep going.
    Ignore,
    /// Wait until a new event is published.
    AwaitEvent,
    /// The session is over: stop both loops.
    End,
}

/// Relay state of one observer connection. A lag is skipped silently: the
/// observer is not told of the events it missed, only the count is kept.
#[derive(Debug)]
pub struct Session {
    pub open: bool,
    pub forwarded: u64,
    pub missed: u64,
}

pub open spec fn sat_add(a: u64, b: u64) -> u64 {
    if a + b > u64::MAX {
        u64::MAX
    } else {
        (a + b) as u64
    }
}

fn saturating_sum(a: u64, b: u64) -> (r: u64)
    ensures
        r == sat_add(a, b),
{
    if a > u64::MAX - b {
        u64::MAX
    } else {
        a + b
    }
}

/// Whether an event ends the session.
pub open spec fn ends_session(ev: SessionEvent) -> bool {
    match ev {
        SessionEvent::SendFailed | SessionEvent::BroadcasterClosed => true,
        SessionEvent::Inbound(f) => match f {
            InboundFrame::Close | InboundFrame::ReadError | InboundFrame::EndOfStream => true,
            _ => false,
        },
        SessionEvent::Relay(_) => false,
    }
}

/// The acknowledgement sent when an observer connects.
pub fn connected_notice() -> (r: String)
    ensures
        r@ == "{\"message\":\"Connected to AgentX server\",\"type\":\"connected\"}"@,
{
    String::from_str("{\"message\":\"Connected to AgentX server\",\"type\":\"connected\"}")
}

impl Session {
    pub fn new() -> (r: Session)
        ensures
            r.open,
            r.forwarded == 0,
            r.missed == 0,
    {
        Session { open: true, forwarded: 0, missed: 0 }
    }

    /// Decides what to do on `ev`. Once the session has ended every event
    /// answers `End`.
    pub fn handle(&mut self, ev: SessionEvent) -> (r: SessionAction)
        ensures
            !old(self).open ==> r is End && *final(self) == *old(self),
            old(self).open ==> match ev {
                SessionEvent::Relay(Delivery::Message(m)) => {
                    &&& r == SessionAction::Send(m)
                    &&& final(self).open
                    &&& final(self).forwarded == sat_add(old(self).forwarded, 1)
                    &&& final(self).missed == old(self).missed
                },
                SessionEvent::Relay(Delivery::Lagged(n)) => {
                    &&& r is Ignore
                    &&& final(self).open
                    &&& final(self).forwarded == old(self).forwarded
                    &&& final(self).missed == sat_add(old(self).missed, n)
                },
                SessionEvent::Relay(Delivery::Empty) => r is AwaitEvent && *final(self) == *old(self),
                _ => if ends_session(ev) {
                    &&& r is End
                    &&& !final(self).open
                    &&& final(self).forwarded == old(self).forwarded
                    &&& final(self).missed == old(self).missed
                } else {
                    r is Ignore && *final(self) == *old(self)
                },
            },
    {
        if !self.open {
            return SessionAction::End;
        }
        match ev {
            SessionEvent::Relay(d) => match d {
                Delivery::Message(m) => {
                    self.forwarded = saturating_sum(self.forwarded, 1);
                    SessionAction::Send(m)
                },
                Delivery::Lagged(n) => {
                    self.missed = saturating_sum(self.missed, n);
                    SessionAction::Ignore
                },
                Delivery::Empty => SessionAction::AwaitEvent,
            },
            SessionEvent::SendFailed | SessionEvent::BroadcasterClosed => {
                self.open = false;
                SessionAction::End
            },
            SessionEvent::Inbound(f) => match f {
                InboundFrame::Close | InboundFrame::ReadError | InboundFrame::EndOfStream => {
                    self.open = false;
                    SessionAction::End
                },
                _ => SessionAction::Ignore,
            },
        }
    }
}

} // verus!
