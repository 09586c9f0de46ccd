//! The decisions of the browser debugging-protocol client: how incoming
//! messages are routed and how replies and failures become errors.

use vstd::prelude::*;
use crate::text::{append_decimal, decimal, owned};

verus! {

/// Failures of the debugging-protocol client.
#[derive(Debug)]
pub enum CdpError {
    Connection(String),
    Command { id: u64, msg: String },
    Timeout(u64),
    Disconnected,
    PageNotFound,
}

/// The text shown for an error.
pub open spec fn error_text(e: CdpError) -> Seq<char> {
    match e {
        CdpError::Connection(s) => "Connection failed: "@ + s@,
        CdpError::Command { id, msg } => "Command "@ + decimal(id as nat) + " failed: "@ + msg@,
        CdpError::Timeout(id) => "Response timeout for command "@ + decimal(id as nat),
        CdpError::Disconnected => "Disconnected"@,
        CdpError::PageNotFound => "Page not found"@,
    }
}

impl CdpError {
    /// The text shown for this error (see `error_text`).
    pub fn message(&self) -> (r: String)
        ensures
            r@ == error_text(*self),
    {
        match self {
            CdpError::Connection(s) => {
                let mut r = owned("Connection failed: ");
                r.append(s.as_str());
                r
            },
            CdpError::Command { id, msg } => {
                let mut r = owned("Command ");
                append_decimal(&mut r, *id);
                r.append(" failed: ");
                r.append(msg.as_str());
                r
            },
            CdpError::Timeout(id) => {
                let mut r = owned("Response timeout for command ");
                append_decimal(&mut r, *id);
                r
            },
            CdpError::Disconnected => owned("Disconnected"),
            CdpError::PageNotFound => owned("Page not found"),
        }
    }
}

/// Where an incoming message goes.
#[derive(Debug)]
pub enum MessageRoute {
    /// The reply to the command with this id.
    Response(u64),
    /// An event with this method name.
    Event(String),
    /// Neither: dropped.
    Ignored,
}

/// A message with an id answers that command; otherwise a message with a
/// method is an event; anything else is dropped.
pub fn route_message(id: Option<u64>, method: Option<String>) -> (r: MessageRoute)
    ensures
        id matches Some(i) ==> r == MessageRoute::Response(i),
        id is None && method is Some ==> r == MessageRoute::Event(method.unwrap()),
        id is None && method is None ==> r == MessageRoute::Ignored,
{
    match id {
        Some(i) => MessageRoute::Response(i),
        None => match method {
            Some(m) => MessageRoute::Event(m),
            None => MessageRoute::Ignored,
        },
    }
}

/// The error a reply to command `id` carries: a command failure with the
/// reply's error text where it has one, none otherwise.
pub fn reply_error(id: u64, error_text: Option<String>) -> (r: Option<CdpError>)
    ensures
        error_text matches Some(t) ==> r == Some(CdpError::Command { id, msg: t }),
        error_text is None ==> r is None,
{
    match error_text {
        Some(t) => Some(CdpError::Command { id, msg: t }),
        None => None,
    }
}

/// How a command ends, once it was sent (or not) and its reply came (or the
/// wait for it ended without one): not sent is a lost connection; no reply
/// is a timeout of that command; a reply with an error text is a failure of
/// that command carrying the text; any other reply is success.
pub fn call_outcome(id: u64, sent: bool, reply: Option<Option<String>>) -> (r: Result<(), CdpError>)
    ensures
        !sent ==> r == Err::<(), CdpError>(CdpError::Disconnected),
        sent && reply is None ==> r == Err::<(), CdpError>(CdpError::Timeout(id)),
        sent && (reply matches Some(Some(t))) ==> r == Err::<(), CdpError>(CdpError::Command { id, msg: reply.unwrap().unwrap() }),
        sent && reply == Some(None::<String>) ==> r is Ok,
{
    if !sent {
        return Err(CdpError::Disconnected);
    }
    match reply {
        None => Err(CdpError::Timeout(id)),
        Some(error_text) => match reply_error(id, error_text) {
            Some(e) => Err(e),
            None => Ok(()),
        },
    }
}

/// The numbering of the commands of one connection: 1 for the first, then
/// one more for each next (wrapping after `u64::MAX`).
pub struct RequestIds {
    next: u64,
}

impl View for RequestIds {
    type V = u64;

    closed spec fn view(&self) -> u64 {
        self.next
    }
}

impl RequestIds {
    /// Numbering that starts at 1.
    pub fn new() -> (r: Self)
        ensures
            r@ == 1,
    {
        RequestIds { next: 1 }
    }

    /// The id of the next command; the one after it comes next.
    pub fn take(&mut self) -> (r: u64)
        ensures
            r == old(self)@,
            final(self)@ == (if old(self)@ == u64::MAX { 0 } else { (old(self)@ + 1) as u64 }),
    {
        let r = self.next;
        self.next = self.next.wrapping_add(1);
        r
    }
}

/// A browser cookie.
#[derive(Debug)]
pub struct CdpCookie {
    pub name: String,
    pub value: String,
    pub domain: String,
    pub path: String,
    pub secure: bool,
    pub http_only: bool,
}

} // verus!
