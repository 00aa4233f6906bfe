//! A stand-in for the upstream that answers without a socket.

use vstd::prelude::*;
use crate::text::{ascii_bytes, ascii_of, copy_bytes};

verus! {

/// An upstream that answers every request with the same canned reply.
#[derive(Default, Debug, Clone, Copy)]
pub struct MockWolfApi;

/// The canned reply to a request.
pub open spec fn mock_reply() -> Seq<u8> {
    ascii_bytes("{\"mock\":true}"@)
}

/// The one event of the canned event stream.
pub open spec fn mock_event() -> Seq<u8> {
    ascii_bytes("data: {\"type\":\"mock\"}\n\n"@)
}

impl MockWolfApi {
    /// Answers any request with the canned reply.
    pub fn send_passthrough(&self, method: &[u8], path: &[u8], body: &Option<Vec<u8>>) -> (reply:
        Vec<u8>)
        ensures
            reply@ == mock_reply(),
    {
        proof {
            reveal_strlit("{\"mock\":true}");
        }
        copy_bytes(ascii_of("{\"mock\":true}"))
    }

    /// The events of the canned stream: there is one.
    pub fn sse_stream(&self, path: &[u8]) -> (events: Vec<Vec<u8>>)
        ensures
            events@.len() == 1,
            events@[0]@ == mock_event(),
    {
        proof {
            reveal_strlit("data: {\"type\":\"mock\"}\n\n");
        }
        let mut events: Vec<Vec<u8>> = Vec::new();
        events.push(copy_bytes(ascii_of("data: {\"type\":\"mock\"}\n\n")));
        events
    }
}

} // verus!
