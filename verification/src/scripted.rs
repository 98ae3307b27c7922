//! A scripted transport: a verified in-memory stand-in for the daemon.
//!
//! Tests and proofs drive the connection layer against it.  Each primitive
//! consumes the front of its own script, and its contract says so exactly;
//! an exhausted script answers like a daemon with nothing to say: a request
//! or a receive reports a generic failure (-1), a pending check reports no
//! event queued (0).  The transport also counts how often the close
//! primitive ran, so a test can observe that a connection closes its handle
//! exactly once.

use crate::transport::Exchange;
use crate::transport::RawReply;
use crate::transport::Transport;
use vstd::prelude::*;

verus! {

/// One scripted outcome for the request primitive.
pub struct ScriptedReply {
    /// The status code the transport reports.
    pub status: i32,
    /// The reply bytes the daemon wrote.
    pub data: Vec<u8>,
    /// The out-of-band messages observed while this request waited.
    pub messages: Vec<Vec<u8>>,
}

/// A transport that replays scripts; see the module documentation.
pub struct ScriptedTransport {
    handle: u64,
    released: bool,
    closes: u32,
    replies: Vec<ScriptedReply>,
    pendings: Vec<i32>,
    events: Vec<RawReply>,
    log: Ghost<Seq<Exchange>>,
    tally: Ghost<nat>,
}

impl ScriptedTransport {
    /// How often the close primitive has run on this transport.
    pub closed spec fn spec_close_count(&self) -> u32 {
        self.closes
    }

    /// The outcomes still scripted for the request primitive, next first.
    pub closed spec fn spec_replies(&self) -> Seq<ScriptedReply> {
        self.replies@
    }

    /// The outcomes still scripted for the pending check, next first.
    pub closed spec fn spec_pendings(&self) -> Seq<i32> {
        self.pendings@
    }

    /// The outcomes still scripted for the receive primitive, next first.
    pub closed spec fn spec_events(&self) -> Seq<RawReply> {
        self.events@
    }

    /// A fresh open transport with the given handle identity, no script, and
    /// no traffic yet.
    pub fn new(handle: u64) -> (r: Self)
        ensures
            r.handle_id() == handle as int,
            !r.closed(),
            r.spec_close_count() == 0,
            r.close_calls() == 0,
            r.sent() == Seq::<Exchange>::empty(),
            r.spec_replies() == Seq::<ScriptedReply>::empty(),
            r.spec_pendings() == Seq::<i32>::empty(),
            r.spec_events() == Seq::<RawReply>::empty(),
    {
        let r = ScriptedTransport {
            handle,
            released: false,
            closes: 0,
            replies: Vec::new(),
            pendings: Vec::new(),
            events: Vec::new(),
            log: Ghost(Seq::empty()),
            tally: Ghost(0),
        };
        proof {
            assert(r.spec_replies() =~= Seq::<ScriptedReply>::empty());
            assert(r.spec_pendings() =~= Seq::<i32>::empty());
            assert(r.spec_events() =~= Seq::<RawReply>::empty());
        }
        r
    }

    /// Append one outcome to the request script.
    pub fn push_reply(&mut self, status: i32, data: Vec<u8>, messages: Vec<Vec<u8>>)
        ensures
            final(self).handle_id() == old(self).handle_id(),
            final(self).closed() == old(self).closed(),
            final(self).spec_close_count() == old(self).spec_close_count(),
            final(self).sent() == old(self).sent(),
            final(self).spec_replies() == old(self).spec_replies().push(
                (ScriptedReply { status, data, messages }),
            ),
            final(self).spec_pendings() == old(self).spec_pendings(),
            final(self).spec_events() == old(self).spec_events(),
    {
        self.replies.push(ScriptedReply { status, data, messages });
    }

    /// Append one outcome to the pending-check script.
    pub fn push_pending(&mut self, status: i32)
        ensures
            final(self).handle_id() == old(self).handle_id(),
            final(self).closed() == old(self).closed(),
            final(self).spec_close_count() == old(self).spec_close_count(),
            final(self).sent() == old(self).sent(),
            final(self).spec_pendings() == old(self).spec_pendings().push(status),
            final(self).spec_replies() == old(self).spec_replies(),
            final(self).spec_events() == old(self).spec_events(),
    {
        self.pendings.push(status);
    }

    /// Append one outcome to the receive script.
    pub fn push_event(&mut self, status: i32, data: Vec<u8>)
        ensures
            final(self).handle_id() == old(self).handle_id(),
            final(self).closed() == old(self).closed(),
            final(self).spec_close_count() == old(self).spec_close_count(),
            final(self).sent() == old(self).sent(),
            final(self).spec_events() == old(self).spec_events().push(
                (RawReply { status, data }),
            ),
            final(self).spec_replies() == old(self).spec_replies(),
            final(self).spec_pendings() == old(self).spec_pendings(),
    {
        self.events.push(RawReply { status, data });
    }

    /// How often the close primitive has run, as a value a test can read.
    pub fn close_count(&self) -> (r: u32)
        ensures
            r == self.spec_close_count(),
    {
        self.closes
    }
}

impl Transport for ScriptedTransport {
    closed spec fn handle_id(&self) -> int {
        self.handle as int
    }

    closed spec fn closed(&self) -> bool {
        self.released
    }

    closed spec fn sent(&self) -> Seq<Exchange> {
        self.log@
    }

    closed spec fn close_calls(&self) -> nat {
        self.tally@
    }

    /// A scripted request replays the script's head; an exhausted script is
    /// a generic failure with no reply and no messages.
    fn request(&mut self, cmd: &str) -> (r: (RawReply, Vec<Vec<u8>>))
        ensures
            old(self).spec_replies().len() > 0 ==> r.0.status == old(self).spec_replies()[0].status
                && r.0.data == old(self).spec_replies()[0].data && r.1 == old(self).spec_replies()[0].messages && final(self).spec_replies() == old(self).spec_replies().drop_first(),
            old(self).spec_replies().len() == 0 ==> r.0.status == -1 && r.0.data@.len() == 0
                && r.1@.len() == 0 && final(self).spec_replies() == old(self).spec_replies(),
            final(self).spec_pendings() == old(self).spec_pendings(),
            final(self).spec_events() == old(self).spec_events(),
            final(self).spec_close_count() == old(self).spec_close_count(),
    {
        let result: (RawReply, Vec<Vec<u8>>) = if self.replies.len() > 0 {
            let scripted = self.replies.remove(0);
            proof {
                assert(self.replies@ =~= old(self).replies@.drop_first());
            }
            (RawReply { status: scripted.status, data: scripted.data }, scripted.messages)
        } else {
            (RawReply { status: -1, data: Vec::new() }, Vec::new())
        };
        self.log = Ghost(
            self.log@.push(
                Exchange {
                    cmd: cmd@,
                    status: result.0.status,
                    data: result.0.data@,
                    messages: result.1.deep_view(),
                },
            ),
        );
        result
    }

    /// A scripted pending check replays the script's head; an exhausted
    /// script reports no event queued.
    fn pending(&mut self) -> (r: i32)
        ensures
            old(self).spec_pendings().len() > 0 ==> r == old(self).spec_pendings()[0] && final(self).spec_pendings() == old(self).spec_pendings().drop_first(),
            old(self).spec_pendings().len() == 0 ==> r == 0 && final(self).spec_pendings() == old(self).spec_pendings(),
            final(self).spec_replies() == old(self).spec_replies(),
            final(self).spec_events() == old(self).spec_events(),
            final(self).spec_close_count() == old(self).spec_close_count(),
    {
        if self.pendings.len() > 0 {
            let code = self.pendings.remove(0);
            proof {
                assert(self.pendings@ =~= old(self).pendings@.drop_first());
            }
            code
        } else {
            0
        }
    }

    /// A scripted receive replays the script's head; an exhausted script is
    /// a generic failure, as a daemon with nothing queued reports.
    fn recv(&mut self) -> (r: RawReply)
        ensures
            old(self).spec_events().len() > 0 ==> r == old(self).spec_events()[0] && final(self).spec_events() == old(self).spec_events().drop_first(),
            old(self).spec_events().len() == 0 ==> r.status == -1 && r.data@.len() == 0 && final(self).spec_events() == old(self).spec_events(),
            final(self).spec_replies() == old(self).spec_replies(),
            final(self).spec_pendings() == old(self).spec_pendings(),
            final(self).spec_close_count() == old(self).spec_close_count(),
    {
        if self.events.len() > 0 {
            let event = self.events.remove(0);
            proof {
                assert(self.events@ =~= old(self).events@.drop_first());
            }
            event
        } else {
            RawReply { status: -1, data: Vec::new() }
        }
    }

    /// Closing marks the handle released and raises the close count by
    /// exactly one; the executable counter a test reads shadows the ghost
    /// count, saturating instead of overflowing.
    fn close(&mut self)
        ensures
            old(self).spec_close_count() < u32::MAX ==> final(self).spec_close_count() == old(self).spec_close_count() + 1,
            final(self).spec_replies() == old(self).spec_replies(),
            final(self).spec_pendings() == old(self).spec_pendings(),
            final(self).spec_events() == old(self).spec_events(),
    {
        self.released = true;
        if self.closes < u32::MAX {
            self.closes = self.closes + 1;
        }
        self.tally = Ghost(self.tally@ + 1);
    }
}

} // verus!
