//! The transport boundary: the narrow synchronous API through which the
//! daemon is reached, and the callback capability for out-of-band messages.
//!
//! A [`Transport`] value stands for one open handle.  Its contract fixes
//! what every implementation keeps: the handle's identity never changes, no
//! primitive may run on a closed handle — closing is not idempotent in the
//! daemon's own library, so the connection layer above is verified to close
//! each handle exactly once — and the ghost observation [`Transport::sent`]
//! records every command the request primitive carries, together with the
//! raw outcome.  Through that record the connection layer's contracts say
//! which command each call handed over and tie each result to the outcome
//! that actually came back, not merely to some possible one.

use crate::codec::text_result_view;
use crate::errors::WpaError;
use vstd::prelude::*;

verus! {

/// One raw outcome of the transport's request or receive primitive.
pub struct RawReply {
    /// 0 means success; -1 a generic failure; -2 a timeout (request only);
    /// any other code is unknown and carried verbatim.
    pub status: i32,
    /// The bytes the daemon wrote; meaningful only when `status == 0`.
    pub data: Vec<u8>,
}

/// One observed exchange on the request primitive: the command handed to the
/// daemon and the raw outcome that came back.
pub struct Exchange {
    /// The command text carried by the request.
    pub cmd: Seq<char>,
    /// The status code the transport reported.
    pub status: i32,
    /// The reply bytes the daemon wrote.
    pub data: Seq<u8>,
    /// The out-of-band event messages observed while the request waited,
    /// oldest first.
    pub messages: Seq<Seq<u8>>,
}

/// One open connection to the daemon: the four primitives of the control
/// socket.  The handle's identity is `handle_id`; `closed` says whether the
/// close primitive has run; `sent` is the record of request traffic.  Every
/// primitive demands a live handle, and only `close` gives the handle up.
pub trait Transport: Sized {
    /// The identity of the underlying handle.  Verified implementations
    /// override this; the default stands only for implementations outside
    /// the verified world, of which nothing is proved.
    open spec fn handle_id(&self) -> int {
        0
    }

    /// Whether the close primitive has run on this handle; see `handle_id`
    /// on the default.
    open spec fn closed(&self) -> bool {
        false
    }

    /// Every exchange the request primitive has carried on this handle,
    /// oldest first; see `handle_id` on the default.
    open spec fn sent(&self) -> Seq<Exchange> {
        Seq::empty()
    }

    /// How often the close primitive has run on this handle; see `handle_id`
    /// on the default.  Together with the clauses below — every primitive
    /// keeps this count, and `close` raises it by exactly one — it carries
    /// the close-exactly-once discipline through the connection layer.
    open spec fn close_calls(&self) -> nat {
        0
    }

    /// The request primitive: send one command and block until a reply, a
    /// failure or a timeout.  Returns the raw reply, and the out-of-band
    /// event messages observed while waiting, in the order they arrived.
    /// The traffic record grows by exactly this exchange.
    fn request(&mut self, cmd: &str) -> (r: (RawReply, Vec<Vec<u8>>))
        requires
            !old(self).closed(),
        ensures
            final(self).handle_id() == old(self).handle_id(),
            !final(self).closed(),
            final(self).sent() == old(self).sent().push(
                (Exchange {
                    cmd: cmd@,
                    status: r.0.status,
                    data: r.0.data@,
                    messages: r.1.deep_view(),
                }),
            ),
            final(self).close_calls() == old(self).close_calls(),
    ;

    /// The pending-check primitive: 0 means no event queued, 1 at least one,
    /// -1 a failure.  Never blocks, and carries no command.
    fn pending(&mut self) -> (r: i32)
        requires
            !old(self).closed(),
        ensures
            final(self).handle_id() == old(self).handle_id(),
            !final(self).closed(),
            final(self).sent() == old(self).sent(),
            final(self).close_calls() == old(self).close_calls(),
    ;

    /// The receive primitive: drain exactly one queued event message.  It
    /// carries no command.
    fn recv(&mut self) -> (r: RawReply)
        requires
            !old(self).closed(),
        ensures
            final(self).handle_id() == old(self).handle_id(),
            !final(self).closed(),
            final(self).sent() == old(self).sent(),
            final(self).close_calls() == old(self).close_calls(),
    ;

    /// The close primitive: release the handle.  Must run exactly once per
    /// open handle; afterwards no other primitive may run.
    fn close(&mut self)
        requires
            !old(self).closed(),
        ensures
            final(self).handle_id() == old(self).handle_id(),
            final(self).closed(),
            final(self).sent() == old(self).sent(),
            final(self).close_calls() == old(self).close_calls() + 1,
    ;
}

/// A caller-supplied capability for out-of-band messages: during one request
/// with a callback, each event message observed while waiting is decoded and
/// handed to `on_message`, synchronously, on the calling thread, within that
/// request call's dynamic extent.
///
/// The callback must not re-enter the channel: the connection is mutably
/// borrowed for the whole request call, so no re-entrant request, attach or
/// detach on the same connection can compile.
pub trait MessageCallback: Sized {
    /// The messages delivered to this callback so far, oldest first, each as
    /// decoded text or the decode error.  Verified implementations override
    /// this; the default stands only for implementations outside the
    /// verified world, of which nothing is proved.
    open spec fn delivered(&self) -> Seq<Result<Seq<char>, WpaError>> {
        Seq::empty()
    }

    /// Called once per out-of-band message, in arrival order; the argument is
    /// the decoded message text, or the decode error.
    fn on_message(&mut self, msg: Result<String, WpaError>)
        ensures
            final(self).delivered() == old(self).delivered().push(text_result_view(msg)),
    ;
}

/// A [`MessageCallback`] that stores every delivered message, in order.
pub struct MessageCollector {
    /// The messages delivered so far, oldest first.
    pub messages: Vec<Result<String, WpaError>>,
}

impl MessageCollector {
    /// A collector that has seen no messages.
    pub fn new() -> (r: Self)
        ensures
            r.messages@.len() == 0,
            r.delivered() == Seq::<Result<Seq<char>, WpaError>>::empty(),
    {
        let r = MessageCollector { messages: Vec::new() };
        proof {
            assert(r.delivered() =~= Seq::<Result<Seq<char>, WpaError>>::empty());
        }
        r
    }
}

impl MessageCallback for MessageCollector {
    /// What was delivered is exactly what was stored, viewed as text.
    open spec fn delivered(&self) -> Seq<Result<Seq<char>, WpaError>> {
        self.messages@.map_values(|m: Result<String, WpaError>| text_result_view(m))
    }

    fn on_message(&mut self, msg: Result<String, WpaError>) {
        let ghost pre = self.messages@;
        self.messages.push(msg);
        proof {
            assert(self.delivered() =~= old(self).delivered().push(text_result_view(msg)));
        }
    }
}

} // verus!
