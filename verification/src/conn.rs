//! The connection state machine: builder, detached state, attached state.
//!
//! A connection owns exactly one live transport handle.  `attach` consumes
//! the detached value and, only when the daemon confirms with `"OK\n"`,
//! produces the attached value owning the same handle; `detach` is the
//! symmetric transition.  A transition that is not confirmed hands the
//! original value back to the caller together with the error, so the caller
//! always retains a valid, closable connection.  Whichever state is live is
//! released by its `close`, which runs the close primitive exactly once.
//!
//! The model of a connection is [`ConnModel`]: the identity of its handle and
//! whether it is attached.  Each boundary-crossing contract speaks of the
//! connection's traffic record ([`WpaCtrl::log`], the transport's ghost
//! observation): a request extends it by exactly one exchange carrying the
//! given command, a transition by one exchange carrying `"ATTACH"` or
//! `"DETACH"`, and the result is in every case the meaning of the outcome of
//! that very exchange — not of some possible one.  The laws at the end of
//! the module are proved of the transition relation.

use crate::codec::check_command;
use crate::codec::cmd_encodable;
use crate::codec::decode_reply;
use crate::codec::interpret_pending;
use crate::codec::interpret_recv;
use crate::codec::interpret_request;
use crate::codec::spec_decoded;
use crate::codec::spec_pending_result;
use crate::codec::spec_recv_result;
use crate::codec::spec_request_result;
use crate::codec::text_result_view;
use crate::codec::BUF_CAPACITY;
use crate::errors::WpaError;
use crate::transport::Exchange;
use crate::transport::MessageCallback;
use crate::transport::RawReply;
use crate::transport::Transport;
use vstd::prelude::*;

verus! {

/// The model of one connection: which handle it owns, and whether it is
/// attached for event delivery.
pub struct ConnModel {
    /// The identity of the owned transport handle.
    pub handle: int,
    /// Whether the daemon delivers unsolicited events to this handle.
    pub attached: bool,
}

/// Whether one raw outcome of the request primitive confirms a state
/// transition: the daemon replied, and the reply reads exactly `"OK\n"`.
pub open spec fn spec_transition_confirmed(status: i32, data: Seq<u8>) -> bool {
    spec_request_result(status, data) == Ok::<Seq<char>, WpaError>("OK\n"@)
}

/// The error a transition reports for an outcome that does not confirm it: a
/// reply other than `"OK\n"` is a generic failure; anything else keeps the
/// error of the request itself.
pub open spec fn spec_transition_error(status: i32, data: Seq<u8>) -> WpaError {
    match spec_request_result(status, data) {
        Ok(_) => WpaError::Failure,
        Err(e) => e,
    }
}

/// One attach step over the model: confirmed, the same handle becomes
/// attached; not confirmed, the model is unchanged and the step reports why.
pub open spec fn spec_attach_step(pre: ConnModel, status: i32, data: Seq<u8>) -> (ConnModel,
    Result<(), WpaError>) {
    if spec_transition_confirmed(status, data) {
        (ConnModel { handle: pre.handle, attached: true }, Ok(()))
    } else {
        (pre, Err(spec_transition_error(status, data)))
    }
}

/// One detach step over the model, symmetric to [`spec_attach_step`].
pub open spec fn spec_detach_step(pre: ConnModel, status: i32, data: Seq<u8>) -> (ConnModel,
    Result<(), WpaError>) {
    if spec_transition_confirmed(status, data) {
        (ConnModel { handle: pre.handle, attached: false }, Ok(()))
    } else {
        (pre, Err(spec_transition_error(status, data)))
    }
}

/// Whether an attach result matches one step of the model transition
/// relation from `pre` under the raw outcome `(status, data)`.
pub open spec fn attach_result_matches<T: Transport>(
    pre: ConnModel,
    status: i32,
    data: Seq<u8>,
    r: Result<WpaCtrlAttached<T>, (WpaCtrl<T>, WpaError)>,
) -> bool {
    let step = spec_attach_step(pre, status, data);
    match r {
        Ok(a) => step.1 == Ok::<(), WpaError>(()) && a.model() == step.0,
        Err(p) => step.1 == Err::<(), WpaError>(p.1) && p.0.model() == pre,
    }
}

/// Whether a detach result matches one step of the model transition
/// relation from `pre` under the raw outcome `(status, data)`.
pub open spec fn detach_result_matches<T: Transport>(
    pre: ConnModel,
    status: i32,
    data: Seq<u8>,
    r: Result<WpaCtrl<T>, (WpaCtrlAttached<T>, WpaError)>,
) -> bool {
    let step = spec_detach_step(pre, status, data);
    match r {
        Ok(c) => step.1 == Ok::<(), WpaError>(()) && c.model() == step.0,
        Err(p) => step.1 == Err::<(), WpaError>(p.1) && p.0.model() == pre,
    }
}

/// The decode of each out-of-band message, in order: what a request call
/// owes its callback.
pub open spec fn decoded_messages(messages: Seq<Seq<u8>>) -> Seq<Result<Seq<char>, WpaError>> {
    messages.map_values(|m: Seq<u8>| spec_decoded(m))
}

/// Whether one request call grew the traffic record by exactly one exchange
/// carrying `cmd`, with the result the meaning of that exchange's outcome.
pub open spec fn request_step(
    pre: Seq<Exchange>,
    post: Seq<Exchange>,
    cmd: Seq<char>,
    r: Result<String, WpaError>,
) -> bool {
    &&& post.len() == pre.len() + 1
    &&& post == pre.push(post.last())
    &&& post.last().cmd == cmd
    &&& text_result_view(r) == spec_request_result(post.last().status, post.last().data)
}

/// Whether one transition call grew the traffic record by exactly one
/// exchange carrying `cmd`.
pub open spec fn transition_step(pre: Seq<Exchange>, post: Seq<Exchange>, cmd: Seq<char>) -> bool {
    &&& post.len() == pre.len() + 1
    &&& post == pre.push(post.last())
    &&& post.last().cmd == cmd
}

/// Whether an attach result is one step of the model transition relation
/// under the exchange its own call logged: exactly one `"ATTACH"` request
/// was issued, and the result matches the outcome that actually came back —
/// in particular, a confirming reply forces the `Ok` arm, and any reply
/// other than `"OK\n"` forces `Err` with the generic failure.
pub open spec fn attach_step_logged<T: Transport>(
    pre_log: Seq<Exchange>,
    pre: ConnModel,
    r: Result<WpaCtrlAttached<T>, (WpaCtrl<T>, WpaError)>,
) -> bool {
    let post_log = match r {
        Ok(a) => a.log(),
        Err(p) => p.0.log(),
    };
    &&& transition_step(pre_log, post_log, "ATTACH"@)
    &&& attach_result_matches(pre, post_log.last().status, post_log.last().data, r)
}

/// Whether a detach result is one step of the model transition relation
/// under the exchange its own call logged; see [`attach_step_logged`].
pub open spec fn detach_step_logged<T: Transport>(
    pre_log: Seq<Exchange>,
    pre: ConnModel,
    r: Result<WpaCtrl<T>, (WpaCtrlAttached<T>, WpaError)>,
) -> bool {
    let post_log = match r {
        Ok(c) => c.log(),
        Err(p) => p.0.log(),
    };
    &&& transition_step(pre_log, post_log, "DETACH"@)
    &&& detach_result_matches(pre, post_log.last().status, post_log.last().data, r)
}

/// Assembles connection parameters before opening: the control-socket path
/// and an optional client-side socket path.
pub struct WpaCtrlBuilder {
    /// A path for the client-side socket; the daemon assigns one if none is
    /// given.
    pub cli_path: Option<String>,
    /// A path for the daemon's control socket; a well-known default is used
    /// if none is given.
    pub ctrl_path: Option<String>,
}

impl Default for WpaCtrlBuilder {
    /// A builder with neither path configured.
    fn default() -> (r: Self)
        ensures
            r.cli_path is None,
            r.ctrl_path is None,
    {
        WpaCtrlBuilder { cli_path: None, ctrl_path: None }
    }
}

impl WpaCtrlBuilder {
    /// A path-like value for the client-side UNIX domain socket.
    pub fn cli_path(self, cli_path: Option<String>) -> (r: Self)
        ensures
            r.cli_path == cli_path,
            r.ctrl_path == self.ctrl_path,
    {
        WpaCtrlBuilder { cli_path, ctrl_path: self.ctrl_path }
    }

    /// A path-like value for the daemon's control UNIX domain socket.
    pub fn ctrl_path(self, ctrl_path: Option<String>) -> (r: Self)
        ensures
            r.ctrl_path == ctrl_path,
            r.cli_path == self.cli_path,
    {
        WpaCtrlBuilder { cli_path: self.cli_path, ctrl_path }
    }

    /// The control-socket path an open will use: the configured one, or the
    /// well-known daemon socket path.
    pub open spec fn spec_resolved_ctrl_path(self) -> Seq<char> {
        match self.ctrl_path {
            Some(p) => p@,
            None => "/var/run/wpa_supplicant/wlan0"@,
        }
    }

    /// The control-socket path an open will use; see
    /// [`WpaCtrlBuilder::spec_resolved_ctrl_path`].
    pub fn resolved_ctrl_path(&self) -> (r: String)
        ensures
            r@ == self.spec_resolved_ctrl_path(),
    {
        match &self.ctrl_path {
            Some(p) => p.clone(),
            None => "/var/run/wpa_supplicant/wlan0".to_owned(),
        }
    }

    /// Open a control interface to the daemon.
    ///
    /// The open primitive itself is outside work: the embedding program runs
    /// it on the resolved paths and hands in the transport it produced, or
    /// `None` where the primitive returned no handle.  With a transport this
    /// always succeeds and the new detached connection owns that handle and
    /// carries its traffic record; with `None` it reports exactly the
    /// interface-creation failure.
    pub fn open<T: Transport>(self, transport: Option<T>) -> (r: Result<WpaCtrl<T>, WpaError>)
        requires
            transport matches Some(t) ==> !t.closed(),
        ensures
            transport matches Some(t) ==> r matches Ok(c) && c.wf() && c.handle() == t.handle_id()
                && c.log() == t.sent() && c.close_calls() == t.close_calls(),
            transport is None ==> r == Err::<WpaCtrl<T>, WpaError>(WpaError::Interface),
    {
        match transport {
            Some(t) => Ok(WpaCtrl { transport: t }),
            None => Err(WpaError::Interface),
        }
    }
}

/// A connection to the daemon in the detached state: commands and replies
/// only, no event delivery.
pub struct WpaCtrl<T: Transport> {
    transport: T,
}

impl<T: Transport> WpaCtrl<T> {
    /// Well-formed: the underlying handle has not been closed.
    pub closed spec fn wf(self) -> bool {
        !self.transport.closed()
    }

    /// The identity of the underlying handle.
    pub closed spec fn handle(self) -> int {
        self.transport.handle_id()
    }

    /// The traffic record of the underlying handle: every exchange its
    /// request primitive has carried, oldest first.
    pub closed spec fn log(self) -> Seq<Exchange> {
        self.transport.sent()
    }

    /// How often the close primitive has run on the underlying handle.
    /// Every operation of this type keeps the count; only `close` raises it,
    /// by exactly one, and consumes the connection — so over a connection's
    /// lifetime the handle is closed exactly once.
    pub closed spec fn close_calls(self) -> nat {
        self.transport.close_calls()
    }

    /// The model of this connection: its handle, detached.
    pub open spec fn model(self) -> ConnModel {
        ConnModel { handle: self.handle(), attached: false }
    }

    /// Creates a builder for a connection to the daemon.
    pub fn new() -> (r: WpaCtrlBuilder)
        ensures
            r.cli_path is None,
            r.ctrl_path is None,
    {
        WpaCtrlBuilder { cli_path: None, ctrl_path: None }
    }

    /// Send a command to the daemon and return the decoded reply.
    ///
    /// A command holding an embedded NUL is never sent — the traffic record
    /// does not grow — and reports exactly the invalid-command error.
    /// Otherwise exactly one exchange carrying `cmd` is issued, and the
    /// result is the meaning, under [`spec_request_result`], of that
    /// exchange's outcome: a decoded reply of at most [`BUF_CAPACITY`]
    /// characters, a decode error, a generic failure, a timeout, or an
    /// unknown status.  A detached connection has no callback, so
    /// out-of-band messages observed while waiting are discarded.
    pub fn request(&mut self, cmd: &str) -> (r: Result<String, WpaError>)
        requires
            old(self).wf(),
        ensures
            final(self).wf(),
            final(self).handle() == old(self).handle(),
            final(self).close_calls() == old(self).close_calls(),
            !cmd_encodable(cmd@) ==> r == Err::<String, WpaError>(WpaError::InvalidCommand)
                && final(self).log() == old(self).log(),
            cmd_encodable(cmd@) ==> request_step(old(self).log(), final(self).log(), cmd@, r),
            r matches Ok(s) ==> s@.len() <= BUF_CAPACITY,
    {
        if !check_command(cmd) {
            return Err(WpaError::InvalidCommand);
        }
        let (raw, _messages) = self.transport.request(cmd);
        let RawReply { status, data } = raw;
        let ghost gdata: Seq<u8> = data@;
        let r = interpret_request(status, data);
        proof {
            assert(final(self).log().last().cmd == cmd@);
            assert(text_result_view(r) == spec_request_result(status, gdata));
        }
        r
    }

    /// Register as an event monitor for the control interface.
    ///
    /// Issues exactly one exchange carrying the literal command `"ATTACH"`;
    /// only the exact reply `"OK\n"` confirms the transition, and the result
    /// matches the model step under that exchange's actual outcome.  On
    /// success the attached connection owns the same handle; on failure the
    /// caller receives this connection back, unchanged and still closable,
    /// together with the error.
    pub fn attach(self) -> (r: Result<WpaCtrlAttached<T>, (WpaCtrl<T>, WpaError)>)
        requires
            self.wf(),
        ensures
            r matches Ok(a) ==> a.wf() && a.handle() == self.handle() && a.close_calls()
                == self.close_calls(),
            r matches Err(p) ==> p.0.wf() && p.0.handle() == self.handle() && p.0.close_calls()
                == self.close_calls(),
            attach_step_logged(self.log(), self.model(), r),
    {
        let ghost pre = self.model();
        let ghost pre_log = self.log();
        let WpaCtrl { transport: mut t } = self;
        let (raw, _messages) = t.request("ATTACH");
        let RawReply { status, data } = raw;
        let ghost gdata: Seq<u8> = data@;
        proof {
            assert(t.sent().last().status == status && t.sent().last().data == gdata);
        }
        let reply = interpret_request(status, data);
        match reply {
            Ok(text) => {
                let confirm: String = "OK\n".to_owned();
                if text == confirm {
                    let res: Result<WpaCtrlAttached<T>, (WpaCtrl<T>, WpaError)> = Ok(
                        WpaCtrlAttached { transport: t },
                    );
                    proof {
                        assert(spec_transition_confirmed(status, gdata));
                        assert(attach_step_logged(pre_log, pre, res));
                    }
                    res
                } else {
                    let res: Result<WpaCtrlAttached<T>, (WpaCtrl<T>, WpaError)> = Err(
                        (WpaCtrl { transport: t }, WpaError::Failure),
                    );
                    proof {
                        assert(!spec_transition_confirmed(status, gdata));
                        assert(attach_step_logged(pre_log, pre, res));
                    }
                    res
                }
            },
            Err(e) => {
                let res: Result<WpaCtrlAttached<T>, (WpaCtrl<T>, WpaError)> = Err(
                    (WpaCtrl { transport: t }, e),
                );
                proof {
                    assert(!spec_transition_confirmed(status, gdata));
                    assert(attach_step_logged(pre_log, pre, res));
                }
                res
            },
        }
    }

    /// Release the connection: run the close primitive exactly once on the
    /// underlying handle and hand the spent transport back (a test reads its
    /// counters from it; an embedding program drops it).  The traffic record
    /// is untouched: close carries no command.
    pub fn close(self) -> (t: T)
        requires
            self.wf(),
        ensures
            t.closed(),
            t.handle_id() == self.handle(),
            t.sent() == self.log(),
            t.close_calls() == self.close_calls() + 1,
    {
        let WpaCtrl { transport: mut t } = self;
        t.close();
        t
    }
}

/// A connection to the daemon in the attached state: it also receives
/// unsolicited event messages, polled with `pending` and drained with `recv`.
pub struct WpaCtrlAttached<T: Transport> {
    transport: T,
}

impl<T: Transport> WpaCtrlAttached<T> {
    /// Well-formed: the underlying handle has not been closed.
    pub closed spec fn wf(self) -> bool {
        !self.transport.closed()
    }

    /// The identity of the underlying handle.
    pub closed spec fn handle(self) -> int {
        self.transport.handle_id()
    }

    /// The traffic record of the underlying handle: every exchange its
    /// request primitive has carried, oldest first.
    pub closed spec fn log(self) -> Seq<Exchange> {
        self.transport.sent()
    }

    /// How often the close primitive has run on the underlying handle.
    /// Every operation of this type keeps the count; only `close` raises it,
    /// by exactly one, and consumes the connection — so over a connection's
    /// lifetime the handle is closed exactly once.
    pub closed spec fn close_calls(self) -> nat {
        self.transport.close_calls()
    }

    /// The model of this connection: its handle, attached.
    pub open spec fn model(self) -> ConnModel {
        ConnModel { handle: self.handle(), attached: true }
    }

    /// Send a command to the daemon and return the decoded reply, delivering
    /// each out-of-band event message observed while waiting to the given
    /// callback, in order, before returning.
    ///
    /// The exchange and its reply are pinned exactly as by
    /// [`WpaCtrl::request`], and the callback's delivery record grows by
    /// exactly the decodes of the messages of that exchange, in arrival
    /// order — each as the decoded text, or the decode error.  A command
    /// holding an embedded NUL is never sent and nothing is delivered.
    pub fn request<C: MessageCallback>(&mut self, cmd: &str, cb: &mut C) -> (r: Result<
        String,
        WpaError,
    >)
        requires
            old(self).wf(),
        ensures
            final(self).wf(),
            final(self).handle() == old(self).handle(),
            final(self).close_calls() == old(self).close_calls(),
            !cmd_encodable(cmd@) ==> r == Err::<String, WpaError>(WpaError::InvalidCommand)
                && final(self).log() == old(self).log() && final(cb).delivered() == old(
                cb,
            ).delivered(),
            cmd_encodable(cmd@) ==> request_step(old(self).log(), final(self).log(), cmd@, r)
                && final(cb).delivered() == old(cb).delivered() + decoded_messages(
                final(self).log().last().messages,
            ),
            r matches Ok(s) ==> s@.len() <= BUF_CAPACITY,
    {
        if !check_command(cmd) {
            return Err(WpaError::InvalidCommand);
        }
        let (raw, messages) = self.transport.request(cmd);
        proof {
            assert(final(self).log().last().messages == messages.deep_view());
        }
        deliver_messages(cb, messages);
        let RawReply { status, data } = raw;
        let ghost gdata: Seq<u8> = data@;
        let r = interpret_request(status, data);
        proof {
            assert(text_result_view(r) == spec_request_result(status, gdata));
        }
        r
    }

    /// Check whether at least one event message is queued by the daemon.
    ///
    /// The result is the meaning, under [`spec_pending_result`], of the raw
    /// status the transport reported; this call never blocks and carries no
    /// command.
    pub fn pending(&mut self) -> (r: Result<bool, WpaError>)
        requires
            old(self).wf(),
        ensures
            final(self).wf(),
            final(self).handle() == old(self).handle(),
            final(self).close_calls() == old(self).close_calls(),
            final(self).log() == old(self).log(),
            exists|status: i32| r == spec_pending_result(status),
    {
        let status = self.transport.pending();
        let r = interpret_pending(status);
        proof {
            assert(r == spec_pending_result(status));
        }
        r
    }

    /// Drain exactly one queued event message and return its decoded text.
    ///
    /// The result is the meaning, under [`spec_recv_result`], of the raw
    /// outcome the transport produced; with nothing queued the transport
    /// commonly reports the generic failure.  It carries no command.
    pub fn recv(&mut self) -> (r: Result<String, WpaError>)
        requires
            old(self).wf(),
        ensures
            final(self).wf(),
            final(self).handle() == old(self).handle(),
            final(self).close_calls() == old(self).close_calls(),
            final(self).log() == old(self).log(),
            exists|status: i32, data: Seq<u8>|
                text_result_view(r) == spec_recv_result(status, data),
            r matches Ok(s) ==> s@.len() <= BUF_CAPACITY,
    {
        let raw = self.transport.recv();
        let RawReply { status, data } = raw;
        let ghost gdata: Seq<u8> = data@;
        let r = interpret_recv(status, data);
        proof {
            assert(text_result_view(r) == spec_recv_result(status, gdata));
        }
        r
    }

    /// Unregister the event monitor.
    ///
    /// Issues exactly one exchange carrying the literal command `"DETACH"`;
    /// only the exact reply `"OK\n"` confirms the transition, and the result
    /// matches the model step under that exchange's actual outcome.  On
    /// success the detached connection owns the same handle; on failure the
    /// caller receives this connection back, unchanged and still closable,
    /// together with the error.
    pub fn detach(self) -> (r: Result<WpaCtrl<T>, (WpaCtrlAttached<T>, WpaError)>)
        requires
            self.wf(),
        ensures
            r matches Ok(c) ==> c.wf() && c.handle() == self.handle() && c.close_calls()
                == self.close_calls(),
            r matches Err(p) ==> p.0.wf() && p.0.handle() == self.handle() && p.0.close_calls()
                == self.close_calls(),
            detach_step_logged(self.log(), self.model(), r),
    {
        let ghost pre = self.model();
        let ghost pre_log = self.log();
        let WpaCtrlAttached { transport: mut t } = self;
        let (raw, _messages) = t.request("DETACH");
        let RawReply { status, data } = raw;
        let ghost gdata: Seq<u8> = data@;
        proof {
            assert(t.sent().last().status == status && t.sent().last().data == gdata);
        }
        let reply = interpret_request(status, data);
        match reply {
            Ok(text) => {
                let confirm: String = "OK\n".to_owned();
                if text == confirm {
                    let res: Result<WpaCtrl<T>, (WpaCtrlAttached<T>, WpaError)> = Ok(
                        WpaCtrl { transport: t },
                    );
                    proof {
                        assert(spec_transition_confirmed(status, gdata));
                        assert(detach_step_logged(pre_log, pre, res));
                    }
                    res
                } else {
                    let res: Result<WpaCtrl<T>, (WpaCtrlAttached<T>, WpaError)> = Err(
                        (WpaCtrlAttached { transport: t }, WpaError::Failure),
                    );
                    proof {
                        assert(!spec_transition_confirmed(status, gdata));
                        assert(detach_step_logged(pre_log, pre, res));
                    }
                    res
                }
            },
            Err(e) => {
                let res: Result<WpaCtrl<T>, (WpaCtrlAttached<T>, WpaError)> = Err(
                    (WpaCtrlAttached { transport: t }, e),
                );
                proof {
                    assert(!spec_transition_confirmed(status, gdata));
                    assert(detach_step_logged(pre_log, pre, res));
                }
                res
            },
        }
    }

    /// Release the connection: run the close primitive exactly once on the
    /// underlying handle and hand the spent transport back.  The traffic
    /// record is untouched: close carries no command.
    pub fn close(self) -> (t: T)
        requires
            self.wf(),
        ensures
            t.closed(),
            t.handle_id() == self.handle(),
            t.sent() == self.log(),
            t.close_calls() == self.close_calls() + 1,
    {
        let WpaCtrlAttached { transport: mut t } = self;
        t.close();
        t
    }
}

/// Decode each out-of-band message and hand it to the callback, in arrival
/// order: the callback's delivery record grows by exactly the decodes of
/// the messages.  A message is decoded like an event: its bytes are kept up
/// to the fixed buffer capacity and read as UTF-8.
fn deliver_messages<C: MessageCallback>(cb: &mut C, messages: Vec<Vec<u8>>)
    ensures
        final(cb).delivered() == old(cb).delivered() + decoded_messages(messages.deep_view()),
    decreases messages@.len(),
{
    let ghost all: Seq<Seq<u8>> = messages.deep_view();
    let mut rest = messages;
    if rest.len() > 0 {
        let m = rest.remove(0);
        proof {
            assert(m.deep_view() =~= m@);
            assert(rest.deep_view() =~= all.drop_first());
            assert(m@ == all[0]);
        }
        cb.on_message(decode_reply(m));
        deliver_messages(cb, rest);
        proof {
            assert(decoded_messages(all) =~= seq![spec_decoded(all[0])] + decoded_messages(
                all.drop_first(),
            ));
            assert(old(cb).delivered().push(spec_decoded(all[0])) + decoded_messages(
                all.drop_first(),
            ) =~= old(cb).delivered() + decoded_messages(all));
        }
    } else {
        proof {
            assert(decoded_messages(all) =~= Seq::<Result<Seq<char>, WpaError>>::empty());
            assert(old(cb).delivered() + decoded_messages(all) =~= old(cb).delivered());
        }
    }
}

/// Law: a confirmed attach followed by a confirmed detach returns the
/// connection to exactly the model it started from — over the transition
/// relation, detach undoes attach, whatever the two confirming outcomes.
pub proof fn lemma_attach_detach_round_trip(
    pre: ConnModel,
    status1: i32,
    data1: Seq<u8>,
    status2: i32,
    data2: Seq<u8>,
)
    requires
        !pre.attached,
        spec_transition_confirmed(status1, data1),
        spec_transition_confirmed(status2, data2),
    ensures
        spec_detach_step(spec_attach_step(pre, status1, data1).0, status2, data2).0 == pre,
        spec_attach_step(pre, status1, data1).1 == Ok::<(), WpaError>(()),
        spec_detach_step(spec_attach_step(pre, status1, data1).0, status2, data2).1 == Ok::<
            (),
            WpaError,
        >(()),
{
}

/// Law: a transition whose outcome is not confirming leaves the model — and
/// with it the handle's ownership — unchanged, and reports exactly the
/// transition's error; in particular the model stays closable.
pub proof fn lemma_failed_transition_keeps_model(pre: ConnModel, status: i32, data: Seq<u8>)
    requires
        !spec_transition_confirmed(status, data),
    ensures
        spec_attach_step(pre, status, data).0 == pre,
        spec_attach_step(pre, status, data).1 == Err::<(), WpaError>(
            spec_transition_error(status, data),
        ),
        spec_detach_step(pre, status, data).0 == pre,
        spec_detach_step(pre, status, data).1 == Err::<(), WpaError>(
            spec_transition_error(status, data),
        ),
{
}

/// Law: a transition that got a reply other than exactly `"OK\n"` is never
/// confirmed, and its reported error is exactly the generic failure.
pub proof fn lemma_non_ok_reply_is_failure(status: i32, data: Seq<u8>)
    requires
        spec_request_result(status, data) matches Ok(t) && t != "OK\n"@,
    ensures
        !spec_transition_confirmed(status, data),
        spec_transition_error(status, data) == WpaError::Failure,
{
}

} // verus!
