//! The reactor: the single owner of all correlation and subscription state.
//!
//! The reactor advances in atomic steps. Each step takes one event — bytes
//! read from the pipe, a command dequeued from the shared queue, or the news
//! that one side is gone — and either keeps running, hands back one frame to
//! write, or ends in a terminal state. The event loop around it (reading the
//! pipe, awaiting the queue, performing the writes) lives outside; every
//! decision the loop acts on is made here, under contract.
//!
//! End of stream is confirmed, never assumed: some pipe implementations
//! yield a benign zero-length read when nothing is ready yet, so one empty
//! read only arms a tentative flag and a second consecutive empty read
//! closes the stream. Any data in between disarms the flag, and the framer's
//! state is untouched by empty reads, so the data decodes exactly as if no
//! empty read had occurred.

use vstd::prelude::*;

use crate::channels::send_property;
use crate::correlation::{HandlerJar, ResponseHandler};
use crate::framer::{split_lines, split_rest, MessageBuffer};
use crate::message::{
    decode_line_model, decode_lines_model, decode_view, DecodeError, Message, MessageModel,
};
use crate::wire::{encode_frame, frame_bytes, parts_ok, CommandPart, CommandPartModel};
use tokio::sync::mpsc;

verus! {

/// A many-shot destination for one property's change notifications.
pub type PropertyChangeSender = mpsc::UnboundedSender<String>;

/// What a caller asks the reactor to do.
pub enum Command {
    /// Send a command and resolve `handler` with the player's reply.
    WithResponse { command: Vec<CommandPart>, handler: ResponseHandler },
    /// Subscribe `data_tx` to a property's change notifications, then send
    /// the observe command, resolving `handler` with its acknowledgment.
    ObserveProperty { property: String, handler: ResponseHandler, data_tx: PropertyChangeSender },
}

/// Which side ended an orderly shutdown.
#[derive(Debug, Clone, Copy, PartialEq, Eq, Structural)]
pub enum PipeClosed {
    /// The player closed its end of the pipe: confirmed end of stream.
    Mpv,
    /// Every command-queue handle is gone: the callers are done.
    Commands,
}

/// One event for the reactor to handle: whichever of the two sources the
/// event loop saw become ready.
pub enum ReactorEvent {
    /// A read completed with these bytes; empty means a zero-length read.
    PipeRead(Vec<u8>),
    /// A command came out of the shared queue.
    CommandReceived(Command),
    /// The shared queue is closed: no sender handle remains.
    CommandsClosed,
}

/// What the event loop must do after one step.
pub enum StepResult {
    /// Nothing to do; wait for the next event.
    Continue,
    /// Write this frame to the pipe, then wait for the next event.
    Write(Vec<u8>),
    /// Stop: one side closed down in an orderly way.
    Closed(PipeClosed),
}

/// The sender registered for a property: the latest subscription wins, so
/// one destination is active per property name at a time.
pub open spec fn sub_lookup(
    subs: Seq<(String, PropertyChangeSender)>,
    name: Seq<char>,
) -> Option<PropertyChangeSender>
    decreases subs.len(),
{
    if subs.len() == 0 {
        None
    } else if subs.last().0@ == name {
        Some(subs.last().1)
    } else {
        sub_lookup(subs.drop_last(), name)
    }
}

/// How a batch of decoded messages drains the correlation table: each
/// correlated response removes (and fires) the entry under its id; every
/// other message leaves the table alone.
pub open spec fn drain_handlers(
    m: Map<i64, ResponseHandler>,
    msgs: Seq<Result<MessageModel, DecodeError>>,
) -> Map<i64, ResponseHandler>
    decreases msgs.len(),
{
    if msgs.len() == 0 {
        m
    } else {
        let rest = drain_handlers(m, msgs.drop_last());
        match msgs.last() {
            Ok(MessageModel::Response { request_id, .. }) => rest.remove(request_id),
            _ => rest,
        }
    }
}

/// The command array of a property-observation request.
pub open spec fn observe_parts(property: Seq<char>) -> Seq<CommandPartModel> {
    seq![
        CommandPartModel::Text("observe_property"@),
        CommandPartModel::Int(1),
        CommandPartModel::Text(property),
    ]
}

/// An event the reactor can take: the one command array the renderer cannot
/// spell is excluded.
pub open spec fn event_ok(event: ReactorEvent) -> bool {
    match event {
        ReactorEvent::CommandReceived(Command::WithResponse { command, .. }) => parts_ok(
            command.deep_view(),
        ),
        _ => true,
    }
}

/// The event loop's state: the framer, the correlation table, the
/// subscription table and the tentative end-of-stream flag.
pub struct Reactor {
    message_buffer: MessageBuffer,
    handlers: HandlerJar,
    observe_property_handlers: Vec<(String, PropertyChangeSender)>,
    is_maybe_eof: bool,
}

impl Reactor {
    /// The partial line the framer holds.
    pub closed spec fn buffered(&self) -> Seq<u8> {
        self.message_buffer@
    }

    /// The outstanding reply destinations by request id.
    pub closed spec fn handlers_model(&self) -> Map<i64, ResponseHandler> {
        self.handlers.handlers_model()
    }

    /// The id the next command will take.
    pub closed spec fn next_id(&self) -> i64 {
        self.handlers.next_id()
    }

    /// Every subscription ever made, in order; the latest per name is active.
    pub closed spec fn subscriptions(&self) -> Seq<(String, PropertyChangeSender)> {
        self.observe_property_handlers@
    }

    /// Whether the previous read was a zero-length read.
    pub closed spec fn maybe_eof(&self) -> bool {
        self.is_maybe_eof
    }

    /// The correlation table is well formed: ids strictly below the counter.
    pub closed spec fn wf(&self) -> bool {
        self.handlers.wf()
    }

    /// A fresh reactor: nothing buffered, nothing outstanding, nothing
    /// subscribed, ids starting at zero, no tentative end of stream.
    pub fn new() -> (r: Reactor)
        ensures
            r.buffered() == Seq::<u8>::empty(),
            r.handlers_model() == Map::<i64, ResponseHandler>::empty(),
            r.next_id() == 0,
            r.subscriptions() == Seq::<(String, PropertyChangeSender)>::empty(),
            !r.maybe_eof(),
            r.wf(),
    {
        Reactor {
            message_buffer: MessageBuffer::new(),
            handlers: HandlerJar::new(),
            observe_property_handlers: Vec::new(),
            is_maybe_eof: false,
        }
    }

    /// Whether another request id can still be allocated. The counter is
    /// 64-bit and never reused, so in practice this never turns false; the
    /// event loop checks it before handing in a command.
    pub fn can_allocate(&self) -> (r: bool)
        ensures
            r == (self.next_id() < i64::MAX),
    {
        self.handlers.peek_next_id() < i64::MAX
    }

    /// Registers a reply destination under a fresh id and returns that id.
    pub fn insert_command_handler(&mut self, handler: ResponseHandler) -> (id: i64)
        requires
            old(self).wf(),
            old(self).next_id() < i64::MAX,
        ensures
            id == old(self).next_id(),
            final(self).handlers_model() == old(self).handlers_model().insert(id, handler),
            final(self).next_id() == old(self).next_id() + 1,
            final(self).buffered() == old(self).buffered(),
            final(self).subscriptions() == old(self).subscriptions(),
            final(self).maybe_eof() == old(self).maybe_eof(),
            final(self).wf(),
    {
        let id = self.handlers.next_request_id();
        self.handlers.register(id, handler);
        id
    }

    /// The active subscriber for `name`, if any.
    fn find_subscriber(&self, name: &String) -> (r: Option<&PropertyChangeSender>)
        ensures
            match r {
                Some(tx) => sub_lookup(self.subscriptions(), name@) == Some(*tx),
                None => sub_lookup(self.subscriptions(), name@) is None,
            },
    {
        let subs = &self.observe_property_handlers;
        let mut i: usize = subs.len();
        proof {
            assert(subs@.take(subs@.len() as int) =~= subs@);
        }
        while i > 0
            invariant
                i <= subs@.len(),
                subs@ == self.subscriptions(),
                sub_lookup(subs@.take(i as int), name@) == sub_lookup(subs@, name@),
            decreases i,
        {
            i = i - 1;
            let entry = &subs[i];
            proof {
                assert(subs@.take(i + 1).drop_last() =~= subs@.take(i as int));
                assert(subs@.take(i + 1).last() == subs@[i as int]);
            }
            if entry.0 == *name {
                proof {
                    assert(sub_lookup(subs@.take(i + 1), name@) == Some(subs@[i as int].1));
                }
                return Some(&entry.1);
            }
        }
        proof {
            assert(subs@.take(0) =~= Seq::<(String, PropertyChangeSender)>::empty());
        }
        None
    }

    /// Feeds freshly read bytes through the framer and routes every decoded
    /// message: correlated responses fire and drain their table entry, a
    /// property change goes to that property's active subscriber, and
    /// uncorrelated responses, other events and undecodable lines are
    /// dropped. A response naming an unknown id, or a change of a property
    /// nobody observes, affects nothing.
    pub fn handle_input(&mut self, buf: &[u8])
        ensures
            final(self).buffered() == split_rest(old(self).buffered(), buf@),
            final(self).handlers_model() == drain_handlers(
                old(self).handlers_model(),
                decode_lines_model(split_lines(old(self).buffered(), buf@)),
            ),
            final(self).next_id() == old(self).next_id(),
            final(self).subscriptions() == old(self).subscriptions(),
            final(self).maybe_eof() == old(self).maybe_eof(),
            old(self).wf() ==> final(self).wf(),
    {
        let lines = self.message_buffer.feed(buf);
        let ghost models = decode_lines_model(split_lines(old(self).buffered(), buf@));
        let mut i: usize = 0;
        proof {
            assert(models.take(0) =~= Seq::<Result<MessageModel, DecodeError>>::empty());
        }
        while i < lines.len()
            invariant
                i <= lines.len(),
                lines.deep_view() == split_lines(old(self).buffered(), buf@),
                models == decode_lines_model(lines.deep_view()),
                self.handlers.handlers_model() == drain_handlers(
                    old(self).handlers_model(),
                    models.take(i as int),
                ),
                self.handlers.next_id() == old(self).next_id(),
                self.observe_property_handlers@ == old(self).subscriptions(),
                self.is_maybe_eof == old(self).maybe_eof(),
                self.message_buffer@ == split_rest(old(self).buffered(), buf@),
                old(self).wf() ==> self.handlers.wf(),
            decreases lines.len() - i,
        {
            proof {
                assert(lines.deep_view()[i as int] =~= lines@[i as int]@);
                assert(models.take(i + 1).drop_last() =~= models.take(i as int));
                assert(models.take(i + 1).last() == models[i as int]);
                assert(models[i as int] == decode_line_model(lines.deep_view()[i as int]));
            }
            let msg = Message::from_slice(lines[i].as_slice());
            proof {
                assert(decode_view(msg) == models[i as int]);
            }
            match msg {
                Ok(Message::Response { request_id, data }) => {
                    let _was_registered = self.handlers.resolve(request_id, data);
                },
                Ok(Message::ResponseWithoutId { data: _ }) => {},
                Ok(Message::PropertyChange { name, data }) => {
                    match self.find_subscriber(&name) {
                        Some(tx) => {
                            let _delivered = send_property(tx, data);
                        },
                        None => {},
                    }
                },
                Ok(Message::Event { event: _ }) => {},
                Err(_) => {},
            }
            i = i + 1;
        }
        proof {
            assert(models.take(models.len() as int) =~= models);
        }
    }

    /// Allocates a fresh id for the command, registers the reply
    /// destination under it, and returns the exact frame to write.
    pub fn send_command(&mut self, command: Vec<CommandPart>, handler: ResponseHandler) -> (frame:
        Vec<u8>)
        requires
            old(self).wf(),
            old(self).next_id() < i64::MAX,
            parts_ok(command.deep_view()),
        ensures
            frame@ == frame_bytes(command.deep_view(), old(self).next_id()),
            final(self).handlers_model() == old(self).handlers_model().insert(
                old(self).next_id(),
                handler,
            ),
            final(self).next_id() == old(self).next_id() + 1,
            final(self).buffered() == old(self).buffered(),
            final(self).subscriptions() == old(self).subscriptions(),
            final(self).maybe_eof() == old(self).maybe_eof(),
            final(self).wf(),
    {
        let request_id = self.insert_command_handler(handler);
        encode_frame(&command, request_id)
    }

    /// Registers the notification destination for `property` — the new
    /// subscription replaces any earlier one for the same name — and returns
    /// the frame of the observe command to write, whose acknowledgment will
    /// resolve `handler`.
    pub fn observe_property(
        &mut self,
        property: String,
        handler: ResponseHandler,
        data_tx: PropertyChangeSender,
    ) -> (frame: Vec<u8>)
        requires
            old(self).wf(),
            old(self).next_id() < i64::MAX,
        ensures
            frame@ == frame_bytes(observe_parts(property@), old(self).next_id()),
            final(self).subscriptions() == old(self).subscriptions().push((property, data_tx)),
            final(self).handlers_model() == old(self).handlers_model().insert(
                old(self).next_id(),
                handler,
            ),
            final(self).next_id() == old(self).next_id() + 1,
            final(self).buffered() == old(self).buffered(),
            final(self).maybe_eof() == old(self).maybe_eof(),
            final(self).wf(),
    {
        let mut parts: Vec<CommandPart> = Vec::new();
        parts.push(CommandPart::Text("observe_property".to_owned()));
        parts.push(CommandPart::Int(1));
        parts.push(CommandPart::Text(property.clone()));
        proof {
            assert(parts.deep_view() =~= observe_parts(property@));
            assert(parts_ok(parts.deep_view()));
        }
        self.observe_property_handlers.push((property, data_tx));
        self.send_command(parts, handler)
    }

    /// One atomic step of the event loop: handles one event and says what to
    /// do next. Zero-length reads close the stream only in confirmed pairs;
    /// a command turns into one frame to write; a closed queue is an orderly
    /// shutdown, not an error.
    pub fn step(&mut self, event: ReactorEvent) -> (r: StepResult)
        requires
            old(self).wf(),
            old(self).next_id() < i64::MAX,
            event_ok(event),
        ensures
            final(self).wf(),
            match event {
                ReactorEvent::PipeRead(buf) => read_step_spec(*old(self), *final(self), buf@, r),
                ReactorEvent::CommandReceived(cmd) => command_step_spec(
                    *old(self),
                    *final(self),
                    cmd,
                    r,
                ),
                ReactorEvent::CommandsClosed => r == StepResult::Closed(PipeClosed::Commands)
                    && *final(self) == *old(self),
            },
    {
        match event {
            ReactorEvent::PipeRead(buf) => {
                if buf.len() == 0 {
                    if self.is_maybe_eof {
                        StepResult::Closed(PipeClosed::Mpv)
                    } else {
                        self.is_maybe_eof = true;
                        StepResult::Continue
                    }
                } else {
                    self.handle_input(buf.as_slice());
                    self.is_maybe_eof = false;
                    StepResult::Continue
                }
            },
            ReactorEvent::CommandReceived(cmd) => match cmd {
                Command::WithResponse { command, handler } => {
                    let frame = self.send_command(command, handler);
                    StepResult::Write(frame)
                },
                Command::ObserveProperty { property, handler, data_tx } => {
                    let frame = self.observe_property(property, handler, data_tx);
                    StepResult::Write(frame)
                },
            },
            ReactorEvent::CommandsClosed => StepResult::Closed(PipeClosed::Commands),
        }
    }
}

/// Neither the framer nor any table moves: all that may change is the
/// tentative end-of-stream flag.
pub open spec fn tables_unchanged(pre: Reactor, post: Reactor) -> bool {
    &&& post.buffered() == pre.buffered()
    &&& post.handlers_model() == pre.handlers_model()
    &&& post.next_id() == pre.next_id()
    &&& post.subscriptions() == pre.subscriptions()
}

/// What one step does with a completed read. A zero-length read closes the
/// stream only when the previous read was also empty; otherwise it merely
/// arms the flag, touching nothing else, so data that follows decodes as if
/// the empty read had not happened. A real read feeds the framer, drains
/// every correlated response out of the table and disarms the flag.
pub open spec fn read_step_spec(pre: Reactor, post: Reactor, buf: Seq<u8>, r: StepResult) -> bool {
    if buf.len() == 0 {
        if pre.maybe_eof() {
            r == StepResult::Closed(PipeClosed::Mpv) && post == pre
        } else {
            &&& r == StepResult::Continue
            &&& post.maybe_eof()
            &&& tables_unchanged(pre, post)
        }
    } else {
        &&& r == StepResult::Continue
        &&& !post.maybe_eof()
        &&& post.buffered() == split_rest(pre.buffered(), buf)
        &&& post.handlers_model() == drain_handlers(
            pre.handlers_model(),
            decode_lines_model(split_lines(pre.buffered(), buf)),
        )
        &&& post.next_id() == pre.next_id()
        &&& post.subscriptions() == pre.subscriptions()
    }
}

/// What one step does with a dequeued command: the frame to write carries
/// the command array and the freshly allocated id, the reply destination is
/// registered under that id, and a property observation also appends its
/// subscription, which from then on is the active one for that name.
pub open spec fn command_step_spec(pre: Reactor, post: Reactor, cmd: Command, r: StepResult) -> bool {
    &&& post.next_id() == pre.next_id() + 1
    &&& post.buffered() == pre.buffered()
    &&& post.maybe_eof() == pre.maybe_eof()
    &&& match cmd {
        Command::WithResponse { command, handler } => {
            &&& r matches StepResult::Write(frame) && frame@ == frame_bytes(
                command.deep_view(),
                pre.next_id(),
            )
            &&& post.handlers_model() == pre.handlers_model().insert(pre.next_id(), handler)
            &&& post.subscriptions() == pre.subscriptions()
        },
        Command::ObserveProperty { property, handler, data_tx } => {
            &&& r matches StepResult::Write(frame) && frame@ == frame_bytes(
                observe_parts(property@),
                pre.next_id(),
            )
            &&& post.handlers_model() == pre.handlers_model().insert(pre.next_id(), handler)
            &&& post.subscriptions() == pre.subscriptions().push((property, data_tx))
        },
    }
}

/// A new subscription becomes the active destination for its property and
/// leaves every other property's active destination exactly as it was: no
/// other subscriber is affected.
pub proof fn lemma_subscription_replaces_only_its_property(
    subs: Seq<(String, PropertyChangeSender)>,
    property: String,
    data_tx: PropertyChangeSender,
    other: Seq<char>,
)
    ensures
        sub_lookup(subs.push((property, data_tx)), property@) == Some(data_tx),
        other != property@ ==> sub_lookup(subs.push((property, data_tx)), other) == sub_lookup(
            subs,
            other,
        ),
{
    assert(subs.push((property, data_tx)).drop_last() =~= subs);
}

/// Ids allocated for commands are unique and increase monotonically: two
/// commands stepped one after the other, in either order of arrival, carry
/// distinct ids, the later one larger, and the earlier waiter stays
/// registered under its own id until its own reply arrives.
pub proof fn lemma_command_ids_unique_and_increasing(
    s0: Reactor,
    s1: Reactor,
    s2: Reactor,
    cmd1: Command,
    cmd2: Command,
    r1: StepResult,
    r2: StepResult,
)
    requires
        command_step_spec(s0, s1, cmd1, r1),
        command_step_spec(s1, s2, cmd2, r2),
    ensures
        s1.next_id() > s0.next_id(),
        s2.next_id() > s1.next_id(),
        (match cmd1 {
            Command::WithResponse { handler: h1, .. } => match cmd2 {
                Command::WithResponse { handler: h2, .. } => {
                    &&& s2.handlers_model().contains_key(s0.next_id())
                    &&& s2.handlers_model().contains_key(s1.next_id())
                    &&& s2.handlers_model()[s0.next_id()] == h1
                    &&& s2.handlers_model()[s1.next_id()] == h2
                },
                _ => true,
            },
            _ => true,
        }),
{
}

/// A single zero-length read never terminates the reactor, and the data
/// that follows it decodes exactly as if the empty read had not occurred:
/// after empty-then-data the state relates to the starting state precisely
/// as one direct data read would relate it.
pub proof fn lemma_single_empty_read_is_benign(
    s0: Reactor,
    s1: Reactor,
    s2: Reactor,
    data: Seq<u8>,
    r1: StepResult,
    r2: StepResult,
)
    requires
        !s0.maybe_eof(),
        read_step_spec(s0, s1, Seq::empty(), r1),
        read_step_spec(s1, s2, data, r2),
        data.len() > 0,
    ensures
        r1 == StepResult::Continue,
        r2 == StepResult::Continue,
        s2.buffered() == split_rest(s0.buffered(), data),
        s2.handlers_model() == drain_handlers(
            s0.handlers_model(),
            decode_lines_model(split_lines(s0.buffered(), data)),
        ),
        s2.subscriptions() == s0.subscriptions(),
{
}

/// Only the second of two consecutive zero-length reads confirms the end of
/// the stream.
pub proof fn lemma_second_empty_read_closes(
    s0: Reactor,
    s1: Reactor,
    s2: Reactor,
    r1: StepResult,
    r2: StepResult,
)
    requires
        !s0.maybe_eof(),
        read_step_spec(s0, s1, Seq::empty(), r1),
        read_step_spec(s1, s2, Seq::empty(), r2),
    ensures
        r1 == StepResult::Continue,
        r2 == StepResult::Closed(PipeClosed::Mpv),
{
}

} // verus!
