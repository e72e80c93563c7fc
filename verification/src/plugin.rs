//! The per-stream processing state around the engine: the two counter
//! trackers, the stream/packet lifecycle flags, and the driver-loop step that
//! turns one driver observation (an event, end of data, or a shutdown signal)
//! into the batch of messages for this invocation.
//!
//! The driver owns all I/O: it reads and decodes events outside this module
//! and performs the sink calls the returned messages describe.

use vstd::prelude::*;
use vstd::arithmetic::power2::pow2;
use crate::convert::{
    TrcCtfConverter, convert_ok_post, emitted_count, event_texts_ok, registrations,
};
use crate::events::Event;
use crate::trackers::{CounterTracker, RolloverTracker, spec_elapsed, spec_step};
use crate::types::{
    BorrowedCtfState, Error, Message, MessageIteratorStatus, spec_release_status,
};

verus! {

/// One decoded event together with the raw counters the decoder attached:
/// the numeric event id, the numeric source kind and its display name, the
/// raw wrapping sequence count, and the raw wrapping timestamp ticks.
pub struct EventEnvelope {
    pub event_id: u16,
    pub event_type: u16,
    pub event_type_name: String,
    pub event_count: u16,
    pub timestamp: u64,
    pub event: Event,
}

/// What the driver observed for this loop invocation.
pub enum DriverInput {
    /// The cancellation signal is set; shut the stream down.
    Interrupted,
    /// The decoder yielded one event.
    Event(EventEnvelope),
    /// The decoder yielded nothing (end of data, or a recoverable decode gap).
    NoData,
}

/// The per-stream state: lifecycle flags, the counter/rollover trackers and
/// the conversion engine, plus the decoder-declared timer parameters the
/// trackers re-initialize from.
pub struct TrcPluginState {
    pub first_event_observed: bool,
    pub eof_reached: bool,
    pub stream_is_open: bool,
    pub time_rollover_tracker: RolloverTracker,
    pub event_counter_tracker: CounterTracker,
    pub converter: TrcCtfConverter,
    /// The wrap count the decoder declared at stream start.
    pub timer_wraparounds: u64,
    /// The declared bit width of the timer tick counter (1..=63).
    pub timer_width: u32,
}

impl TrcPluginState {
    pub open spec fn wf(&self) -> bool {
        &&& 1 <= self.timer_width <= 63
        &&& self.time_rollover_tracker.wf()
        &&& self.converter.wf()
        &&& self.converter.primed()
    }

    /// A fresh stream state.  The trackers re-initialize on the first event;
    /// the engine's fixed schemas are registered here, once.
    pub fn new(timer_wraparounds: u64, timer_width: u32) -> (r: TrcPluginState)
        requires
            1 <= timer_width <= 63,
        ensures
            r.wf(),
            !r.first_event_observed,
            !r.eof_reached,
            !r.stream_is_open,
            r.timer_wraparounds == timer_wraparounds,
            r.timer_width == timer_width,
            r.converter.class_specs@.len() == 6,
            r.converter.event_classes@.len() == 0,
            r.converter.strings().len() == 0,
            r.converter.pending_isrs@.len() == 0,
    {
        let mut converter = TrcCtfConverter::new();
        converter.create_event_classes();
        TrcPluginState {
            first_event_observed: false,
            eof_reached: false,
            stream_is_open: false,
            time_rollover_tracker: RolloverTracker::zero(timer_width),
            event_counter_tracker: CounterTracker::zero(),
            converter,
            timer_wraparounds,
            timer_width,
        }
    }

    /// The decoder reported a restarted trace stream: the counter and
    /// rollover trackers re-initialize on the next event; the schema cache
    /// and the interner persist.
    pub fn handle_restart(&mut self)
        ensures
            *final(self) == (TrcPluginState { first_event_observed: false, ..*old(self) }),
    {
        self.first_event_observed = false;
    }

    /// Processes one decoded event: updates (or initializes) the trackers,
    /// emits a discarded-events marker before the event's own records when
    /// loss is detected, and hands the event with its reconstructed count and
    /// timestamp to the engine.
    pub fn process_event(
        &mut self,
        event_id: u16,
        event_type: u16,
        event_type_name: &str,
        raw_event_count: u16,
        raw_timestamp: u64,
        event: Event,
        ctf_state: &mut BorrowedCtfState,
    ) -> (r: Result<(), Error>)
        requires
            old(self).wf(),
            old(ctf_state).wf(),
        ensures
            final(self).wf(),
            final(ctf_state).wf(),
            final(ctf_state).cap() == old(ctf_state).cap(),
            final(ctf_state).msgs().len() >= old(ctf_state).msgs().len(),
            final(ctf_state).msgs().subrange(0, old(ctf_state).msgs().len() as int) == old(
                ctf_state,
            ).msgs(),
            final(self).stream_is_open == old(self).stream_is_open,
            final(self).eof_reached == old(self).eof_reached,
            old(self).converter.strings().is_prefix_of(final(self).converter.strings()),
            old(self).converter.classes_view().is_prefix_of(final(self).converter.classes_view()),
            trackers_post(*old(self), *final(self), raw_event_count, raw_timestamp),
            r is Ok <==> process_ok_cond(
                *old(self),
                old(ctf_state).msgs().len() as int,
                old(ctf_state).cap(),
                event_type,
                event_type_name@,
                raw_event_count,
                event,
            ),
            r is Ok ==> process_ok_post(
                *old(self),
                *final(self),
                old(ctf_state).msgs(),
                final(ctf_state).msgs(),
                event_id,
                event_type,
                event_type_name@,
                raw_event_count,
                raw_timestamp,
                event,
            ),
            r is Err ==> {
                &&& final(self).converter.pending_isrs@ == old(self).converter.pending_isrs@
                &&& final(self).converter.active_context == old(self).converter.active_context
                &&& final(self).converter.class_specs@ == old(self).converter.class_specs@
                &&& final(ctf_state).msgs().len() <= old(ctf_state).msgs().len() + 1
            },
    {
        let dropped: Option<u64> = if !self.first_event_observed {
            self.first_event_observed = true;
            self.event_counter_tracker.set_initial_count(raw_event_count);
            self.time_rollover_tracker = RolloverTracker::new(
                raw_timestamp,
                self.timer_wraparounds,
                self.timer_width,
            );
            None
        } else {
            self.event_counter_tracker.update(raw_event_count)
        };
        let event_count = self.event_counter_tracker.count();
        let timestamp = self.time_rollover_tracker.elapsed(raw_timestamp);
        if let Some(d) = dropped {
            match ctf_state.push_message(Message::DiscardedEvents(d)) {
                Ok(_) => {},
                Err(e) => {
                    return Err(e);
                },
            }
        }
        let ghost mid_msgs = ctf_state.msgs();
        let r = self.converter.convert(
            event_id,
            event_type,
            event_type_name,
            event_count,
            timestamp,
            event,
            ctf_state,
        );
        proof {
            assert(ctf_state.msgs().subrange(0, old(ctf_state).msgs().len() as int) =~= old(
                ctf_state,
            ).msgs());
            if r is Ok {
                let mc = process_marker_count(*old(self), raw_event_count);
                let marker = Message::DiscardedEvents(
                    process_dropped(*old(self), raw_event_count),
                );
                assert(trackers_post(*old(self), *self, raw_event_count, raw_timestamp));
                assert(ctf_state.msgs().len() == old(ctf_state).msgs().len() + mc
                    + emitted_count(event, old(self).converter.pending_isrs@.len()));
                if mc == 1 {
                    assert(mid_msgs == old(ctf_state).msgs().push(marker));
                    assert(ctf_state.msgs().subrange(0, mid_msgs.len() as int) == mid_msgs);
                    assert(ctf_state.msgs().subrange(0, mid_msgs.len() as int)[old(
                        ctf_state,
                    ).msgs().len() as int] == marker);
                    assert(ctf_state.msgs()[old(ctf_state).msgs().len() as int] == marker);
                }
                assert(convert_ok_post(
                    old(self).converter,
                    self.converter,
                    mid_msgs,
                    ctf_state.msgs(),
                    event_id,
                    event_type,
                    event_type_name@,
                    self.event_counter_tracker.total,
                    self.time_rollover_tracker.spec_timestamp(),
                    event,
                ));
            }
        }
        r
    }
}

impl TrcPluginState {
    /// One driver-loop step: turns what the driver observed into this
    /// invocation's batch of messages and a status.
    ///
    /// The first event opens the stream (a stream-begin and a packet-begin
    /// message precede its records).  A set cancellation signal, or the end
    /// of the data, closes it (a packet-end and a stream-end message) —
    /// exactly once; afterwards the step reports `Done`.  A restarted stream
    /// that has not yet yielded its first event reports `NoMessages`.
    pub fn iterator_next(&mut self, input: DriverInput, ctf_state: &mut BorrowedCtfState) -> (r:
        Result<MessageIteratorStatus, Error>)
        requires
            old(self).wf(),
            old(ctf_state).wf(),
        ensures
            final(self).wf(),
            final(ctf_state).wf(),
            final(ctf_state).cap() == old(ctf_state).cap(),
            final(ctf_state).msgs().len() >= old(ctf_state).msgs().len(),
            final(ctf_state).msgs().subrange(0, old(ctf_state).msgs().len() as int) == old(
                ctf_state,
            ).msgs(),
            old(self).converter.strings().is_prefix_of(final(self).converter.strings()),
            old(self).converter.classes_view().is_prefix_of(final(self).converter.classes_view()),
            r is Ok <==> iterator_ok_cond(
                *old(self),
                old(ctf_state).msgs().len() as int,
                old(ctf_state).cap(),
                input,
            ),
            r matches Ok(status) ==> iterator_ok_post(
                *old(self),
                *final(self),
                old(ctf_state).msgs(),
                final(ctf_state).msgs(),
                input,
                status,
            ),
            r is Err ==> {
                &&& final(self).converter.pending_isrs@ == old(self).converter.pending_isrs@
                &&& final(self).converter.active_context == old(self).converter.active_context
                &&& final(self).converter.class_specs@ == old(self).converter.class_specs@
            },
    {
        match input {
            DriverInput::Interrupted => {
                if !self.eof_reached {
                    if ctf_state.remaining() < 2 {
                        return Err(Error::MessageVecFull);
                    }
                    self.eof_reached = true;
                    match ctf_state.push_message(Message::PacketEnd) {
                        Ok(_) => {},
                        Err(e) => {
                            return Err(e);
                        },
                    }
                    match ctf_state.push_message(Message::StreamEnd) {
                        Ok(_) => {},
                        Err(e) => {
                            return Err(e);
                        },
                    }
                    proof {
                        assert(ctf_state.msgs().subrange(0, old(ctf_state).msgs().len() as int)
                            =~= old(ctf_state).msgs());
                    }
                    let n = ctf_state.message_count();
                    if n == 0 {
                        Ok(MessageIteratorStatus::NoMessages)
                    } else {
                        Ok(MessageIteratorStatus::Messages(n as u64))
                    }
                } else {
                    Ok(MessageIteratorStatus::Done)
                }
            },
            DriverInput::Event(env) => {
                if !self.stream_is_open {
                    if ctf_state.remaining() < 2 {
                        return Err(Error::MessageVecFull);
                    }
                    self.stream_is_open = true;
                    match ctf_state.push_message(Message::StreamBegin) {
                        Ok(_) => {},
                        Err(e) => {
                            return Err(e);
                        },
                    }
                    match ctf_state.push_message(Message::PacketBegin) {
                        Ok(_) => {},
                        Err(e) => {
                            return Err(e);
                        },
                    }
                }
                let ghost mid_state = *self;
                let ghost mid_msgs = ctf_state.msgs();
                let EventEnvelope { event_id, event_type, event_type_name, event_count, timestamp, event } =
                    env;
                match self.process_event(
                    event_id,
                    event_type,
                    event_type_name.as_str(),
                    event_count,
                    timestamp,
                    event,
                    ctf_state,
                ) {
                    Ok(_) => {},
                    Err(e) => {
                        proof {
                            let oldm = old(ctf_state).msgs();
                            let cur = ctf_state.msgs();
                            assert forall|i: int| 0 <= i < oldm.len() implies cur[i] == oldm[i] by {
                                assert(cur.subrange(0, mid_msgs.len() as int)[i] == cur[i]);
                                assert(mid_msgs[i] == oldm[i]);
                            }
                            assert(cur.subrange(0, oldm.len() as int) =~= oldm);
                        }
                        return Err(e);
                    },
                }
                proof {
                    let oldm = old(ctf_state).msgs();
                    let cur = ctf_state.msgs();
                    assert forall|i: int| 0 <= i < oldm.len() implies cur[i] == oldm[i] by {
                        assert(cur.subrange(0, mid_msgs.len() as int)[i] == cur[i]);
                        assert(mid_msgs[i] == oldm[i]);
                    }
                    assert(cur.subrange(0, oldm.len() as int) =~= oldm);
                    if !old(self).stream_is_open {
                        assert(mid_msgs == old(ctf_state).msgs().push(Message::StreamBegin).push(
                            Message::PacketBegin,
                        ));
                        assert(ctf_state.msgs().subrange(0, mid_msgs.len() as int) == mid_msgs);
                        assert(ctf_state.msgs().subrange(0, mid_msgs.len() as int)[old(
                            ctf_state,
                        ).msgs().len() as int] == ctf_state.msgs()[old(ctf_state).msgs().len() as int]);
                        assert(ctf_state.msgs().subrange(0, mid_msgs.len() as int)[old(
                            ctf_state,
                        ).msgs().len() as int + 1] == ctf_state.msgs()[old(ctf_state).msgs().len() as int
                            + 1]);
                        assert(ctf_state.msgs()[old(ctf_state).msgs().len() as int]
                            == Message::StreamBegin);
                        assert(ctf_state.msgs()[old(ctf_state).msgs().len() as int + 1]
                            == Message::PacketBegin);
                    }
                    assert(mid_state == (TrcPluginState { stream_is_open: true, ..*old(self) }));
                }
                let n = ctf_state.message_count();
                if n == 0 {
                    Ok(MessageIteratorStatus::NoMessages)
                } else {
                    Ok(MessageIteratorStatus::Messages(n as u64))
                }
            },
            DriverInput::NoData => {
                if self.stream_is_open && !self.first_event_observed {
                    // restarted stream: the trackers will re-initialize on
                    // the next event
                    Ok(MessageIteratorStatus::NoMessages)
                } else if self.eof_reached {
                    Ok(MessageIteratorStatus::Done)
                } else {
                    if ctf_state.remaining() < 2 {
                        return Err(Error::MessageVecFull);
                    }
                    self.eof_reached = true;
                    match ctf_state.push_message(Message::PacketEnd) {
                        Ok(_) => {},
                        Err(e) => {
                            return Err(e);
                        },
                    }
                    match ctf_state.push_message(Message::StreamEnd) {
                        Ok(_) => {},
                        Err(e) => {
                            return Err(e);
                        },
                    }
                    proof {
                        assert(ctf_state.msgs().subrange(0, old(ctf_state).msgs().len() as int)
                            =~= old(ctf_state).msgs());
                    }
                    let n = ctf_state.message_count();
                    if n == 0 {
                        Ok(MessageIteratorStatus::NoMessages)
                    } else {
                        Ok(MessageIteratorStatus::Messages(n as u64))
                    }
                }
            },
        }
    }
}

/// When one driver-loop step succeeds: shutdown and end-of-data need room for
/// the two closing messages (unless already closed), an event needs room for
/// the two opening messages on the first event and for its own output, with
/// every text converting.
pub open spec fn iterator_ok_cond(
    pre: TrcPluginState,
    msgs_len: int,
    cap: int,
    input: DriverInput,
) -> bool {
    match input {
        DriverInput::Interrupted => pre.eof_reached || msgs_len + 2 <= cap,
        DriverInput::Event(env) => {
            let open_extra: int = if pre.stream_is_open {
                0int
            } else {
                2int
            };
            &&& (pre.stream_is_open || msgs_len + 2 <= cap)
            &&& process_ok_cond(
                pre,
                msgs_len + open_extra,
                cap,
                env.event_type,
                env.event_type_name@,
                env.event_count,
                env.event,
            )
        },
        DriverInput::NoData => (pre.stream_is_open && !pre.first_event_observed)
            || pre.eof_reached || msgs_len + 2 <= cap,
    }
}

/// What one successful driver-loop step guarantees, by input.
pub open spec fn iterator_ok_post(
    pre: TrcPluginState,
    post: TrcPluginState,
    pre_msgs: Seq<Message>,
    post_msgs: Seq<Message>,
    input: DriverInput,
    status: MessageIteratorStatus,
) -> bool {
    match input {
        DriverInput::Interrupted => {
            if !pre.eof_reached {
                &&& post == (TrcPluginState { eof_reached: true, ..pre })
                &&& post_msgs == pre_msgs.push(Message::PacketEnd).push(Message::StreamEnd)
                &&& status == spec_release_status(post_msgs.len())
            } else {
                &&& post == pre
                &&& post_msgs == pre_msgs
                &&& status == MessageIteratorStatus::Done
            }
        },
        DriverInput::Event(env) => {
            let opened_msgs = if pre.stream_is_open {
                pre_msgs
            } else {
                pre_msgs.push(Message::StreamBegin).push(Message::PacketBegin)
            };
            let pre_opened = TrcPluginState { stream_is_open: true, ..pre };
            &&& post.stream_is_open
            &&& post.eof_reached == pre.eof_reached
            &&& (pre.stream_is_open || (post_msgs.len() >= pre_msgs.len() + 2 && post_msgs[
                pre_msgs.len() as int
            ] == Message::StreamBegin && post_msgs[pre_msgs.len() as int + 1] == Message::PacketBegin))
            &&& process_ok_post(
                pre_opened,
                post,
                opened_msgs,
                post_msgs,
                env.event_id,
                env.event_type,
                env.event_type_name@,
                env.event_count,
                env.timestamp,
                env.event,
            )
            &&& status == spec_release_status(post_msgs.len())
        },
        DriverInput::NoData => {
            if pre.stream_is_open && !pre.first_event_observed {
                &&& post == pre
                &&& post_msgs == pre_msgs
                &&& status == MessageIteratorStatus::NoMessages
            } else if pre.eof_reached {
                &&& post == pre
                &&& post_msgs == pre_msgs
                &&& status == MessageIteratorStatus::Done
            } else {
                &&& post == (TrcPluginState { eof_reached: true, ..pre })
                &&& post_msgs == pre_msgs.push(Message::PacketEnd).push(Message::StreamEnd)
                &&& status == spec_release_status(post_msgs.len())
            }
        },
    }
}

/// How the two trackers advance on one event: the first event after stream
/// start (or restart) re-initializes them from its raw values and the
/// declared timer parameters; every later event steps them.
pub open spec fn trackers_post(
    pre: TrcPluginState,
    post: TrcPluginState,
    raw_event_count: u16,
    raw_timestamp: u64,
) -> bool {
    &&& post.first_event_observed
    &&& post.timer_wraparounds == pre.timer_wraparounds
    &&& post.timer_width == pre.timer_width
    &&& if !pre.first_event_observed {
        &&& post.event_counter_tracker == CounterTracker {
            count: raw_event_count,
            total: raw_event_count as u64,
        }
        &&& post.time_rollover_tracker.width == pre.timer_width
        &&& post.time_rollover_tracker.upper == pre.timer_wraparounds
        &&& post.time_rollover_tracker.last == raw_timestamp as nat % pow2(pre.timer_width as nat)
    } else {
        &&& post.event_counter_tracker == CounterTracker {
            count: raw_event_count,
            total: pre.event_counter_tracker.total.wrapping_add(
                spec_step(pre.event_counter_tracker.count, raw_event_count) as u64,
            ),
        }
        &&& post.time_rollover_tracker == spec_elapsed(pre.time_rollover_tracker, raw_timestamp)
    }
}

/// Whether this event makes the counter tracker report loss: never on the
/// initializing event, else exactly when the counter stepped by more than one.
pub open spec fn process_marker_count(pre: TrcPluginState, raw_event_count: u16) -> nat {
    if !pre.first_event_observed {
        0
    } else if spec_step(pre.event_counter_tracker.count, raw_event_count) == 1 {
        0
    } else {
        1
    }
}

/// The dropped-event count the loss marker carries.
pub open spec fn process_dropped(pre: TrcPluginState, raw_event_count: u16) -> u64 {
    (spec_step(pre.event_counter_tracker.count, raw_event_count) - 1) as u64
}

/// When processing one event succeeds: every text it carries converts, and
/// the batch has room for the loss marker (if any) and the event's records.
pub open spec fn process_ok_cond(
    pre: TrcPluginState,
    msgs_len: int,
    cap: int,
    event_type: u16,
    tn: Seq<char>,
    raw_event_count: u16,
    event: Event,
) -> bool {
    &&& event_texts_ok(pre.converter, event_type, tn, event)
    &&& msgs_len + process_marker_count(pre, raw_event_count) + emitted_count(
        event,
        pre.converter.pending_isrs@.len(),
    ) <= cap
}

/// What successful processing of one event guarantees: the trackers advance,
/// a loss marker precedes the event's records exactly when loss was detected,
/// and the engine's own guarantees hold for the records, with the
/// reconstructed event count and timestamp in every common context.
pub open spec fn process_ok_post(
    pre: TrcPluginState,
    post: TrcPluginState,
    pre_msgs: Seq<Message>,
    post_msgs: Seq<Message>,
    event_id: u16,
    event_type: u16,
    tn: Seq<char>,
    raw_event_count: u16,
    raw_timestamp: u64,
    event: Event,
) -> bool {
    let mc = process_marker_count(pre, raw_event_count);
    let marker = Message::DiscardedEvents(process_dropped(pre, raw_event_count));
    let pre2 = if mc == 1 {
        pre_msgs.push(marker)
    } else {
        pre_msgs
    };
    &&& trackers_post(pre, post, raw_event_count, raw_timestamp)
    &&& post_msgs.len() == pre_msgs.len() + mc + emitted_count(
        event,
        pre.converter.pending_isrs@.len(),
    )
    &&& (mc == 1 ==> post_msgs[pre_msgs.len() as int] == marker)
    &&& post.converter.class_specs@.len() == pre.converter.class_specs@.len() + registrations(
        pre.converter,
        event_type,
        event,
    )
    &&& convert_ok_post(
        pre.converter,
        post.converter,
        pre2,
        post_msgs,
        event_id,
        event_type,
        tn,
        post.event_counter_tracker.total,
        post.time_rollover_tracker.spec_timestamp(),
        event,
    )
}

} // verus!
