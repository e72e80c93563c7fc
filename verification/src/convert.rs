//! The conversion engine: consumes one decoded event at a time plus its
//! reconstructed counters, drives the interner, the schema cache and the
//! context stack, and emits the event's output records in order.

use vstd::prelude::*;
use vstd::string::StringExecFns;
use crate::events::{
    Context, Event, IrqHandlerEntry, IrqHandlerExit, RecordPayload, SchedSwitch, SchedWakeup,
    TaskState, TraceStart, Unknown, Unsupported, User, channel_text,
};
use crate::schema::{EventClassSpec, RecordKind};
use crate::types::{
    BorrowedCtfState, CommonContext, Error, EventRecord, Message, StrHandle, StringCache,
    check_text, spec_type_text, text_ok,
};

verus! {

/// The stateful conversion engine.
///
/// It owns the string interner, the index-keyed schema table with its
/// kind-to-class cache, the active scheduling context and the stack of
/// pending (not yet exited) interrupt contexts.  The six fixed output
/// schemas are registered once up front by `create_event_classes`; schemas
/// for the generic fallback records are registered lazily, at most once per
/// distinct source kind.
pub struct TrcCtfConverter {
    pub unknown_event_class: usize,
    pub user_event_class: usize,
    pub sched_switch_event_class: usize,
    pub irq_handler_entry_event_class: usize,
    pub irq_handler_exit_event_class: usize,
    pub sched_wakeup_event_class: usize,
    /// Lazily registered classes: one (source kind, class id) entry per
    /// distinct dynamic kind.
    pub event_classes: Vec<(u16, usize)>,
    /// The registered schemas, indexed by class id.  Append-only: one entry
    /// per registration call the sink driver must make.
    pub class_specs: Vec<EventClassSpec>,
    pub string_cache: StringCache,
    /// The context believed to be currently executing.
    pub active_context: Context,
    /// Nested ISR entries not yet matched by an exit, innermost last.
    pub pending_isrs: Vec<Context>,
}

impl TrcCtfConverter {
    /// The interned texts, by handle.
    pub open spec fn strings(&self) -> Seq<Seq<char>> {
        self.string_cache.strings_view()
    }

    /// The registered schemas: (class name, record kind), by class id.
    pub open spec fn classes_view(&self) -> Seq<(Seq<char>, RecordKind)> {
        self.class_specs@.map_values(|c: EventClassSpec| (c.name@, c.kind))
    }

    /// Whether the dynamic source kind has a registered class.
    pub open spec fn has_kind(&self, event_type: u16) -> bool {
        exists|i: int|
            0 <= i < self.event_classes@.len() && (#[trigger] self.event_classes@[i]).0
                == event_type
    }

    /// Whether `id` is the class registered for the dynamic source kind.
    pub open spec fn kind_class_is(&self, event_type: u16, id: usize) -> bool {
        exists|i: int|
            0 <= i < self.event_classes@.len() && #[trigger] self.event_classes@[i] == (
                event_type,
                id,
            )
    }

    /// The (name, kind) of the class registered for a dynamic source kind.
    pub open spec fn kind_class(&self, event_type: u16) -> (Seq<char>, RecordKind) {
        let i = choose|i: int|
            0 <= i < self.event_classes@.len() && (#[trigger] self.event_classes@[i]).0
                == event_type;
        self.classes_view()[self.event_classes@[i].1 as int]
    }

    /// Whether the six fixed classes have been registered, at their fixed ids
    /// and with their fixed names.
    pub open spec fn primed(&self) -> bool {
        &&& self.class_specs@.len() >= 6
        &&& self.unknown_event_class == 0 && self.classes_view()[0] == (
            "UNKNOWN"@,
            RecordKind::Unknown,
        )
        &&& self.user_event_class == 1 && self.classes_view()[1] == (
            "USER_EVENT"@,
            RecordKind::User,
        )
        &&& self.sched_switch_event_class == 2 && self.classes_view()[2] == (
            "sched_switch"@,
            RecordKind::SchedSwitch,
        )
        &&& self.irq_handler_entry_event_class == 3 && self.classes_view()[3] == (
            "irq_handler_entry"@,
            RecordKind::IrqHandlerEntry,
        )
        &&& self.irq_handler_exit_event_class == 4 && self.classes_view()[4] == (
            "irq_handler_exit"@,
            RecordKind::IrqHandlerExit,
        )
        &&& self.sched_wakeup_event_class == 5 && self.classes_view()[5] == (
            "sched_wakeup"@,
            RecordKind::SchedWakeup,
        )
    }

    pub open spec fn wf(&self) -> bool {
        &&& self.string_cache.wf()
        &&& text_ok(self.active_context.name@)
        &&& forall|i: int|
            0 <= i < self.pending_isrs@.len() ==> text_ok(
                (#[trigger] self.pending_isrs@[i]).name@,
            )
        &&& forall|i: int|
            0 <= i < self.event_classes@.len() ==> 6 <= (#[trigger] self.event_classes@[i]).1
                < self.class_specs@.len()
        &&& forall|i: int, j: int|
            0 <= i < j < self.event_classes@.len() ==> self.event_classes@[i].0
                != self.event_classes@[j].0
        &&& (self.class_specs@.len() == 0 && self.event_classes@.len() == 0) || (self.primed()
            && self.class_specs@.len() == 6 + self.event_classes@.len())
    }

    /// A fresh engine: empty caches, empty ISR stack, and the synthetic
    /// startup context as the active context.  `create_event_classes` must
    /// run once before events are converted.
    pub fn new() -> (r: TrcCtfConverter)
        ensures
            r.wf(),
            r.class_specs@.len() == 0,
            r.event_classes@.len() == 0,
            r.strings().len() == 0,
            r.string_cache.event_types@.len() == 0,
            r.pending_isrs@ == Seq::<Context>::empty(),
            r.active_context.handle == 2,
            r.active_context.name@ == "(startup)"@,
            r.active_context.priority == 0,
    {
        proof {
            lemma_startup_name_text_ok();
        }
        let r = TrcCtfConverter {
            unknown_event_class: 0,
            user_event_class: 0,
            sched_switch_event_class: 0,
            irq_handler_entry_event_class: 0,
            irq_handler_exit_event_class: 0,
            sched_wakeup_event_class: 0,
            event_classes: Vec::new(),
            class_specs: Vec::new(),
            string_cache: StringCache::new(),
            // the "no task" handle of the trace recorder's startup context
            active_context: Context {
                handle: 2,
                name: String::from_str("(startup)"),
                priority: 0,
            },
            pending_isrs: Vec::new(),
        };
        proof {
            assert(r.classes_view() =~= Seq::<(Seq<char>, RecordKind)>::empty());
        }
        r
    }

    /// Registers the six fixed output schemas up front, at class ids 0..=5.
    /// Schemas of generic fallback records are registered lazily later.
    pub fn create_event_classes(&mut self)
        requires
            old(self).wf(),
            old(self).class_specs@.len() == 0,
        ensures
            final(self).wf(),
            final(self).primed(),
            final(self).class_specs@.len() == 6,
            final(self).event_classes@ == old(self).event_classes@,
            final(self).string_cache == old(self).string_cache,
            final(self).active_context == old(self).active_context,
            final(self).pending_isrs == old(self).pending_isrs,
    {
        self.class_specs.push(
            EventClassSpec { name: String::from_str("UNKNOWN"), kind: RecordKind::Unknown },
        );
        self.class_specs.push(
            EventClassSpec { name: String::from_str("USER_EVENT"), kind: RecordKind::User },
        );
        self.class_specs.push(
            EventClassSpec { name: String::from_str("sched_switch"), kind: RecordKind::SchedSwitch },
        );
        self.class_specs.push(
            EventClassSpec {
                name: String::from_str("irq_handler_entry"),
                kind: RecordKind::IrqHandlerEntry,
            },
        );
        self.class_specs.push(
            EventClassSpec {
                name: String::from_str("irq_handler_exit"),
                kind: RecordKind::IrqHandlerExit,
            },
        );
        self.class_specs.push(
            EventClassSpec { name: String::from_str("sched_wakeup"), kind: RecordKind::SchedWakeup },
        );
        self.unknown_event_class = 0;
        self.user_event_class = 1;
        self.sched_switch_event_class = 2;
        self.irq_handler_entry_event_class = 3;
        self.irq_handler_exit_event_class = 4;
        self.sched_wakeup_event_class = 5;
        proof {
            assert(self.classes_view()[0] == ("UNKNOWN"@, RecordKind::Unknown));
            assert(self.classes_view()[1] == ("USER_EVENT"@, RecordKind::User));
            assert(self.classes_view()[2] == ("sched_switch"@, RecordKind::SchedSwitch));
            assert(self.classes_view()[3] == ("irq_handler_entry"@, RecordKind::IrqHandlerEntry));
            assert(self.classes_view()[4] == ("irq_handler_exit"@, RecordKind::IrqHandlerExit));
            assert(self.classes_view()[5] == ("sched_wakeup"@, RecordKind::SchedWakeup));
        }
    }

    /// The field table of the common event context every record carries.
    pub fn create_event_common_context(&self) -> (r: Vec<crate::schema::FieldSpec>)
        ensures
            crate::schema::fields_view(r@) == crate::schema::spec_common_context_fields(),
    {
        crate::schema::common_context_fields()
    }

    /// Looks up the class registered for a dynamic source kind, registering a
    /// new class (named `name`, of record kind `kind`) exactly on the first
    /// call for that kind.  Later calls for the same kind return the cached
    /// class id without any registration.
    pub fn event_class(&mut self, event_type: u16, name: &str, kind: RecordKind) -> (r: usize)
        requires
            old(self).wf(),
            old(self).primed(),
        ensures
            final(self).wf(),
            final(self).primed(),
            final(self).string_cache == old(self).string_cache,
            final(self).active_context == old(self).active_context,
            final(self).pending_isrs == old(self).pending_isrs,
            old(self).classes_view().is_prefix_of(final(self).classes_view()),
            final(self).kind_class_is(event_type, r),
            r < final(self).class_specs@.len(),
            final(self).classes_view()[r as int] == spec_kind_class(
                *old(self),
                event_type,
                (name@, kind),
            ),
            old(self).has_kind(event_type) ==> *final(self) == *old(self),
            !old(self).has_kind(event_type) ==> {
                &&& final(self).classes_view() == old(self).classes_view().push((name@, kind))
                &&& r == old(self).class_specs@.len()
                &&& final(self).event_classes@ == old(self).event_classes@.push((event_type, r))
            },
            final(self).class_specs@.len() == old(self).class_specs@.len() + (
            if old(self).has_kind(event_type) {
                0int
            } else {
                1int
            }),
    {
        let n = self.event_classes.len();
        let mut i: usize = 0;
        while i < n
            invariant
                self == old(self),
                old(self).wf(),
                n == self.event_classes@.len(),
                i <= n,
                forall|j: int| 0 <= j < i ==> (#[trigger] self.event_classes@[j]).0 != event_type,
            decreases n - i,
        {
            let entry = self.event_classes[i];
            if entry.0 == event_type {
                proof {
                    assert(self.event_classes@[i as int] == (event_type, entry.1));
                    let ic = choose|k: int|
                        0 <= k < self.event_classes@.len() && (
                        #[trigger] self.event_classes@[k]).0 == event_type;
                    // registered kinds are unique, so the found entry is the
                    // recorded one
                    assert(ic == i as int);
                }
                return entry.1;
            }
            i += 1;
        }
        assert(!self.has_kind(event_type));
        let id = self.class_specs.len();
        self.class_specs.push(EventClassSpec { name: String::from_str(name), kind });
        self.event_classes.push((event_type, id));
        proof {
            assert(self.classes_view() =~= old(self).classes_view().push((name@, kind)));
            assert(self.event_classes@[self.event_classes@.len() - 1] == (event_type, id));
            let ic = choose|k: int|
                0 <= k < self.event_classes@.len() && (#[trigger] self.event_classes@[k]).0
                    == event_type;
            assert(ic == self.event_classes@.len() - 1);
        }
        id
    }

    /// Converts one decoded event into its output records, appended in order
    /// to the batch.
    ///
    /// Exactly one primary record is emitted per event, except that a
    /// task-resume/activate while the pending-ISR stack is non-empty emits an
    /// interrupt exit and then the scheduler switch, and an ISR resume with an
    /// empty stack is an anomaly that emits nothing.  The call fails exactly
    /// when a text the event carries cannot be converted (an embedded NUL) or
    /// the batch lacks room for the event's records; either failure is fatal
    /// for the run and leaves the batch, the active context and the ISR stack
    /// unchanged.
    #[verifier::rlimit(100)]
    pub fn convert(
        &mut self,
        event_id: u16,
        event_type: u16,
        event_type_name: &str,
        event_count: u64,
        timestamp: u64,
        event: Event,
        ctf_state: &mut BorrowedCtfState,
    ) -> (r: Result<(), Error>)
        requires
            old(self).wf(),
            old(self).primed(),
            old(ctf_state).wf(),
        ensures
            final(self).wf(),
            final(self).primed(),
            final(ctf_state).wf(),
            final(ctf_state).cap() == old(ctf_state).cap(),
            old(self).strings().is_prefix_of(final(self).strings()),
            old(self).classes_view().is_prefix_of(final(self).classes_view()),
            r is Ok <==> event_texts_ok(*old(self), event_type, event_type_name@, event) && old(
                ctf_state,
            ).msgs().len() + emitted_count(event, old(self).pending_isrs@.len()) <= old(
                ctf_state,
            ).cap(),
            r is Err ==> {
                &&& final(ctf_state).msgs() == old(ctf_state).msgs()
                &&& final(self).pending_isrs@ == old(self).pending_isrs@
                &&& final(self).active_context == old(self).active_context
                &&& final(self).class_specs@ == old(self).class_specs@
            },
            r is Ok ==> {
                &&& final(ctf_state).msgs().len() == old(ctf_state).msgs().len() + emitted_count(
                    event,
                    old(self).pending_isrs@.len(),
                )
                &&& final(ctf_state).msgs().subrange(0, old(ctf_state).msgs().len() as int) == old(
                    ctf_state,
                ).msgs()
                &&& final(self).class_specs@.len() == old(self).class_specs@.len()
                    + registrations(*old(self), event_type, event)
                &&& convert_ok_post(
                    *old(self),
                    *final(self),
                    old(ctf_state).msgs(),
                    final(ctf_state).msgs(),
                    event_id,
                    event_type,
                    event_type_name@,
                    event_count,
                    timestamp,
                    event,
                )
            },
    {
        let cc = CommonContext { id: event_id, event_count, timer: timestamp };
        match event {
            Event::TraceStart(ev) => {
                if ctf_state.remaining() < 1 {
                    return Err(Error::MessageVecFull);
                }
                let p = match TraceStart::try_from(&ev, &mut self.string_cache) {
                    Ok(p) => p,
                    Err(e) => {
                        return Err(e);
                    },
                };
                let class = self.event_class(event_type, "TRACE_START", RecordKind::TraceStart);
                let msg = ctf_state.create_message(
                    class,
                    timestamp,
                    cc,
                    RecordPayload::TraceStart(p),
                );
                match ctf_state.push_message(msg) {
                    Ok(_) => {},
                    Err(e) => {
                        return Err(e);
                    },
                }
                proof {
                    assert(ctf_state.msgs().subrange(0, old(ctf_state).msgs().len() as int)
                        =~= old(ctf_state).msgs());
                }
                Ok(())
            },
            Event::Unknown => {
                if ctf_state.remaining() < 1 {
                    return Err(Error::MessageVecFull);
                }
                let p = match Unknown::try_from(event_type, event_type_name, &mut self.string_cache)
                    {
                    Ok(p) => p,
                    Err(e) => {
                        return Err(e);
                    },
                };
                let msg = ctf_state.create_message(
                    self.unknown_event_class,
                    timestamp,
                    cc,
                    RecordPayload::Unknown(p),
                );
                match ctf_state.push_message(msg) {
                    Ok(_) => {},
                    Err(e) => {
                        return Err(e);
                    },
                }
                proof {
                    assert(ctf_state.msgs().subrange(0, old(ctf_state).msgs().len() as int)
                        =~= old(ctf_state).msgs());
                }
                Ok(())
            },
            Event::User(ev) => {
                if ctf_state.remaining() < 1 {
                    return Err(Error::MessageVecFull);
                }
                let p = match User::try_from(&ev, &mut self.string_cache) {
                    Ok(p) => p,
                    Err(e) => {
                        return Err(e);
                    },
                };
                let msg = ctf_state.create_message(
                    self.user_event_class,
                    timestamp,
                    cc,
                    RecordPayload::User(p),
                );
                match ctf_state.push_message(msg) {
                    Ok(_) => {},
                    Err(e) => {
                        return Err(e);
                    },
                }
                proof {
                    assert(ctf_state.msgs().subrange(0, old(ctf_state).msgs().len() as int)
                        =~= old(ctf_state).msgs());
                }
                Ok(())
            },
            Event::TaskReady(ev) => {
                if ctf_state.remaining() < 1 {
                    return Err(Error::MessageVecFull);
                }
                let p = match SchedWakeup::try_from(
                    event_type,
                    event_type_name,
                    &ev,
                    &mut self.string_cache,
                ) {
                    Ok(p) => p,
                    Err(e) => {
                        return Err(e);
                    },
                };
                let msg = ctf_state.create_message(
                    self.sched_wakeup_event_class,
                    timestamp,
                    cc,
                    RecordPayload::SchedWakeup(p),
                );
                match ctf_state.push_message(msg) {
                    Ok(_) => {},
                    Err(e) => {
                        return Err(e);
                    },
                }
                proof {
                    assert(ctf_state.msgs().subrange(0, old(ctf_state).msgs().len() as int)
                        =~= old(ctf_state).msgs());
                }
                Ok(())
            },
            Event::TaskResume(ev) | Event::TaskActivate(ev) => {
                if self.pending_isrs.len() > 0 {
                    if ctf_state.remaining() < 2 {
                        return Err(Error::MessageVecFull);
                    }
                    let idx = self.pending_isrs.len() - 1;
                    proof {
                        assert(text_ok(old(self).pending_isrs@[idx as int].name@));
                    }
                    let exit_p = match IrqHandlerExit::try_from(
                        event_type,
                        event_type_name,
                        &self.pending_isrs[idx],
                        &mut self.string_cache,
                    ) {
                        Ok(p) => p,
                        Err(e) => {
                            return Err(e);
                        },
                    };
                    let ghost c1 = self.string_cache;
                    let next_ctx = Context { handle: ev.handle, name: ev.name, priority: ev.priority };
                    let switch_p = match SchedSwitch::try_from(
                        event_type,
                        event_type_name,
                        &self.active_context,
                        &next_ctx,
                        &mut self.string_cache,
                    ) {
                        Ok(p) => p,
                        Err(e) => {
                            return Err(e);
                        },
                    };
                    proof {
                        crate::types::lemma_prefix_index(
                            c1.strings_view(),
                            self.string_cache.strings_view(),
                            exit_p.src_event_type as int,
                        );
                        crate::types::lemma_prefix_index(
                            c1.strings_view(),
                            self.string_cache.strings_view(),
                            exit_p.name as int,
                        );
                    }
                    let _popped = self.pending_isrs.pop();
                    let msg = ctf_state.create_message(
                        self.irq_handler_exit_event_class,
                        timestamp,
                        cc,
                        RecordPayload::IrqHandlerExit(exit_p),
                    );
                    match ctf_state.push_message(msg) {
                        Ok(_) => {},
                        Err(e) => {
                            return Err(e);
                        },
                    }
                    let msg2 = ctf_state.create_message(
                        self.sched_switch_event_class,
                        timestamp,
                        cc,
                        RecordPayload::SchedSwitch(switch_p),
                    );
                    match ctf_state.push_message(msg2) {
                        Ok(_) => {},
                        Err(e) => {
                            return Err(e);
                        },
                    }
                    self.active_context = next_ctx;
                    proof {
                        assert(self.pending_isrs@ =~= old(self).pending_isrs@.drop_last());
                        assert(ctf_state.msgs().subrange(0, old(ctf_state).msgs().len() as int)
                            =~= old(ctf_state).msgs());
                    }
                    Ok(())
                } else {
                    if ctf_state.remaining() < 1 {
                        return Err(Error::MessageVecFull);
                    }
                    let next_ctx = Context { handle: ev.handle, name: ev.name, priority: ev.priority };
                    let switch_p = match SchedSwitch::try_from(
                        event_type,
                        event_type_name,
                        &self.active_context,
                        &next_ctx,
                        &mut self.string_cache,
                    ) {
                        Ok(p) => p,
                        Err(e) => {
                            return Err(e);
                        },
                    };
                    let msg = ctf_state.create_message(
                        self.sched_switch_event_class,
                        timestamp,
                        cc,
                        RecordPayload::SchedSwitch(switch_p),
                    );
                    match ctf_state.push_message(msg) {
                        Ok(_) => {},
                        Err(e) => {
                            return Err(e);
                        },
                    }
                    self.active_context = next_ctx;
                    proof {
                        assert(ctf_state.msgs().subrange(0, old(ctf_state).msgs().len() as int)
                            =~= old(ctf_state).msgs());
                    }
                    Ok(())
                }
            },
            Event::IsrBegin(ev) => {
                if ctf_state.remaining() < 1 {
                    return Err(Error::MessageVecFull);
                }
                let p = match IrqHandlerEntry::try_from(
                    event_type,
                    event_type_name,
                    &ev,
                    &mut self.string_cache,
                ) {
                    Ok(p) => p,
                    Err(e) => {
                        return Err(e);
                    },
                };
                let ctx = Context { handle: ev.handle, name: ev.name, priority: ev.priority };
                self.pending_isrs.push(ctx);
                let msg = ctf_state.create_message(
                    self.irq_handler_entry_event_class,
                    timestamp,
                    cc,
                    RecordPayload::IrqHandlerEntry(p),
                );
                match ctf_state.push_message(msg) {
                    Ok(_) => {},
                    Err(e) => {
                        return Err(e);
                    },
                }
                proof {
                    assert(ctf_state.msgs().subrange(0, old(ctf_state).msgs().len() as int)
                        =~= old(ctf_state).msgs());
                }
                Ok(())
            },
            Event::IsrResume(_) => {
                if self.pending_isrs.len() > 0 {
                    if ctf_state.remaining() < 1 {
                        return Err(Error::MessageVecFull);
                    }
                    let idx = self.pending_isrs.len() - 1;
                    proof {
                        assert(text_ok(old(self).pending_isrs@[idx as int].name@));
                    }
                    let p = match IrqHandlerExit::try_from(
                        event_type,
                        event_type_name,
                        &self.pending_isrs[idx],
                        &mut self.string_cache,
                    ) {
                        Ok(p) => p,
                        Err(e) => {
                            return Err(e);
                        },
                    };
                    let _popped = self.pending_isrs.pop();
                    let msg = ctf_state.create_message(
                        self.irq_handler_exit_event_class,
                        timestamp,
                        cc,
                        RecordPayload::IrqHandlerExit(p),
                    );
                    match ctf_state.push_message(msg) {
                        Ok(_) => {},
                        Err(e) => {
                            return Err(e);
                        },
                    }
                    proof {
                        assert(self.pending_isrs@ =~= old(self).pending_isrs@.drop_last());
                        assert(ctf_state.msgs().subrange(0, old(ctf_state).msgs().len() as int)
                            =~= old(ctf_state).msgs());
                    }
                    Ok(())
                } else {
                    // anomaly: a resume with no pending entry; emit nothing
                    // rather than underflow, and leave all state unchanged
                    proof {
                        assert(ctf_state.msgs().subrange(0, old(ctf_state).msgs().len() as int)
                            =~= old(ctf_state).msgs());
                    }
                    Ok(())
                }
            },
            Event::Other => {
                if ctf_state.remaining() < 1 {
                    return Err(Error::MessageVecFull);
                }
                if !check_text(event_type_name) {
                    return Err(Error::TextConversion);
                }
                let class = self.event_class(event_type, event_type_name, RecordKind::Unsupported);
                let msg = ctf_state.create_message(
                    class,
                    timestamp,
                    cc,
                    RecordPayload::Unsupported(Unsupported {}),
                );
                match ctf_state.push_message(msg) {
                    Ok(_) => {},
                    Err(e) => {
                        return Err(e);
                    },
                }
                proof {
                    assert(ctf_state.msgs().subrange(0, old(ctf_state).msgs().len() as int)
                        =~= old(ctf_state).msgs());
                }
                Ok(())
            },
        }
    }
}

/// Schema registration is register-once: a source kind is cached with at most
/// one class id, so looking a kind up twice yields the same class.  Together
/// with `event_class`'s contract (a cached kind leaves the engine unchanged),
/// registering the same kind twice performs the underlying registration
/// exactly once.
pub proof fn lemma_kind_class_unique(c: TrcCtfConverter, event_type: u16, id1: usize, id2: usize)
    requires
        c.wf(),
        c.kind_class_is(event_type, id1),
        c.kind_class_is(event_type, id2),
    ensures
        id1 == id2,
{
    let i1 = choose|i: int|
        0 <= i < c.event_classes@.len() && #[trigger] c.event_classes@[i] == (event_type, id1);
    let i2 = choose|i: int|
        0 <= i < c.event_classes@.len() && #[trigger] c.event_classes@[i] == (event_type, id2);
    if i1 != i2 {
        assert(c.event_classes@[i1].0 != c.event_classes@[i2].0);
    }
}

/// The (name, kind) a lazily registered class resolves to: the class already
/// registered for the kind if there is one, else the freshly given pair.
pub open spec fn spec_kind_class(
    c: TrcCtfConverter,
    event_type: u16,
    fresh: (Seq<char>, RecordKind),
) -> (Seq<char>, RecordKind) {
    if c.has_kind(event_type) {
        c.kind_class(event_type)
    } else {
        fresh
    }
}

/// Whether a handle of the engine's interner resolves to the text `s`.
pub open spec fn resolves(c: TrcCtfConverter, h: StrHandle, s: Seq<char>) -> bool {
    h < c.strings().len() && c.strings()[h as int] == s
}

/// Whether `id` is a registered class with the given name and record kind.
pub open spec fn class_is(c: TrcCtfConverter, id: usize, name: Seq<char>, kind: RecordKind) -> bool {
    id < c.classes_view().len() && c.classes_view()[id as int] == (name, kind)
}

/// Whether `id` is a registered class carrying what a lazy registration of
/// `fresh` against the engine state `pre` resolves to: the class already
/// registered for the kind, or `fresh` on the first registration.
pub open spec fn lazy_class_is(
    pre: TrcCtfConverter,
    post: TrcCtfConverter,
    id: usize,
    event_type: u16,
    fresh: (Seq<char>, RecordKind),
) -> bool {
    id < post.classes_view().len() && post.classes_view()[id as int] == spec_kind_class(
        pre,
        event_type,
        fresh,
    )
}

/// The common context a record of this event carries.
pub open spec fn spec_common(event_id: u16, event_count: u64, timestamp: u64) -> CommonContext {
    CommonContext { id: event_id, event_count, timer: timestamp }
}

/// Whether interning the source kind's display name can succeed: it is either
/// already interned, or its name is NUL-free.
pub open spec fn spec_type_ok(cache: StringCache, event_type: u16, tn: Seq<char>) -> bool {
    cache.has_type(event_type) || text_ok(tn)
}

/// Whether every text conversion this event needs succeeds.  Names already
/// held by the engine (the active context, pending ISR contexts) are NUL-free
/// by invariant and never fail.
pub open spec fn event_texts_ok(
    c: TrcCtfConverter,
    event_type: u16,
    tn: Seq<char>,
    event: Event,
) -> bool {
    match event {
        Event::TraceStart(ev) => text_ok(ev.current_task@),
        Event::Unknown => spec_type_ok(c.string_cache, event_type, tn),
        Event::User(ev) => text_ok(channel_text(ev.channel)) && text_ok(ev.format_string@)
            && text_ok(ev.formatted_string@),
        Event::TaskReady(ev) => spec_type_ok(c.string_cache, event_type, tn) && text_ok(ev.name@),
        Event::TaskResume(ev) => spec_type_ok(c.string_cache, event_type, tn) && text_ok(ev.name@),
        Event::TaskActivate(ev) => spec_type_ok(c.string_cache, event_type, tn) && text_ok(
            ev.name@,
        ),
        Event::IsrBegin(ev) => spec_type_ok(c.string_cache, event_type, tn) && text_ok(ev.name@),
        Event::IsrResume(_) => c.pending_isrs@.len() > 0 ==> spec_type_ok(
            c.string_cache,
            event_type,
            tn,
        ),
        Event::Other => text_ok(tn),
    }
}

/// How many records one event emits: exactly one, except a task-resume or
/// task-activate with a non-empty pending-ISR stack emits two (interrupt exit,
/// then scheduler switch), and an ISR resume with an empty stack emits none.
pub open spec fn emitted_count(event: Event, pending_len: nat) -> nat {
    match event {
        Event::TaskResume(_) | Event::TaskActivate(_) => if pending_len > 0 {
            2
        } else {
            1
        },
        Event::IsrResume(_) => if pending_len > 0 {
            1
        } else {
            0
        },
        _ => 1,
    }
}

/// How many schema registrations one event performs: the first trace-start or
/// generic fallback event of a given source kind registers one class; every
/// other event registers none.
pub open spec fn registrations(c: TrcCtfConverter, event_type: u16, event: Event) -> int {
    match event {
        Event::TraceStart(_) | Event::Other => if c.has_kind(event_type) {
            0int
        } else {
            1int
        },
        _ => 0int,
    }
}

/// An `irq_handler_exit` record for the pending context `ctx`: keyed on the
/// stack's own record of the interrupt, with `ret` fixed to 1 ("was handled").
pub open spec fn is_exit_record(
    rec: EventRecord,
    post: TrcCtfConverter,
    cc: CommonContext,
    timestamp: u64,
    tt: Seq<char>,
    ctx: Context,
) -> bool {
    &&& rec.timestamp == timestamp
    &&& rec.common == cc
    &&& rec.class == post.irq_handler_exit_event_class
    &&& class_is(post, rec.class, "irq_handler_exit"@, RecordKind::IrqHandlerExit)
    &&& rec.payload matches RecordPayload::IrqHandlerExit(p)
    &&& resolves(post, p.src_event_type, tt)
    &&& p.irq == ctx.handle as i64
    &&& resolves(post, p.name, ctx.name@)
    &&& p.ret == 1
}

/// A `sched_switch` record from the previous context to the event's task.
/// The previous task state is always reported as `Running`: the source trace
/// does not carry the real prior state.
pub open spec fn is_switch_record(
    rec: EventRecord,
    post: TrcCtfConverter,
    cc: CommonContext,
    timestamp: u64,
    tt: Seq<char>,
    prev: Context,
    ev: crate::events::TaskEvent,
) -> bool {
    &&& rec.timestamp == timestamp
    &&& rec.common == cc
    &&& rec.class == post.sched_switch_event_class
    &&& class_is(post, rec.class, "sched_switch"@, RecordKind::SchedSwitch)
    &&& rec.payload matches RecordPayload::SchedSwitch(p)
    &&& resolves(post, p.src_event_type, tt)
    &&& resolves(post, p.prev_comm, prev.name@)
    &&& p.prev_tid == prev.handle as i64
    &&& p.prev_prio == prev.priority as i64
    &&& p.prev_state == TaskState::Running
    &&& resolves(post, p.next_comm, ev.name@)
    &&& p.next_tid == ev.handle as i64
    &&& p.next_prio == ev.priority as i64
}

/// What a successful `convert` call guarantees, by event kind: the records
/// appended at position `n = pre_msgs.len()` and the state transition of the
/// active context and the pending-ISR stack.
pub open spec fn convert_ok_post(
    pre: TrcCtfConverter,
    post: TrcCtfConverter,
    pre_msgs: Seq<Message>,
    post_msgs: Seq<Message>,
    event_id: u16,
    event_type: u16,
    tn: Seq<char>,
    event_count: u64,
    timestamp: u64,
    event: Event,
) -> bool {
    let n = pre_msgs.len() as int;
    let cc = spec_common(event_id, event_count, timestamp);
    let tt = spec_type_text(pre.string_cache, event_type, tn);
    match event {
        Event::TraceStart(ev) => {
            &&& post.active_context == pre.active_context
            &&& post.pending_isrs@ == pre.pending_isrs@
            &&& post_msgs[n] matches Message::Event(rec)
            &&& rec.timestamp == timestamp
            &&& rec.common == cc
            &&& lazy_class_is(
                pre,
                post,
                rec.class,
                event_type,
                ("TRACE_START"@, RecordKind::TraceStart),
            )
            &&& rec.payload matches RecordPayload::TraceStart(p)
            &&& p.task_handle == ev.current_task_handle as u64
            &&& resolves(post, p.task, ev.current_task@)
        },
        Event::Unknown => {
            &&& post.active_context == pre.active_context
            &&& post.pending_isrs@ == pre.pending_isrs@
            &&& post_msgs[n] matches Message::Event(rec)
            &&& rec.timestamp == timestamp
            &&& rec.common == cc
            &&& rec.class == post.unknown_event_class
            &&& class_is(post, rec.class, "UNKNOWN"@, RecordKind::Unknown)
            &&& rec.payload matches RecordPayload::Unknown(p)
            &&& resolves(post, p.event_type, tt)
        },
        Event::User(ev) => {
            &&& post.active_context == pre.active_context
            &&& post.pending_isrs@ == pre.pending_isrs@
            &&& post_msgs[n] matches Message::Event(rec)
            &&& rec.timestamp == timestamp
            &&& rec.common == cc
            &&& rec.class == post.user_event_class
            &&& class_is(post, rec.class, "USER_EVENT"@, RecordKind::User)
            &&& rec.payload matches RecordPayload::User(p)
            &&& resolves(post, p.channel, channel_text(ev.channel))
            &&& resolves(post, p.format_string, ev.format_string@)
            &&& resolves(post, p.formatted_string, ev.formatted_string@)
        },
        Event::TaskReady(ev) => {
            &&& post.active_context == pre.active_context
            &&& post.pending_isrs@ == pre.pending_isrs@
            &&& post_msgs[n] matches Message::Event(rec)
            &&& rec.timestamp == timestamp
            &&& rec.common == cc
            &&& rec.class == post.sched_wakeup_event_class
            &&& class_is(post, rec.class, "sched_wakeup"@, RecordKind::SchedWakeup)
            &&& rec.payload matches RecordPayload::SchedWakeup(p)
            &&& resolves(post, p.src_event_type, tt)
            &&& resolves(post, p.comm, ev.name@)
            &&& p.tid == ev.handle as i64
            &&& p.prio == ev.priority as i64
            &&& p.target_cpu == 0
        },
        Event::TaskResume(ev) | Event::TaskActivate(ev) => {
            &&& post.active_context == (Context {
                handle: ev.handle,
                name: ev.name,
                priority: ev.priority,
            })
            &&& if pre.pending_isrs@.len() > 0 {
                &&& post.pending_isrs@ == pre.pending_isrs@.drop_last()
                &&& post_msgs[n] matches Message::Event(rec)
                &&& is_exit_record(rec, post, cc, timestamp, tt, pre.pending_isrs@.last())
                &&& post_msgs[n + 1] matches Message::Event(rec2)
                &&& is_switch_record(rec2, post, cc, timestamp, tt, pre.active_context, ev)
            } else {
                &&& post.pending_isrs@ == pre.pending_isrs@
                &&& post_msgs[n] matches Message::Event(rec)
                &&& is_switch_record(rec, post, cc, timestamp, tt, pre.active_context, ev)
            }
        },
        Event::IsrBegin(ev) => {
            &&& post.active_context == pre.active_context
            &&& post.pending_isrs@ == pre.pending_isrs@.push(
                Context { handle: ev.handle, name: ev.name, priority: ev.priority },
            )
            &&& post_msgs[n] matches Message::Event(rec)
            &&& rec.timestamp == timestamp
            &&& rec.common == cc
            &&& rec.class == post.irq_handler_entry_event_class
            &&& class_is(post, rec.class, "irq_handler_entry"@, RecordKind::IrqHandlerEntry)
            &&& rec.payload matches RecordPayload::IrqHandlerEntry(p)
            &&& resolves(post, p.src_event_type, tt)
            &&& p.irq == ev.handle as i64
            &&& resolves(post, p.name, ev.name@)
            &&& p.prio == ev.priority as i64
        },
        Event::IsrResume(_) => {
            if pre.pending_isrs@.len() > 0 {
                &&& post.active_context == pre.active_context
                &&& post.pending_isrs@ == pre.pending_isrs@.drop_last()
                &&& post_msgs[n] matches Message::Event(rec)
                &&& is_exit_record(rec, post, cc, timestamp, tt, pre.pending_isrs@.last())
            } else {
                post == pre
            }
        },
        Event::Other => {
            &&& post.active_context == pre.active_context
            &&& post.pending_isrs@ == pre.pending_isrs@
            &&& post_msgs[n] matches Message::Event(rec)
            &&& rec.timestamp == timestamp
            &&& rec.common == cc
            &&& lazy_class_is(pre, post, rec.class, event_type, (tn, RecordKind::Unsupported))
            &&& rec.payload matches RecordPayload::Unsupported(p)
        },
    }
}

/// The startup context's name is NUL-free.
proof fn lemma_startup_name_text_ok()
    ensures
        text_ok("(startup)"@),
{
    reveal_strlit("(startup)");
    if "(startup)"@.contains('\0') {
        let i = choose|i: int|
            0 <= i < "(startup)"@.len() && "(startup)"@[i] == '\0';
        assert("(startup)"@[0] == '(');
        assert("(startup)"@[1] == 's');
        assert("(startup)"@[2] == 't');
        assert("(startup)"@[3] == 'a');
        assert("(startup)"@[4] == 'r');
        assert("(startup)"@[5] == 't');
        assert("(startup)"@[6] == 'u');
        assert("(startup)"@[7] == 'p');
        assert("(startup)"@[8] == ')');
        assert(false);
    }
}

} // verus!
