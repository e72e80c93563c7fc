//! Decoded source events and the payloads of the emitted records.
//!
//! A decoded event is one parsed record from the trace byte stream, already
//! typed into the closed set of kinds the engine handles.  The record payload
//! structs mirror the sink's output schemas; their text fields hold interned
//! handles into the engine's string cache.

use vstd::prelude::*;
use crate::types::{Error, StrHandle, StringCache, text_ok};

verus! {

/// Identity of a task or interrupt handler.
#[derive(Clone, Debug, PartialEq, Eq)]
pub struct Context {
    pub handle: u32,
    pub name: String,
    pub priority: u32,
}

/// Payload of a trace-start event: the task running when tracing began.
#[derive(Clone, Debug, PartialEq, Eq)]
pub struct TraceStartEvent {
    pub current_task_handle: u32,
    pub current_task: String,
}

/// Payload of a task scheduling event (ready, resume, activate).
#[derive(Clone, Debug, PartialEq, Eq)]
pub struct TaskEvent {
    pub handle: u32,
    pub name: String,
    pub priority: u32,
}

/// Payload of an interrupt-service-routine event (begin, resume).
#[derive(Clone, Debug, PartialEq, Eq)]
pub struct IsrEvent {
    pub handle: u32,
    pub name: String,
    pub priority: u32,
}

/// The channel a user event was logged on.
#[derive(Clone, Debug, PartialEq, Eq)]
pub enum UserEventChannel {
    Default,
    Custom(String),
}

/// Payload of a user-logged event.
#[derive(Clone, Debug, PartialEq, Eq)]
pub struct UserEvent {
    pub channel: UserEventChannel,
    pub format_string: String,
    pub formatted_string: String,
}

/// One decoded event, typed into the closed set of kinds the engine handles.
/// Kinds with no payload of interest carry none: their identity travels as the
/// numeric kind value and its display name, which the driver passes alongside.
#[derive(Clone, Debug, PartialEq, Eq)]
pub enum Event {
    TraceStart(TraceStartEvent),
    /// An event whose kind the decoder did not recognize.
    Unknown,
    User(UserEvent),
    TaskReady(TaskEvent),
    TaskResume(TaskEvent),
    TaskActivate(TaskEvent),
    IsrBegin(IsrEvent),
    IsrResume(IsrEvent),
    /// Any other named source kind: emitted as a generic record with no
    /// payload, under a schema named after the dynamic kind.
    Other,
}

impl From<TaskEvent> for Context {
    fn from(value: TaskEvent) -> (r: Self) {
        Context { handle: value.handle, name: value.name, priority: value.priority }
    }
}

impl vstd::std_specs::convert::FromSpecImpl<TaskEvent> for Context {
    open spec fn obeys_from_spec() -> bool {
        true
    }

    open spec fn from_spec(value: TaskEvent) -> Self {
        Context { handle: value.handle, name: value.name, priority: value.priority }
    }
}

impl From<IsrEvent> for Context {
    fn from(value: IsrEvent) -> (r: Self) {
        Context { handle: value.handle, name: value.name, priority: value.priority }
    }
}

impl vstd::std_specs::convert::FromSpecImpl<IsrEvent> for Context {
    open spec fn obeys_from_spec() -> bool {
        true
    }

    open spec fn from_spec(value: IsrEvent) -> Self {
        Context { handle: value.handle, name: value.name, priority: value.priority }
    }
}

/// The text a user event's channel resolves to: custom channels keep their
/// name, the default channel uses the recorder's fixed channel name.
pub open spec fn channel_text(ch: UserEventChannel) -> Seq<char> {
    match ch {
        UserEventChannel::Default => "default"@,
        UserEventChannel::Custom(c) => c@,
    }
}

/// The prior-task state recorded on a scheduler switch.  The source trace does
/// not carry the real prior state, so the engine always reports `Running`;
/// the full value set exists because the output schema declares the
/// enumeration in its field class.
#[derive(Clone, Copy, Debug, PartialEq, Eq, Structural)]
pub enum TaskState {
    Running,
    Interruptible,
    UnInterruptible,
    Stopped,
    Traced,
    ExitDead,
    ExitZombie,
    Parked,
    Dead,
    WakeKill,
    Waking,
    NoLoad,
    New,
}

/// The numeric value of a task state in the output enumeration.
pub open spec fn spec_task_state_value(s: TaskState) -> i64 {
    match s {
        TaskState::Running => 0,
        TaskState::Interruptible => 1,
        TaskState::UnInterruptible => 2,
        TaskState::Stopped => 4,
        TaskState::Traced => 8,
        TaskState::ExitDead => 16,
        TaskState::ExitZombie => 32,
        TaskState::Parked => 64,
        TaskState::Dead => 128,
        TaskState::WakeKill => 256,
        TaskState::Waking => 512,
        TaskState::NoLoad => 1024,
        TaskState::New => 2048,
    }
}

impl TaskState {
    pub fn as_i64(&self) -> (r: i64)
        ensures
            r == spec_task_state_value(*self),
    {
        match self {
            TaskState::Running => 0,
            TaskState::Interruptible => 1,
            TaskState::UnInterruptible => 2,
            TaskState::Stopped => 4,
            TaskState::Traced => 8,
            TaskState::ExitDead => 16,
            TaskState::ExitZombie => 32,
            TaskState::Parked => 64,
            TaskState::Dead => 128,
            TaskState::WakeKill => 256,
            TaskState::Waking => 512,
            TaskState::NoLoad => 1024,
            TaskState::New => 2048,
        }
    }
}

/// Payload of a `TRACE_START` record.
#[derive(Clone, Copy, Debug, PartialEq, Eq, Structural)]
pub struct TraceStart {
    pub task_handle: u64,
    pub task: StrHandle,
}

/// Payload of an `UNKNOWN` record: the unrecognized kind's display name.
#[derive(Clone, Copy, Debug, PartialEq, Eq, Structural)]
pub struct Unknown {
    pub event_type: StrHandle,
}

/// Payload of a `USER_EVENT` record.
#[derive(Clone, Copy, Debug, PartialEq, Eq, Structural)]
pub struct User {
    pub channel: StrHandle,
    pub format_string: StrHandle,
    pub formatted_string: StrHandle,
}

/// Payload of a `sched_switch` record.
#[derive(Clone, Copy, Debug, PartialEq, Eq, Structural)]
pub struct SchedSwitch {
    pub src_event_type: StrHandle,
    pub prev_comm: StrHandle,
    pub prev_tid: i64,
    pub prev_prio: i64,
    pub prev_state: TaskState,
    pub next_comm: StrHandle,
    pub next_tid: i64,
    pub next_prio: i64,
}

/// Payload of a `sched_wakeup` record.
#[derive(Clone, Copy, Debug, PartialEq, Eq, Structural)]
pub struct SchedWakeup {
    pub src_event_type: StrHandle,
    pub comm: StrHandle,
    pub tid: i64,
    pub prio: i64,
    pub target_cpu: i64,
}

/// Payload of an `irq_handler_entry` record.
#[derive(Clone, Copy, Debug, PartialEq, Eq, Structural)]
pub struct IrqHandlerEntry {
    pub src_event_type: StrHandle,
    pub irq: i64,
    pub name: StrHandle,
    pub prio: i64,
}

/// Payload of an `irq_handler_exit` record.
#[derive(Clone, Copy, Debug, PartialEq, Eq, Structural)]
pub struct IrqHandlerExit {
    pub src_event_type: StrHandle,
    pub irq: i64,
    pub name: StrHandle,
    pub ret: i64,
}

/// Payload of a generic fallback record: no fields.
#[derive(Clone, Copy, Debug, PartialEq, Eq, Structural)]
pub struct Unsupported {}

/// The payload of one emitted record, tagged by output kind.
#[derive(Clone, Copy, Debug, PartialEq, Eq, Structural)]
pub enum RecordPayload {
    TraceStart(TraceStart),
    Unknown(Unknown),
    User(User),
    SchedSwitch(SchedSwitch),
    SchedWakeup(SchedWakeup),
    IrqHandlerEntry(IrqHandlerEntry),
    IrqHandlerExit(IrqHandlerExit),
    Unsupported(Unsupported),
}

impl TraceStart {
    /// Builds the record payload from a decoded trace-start event, interning
    /// its task name.
    pub fn try_from(ev: &TraceStartEvent, cache: &mut StringCache) -> (r: Result<
        TraceStart,
        Error,
    >)
        requires
            old(cache).wf(),
        ensures
            final(cache).wf(),
            old(cache).strings_view().is_prefix_of(final(cache).strings_view()),
            final(cache).event_types@ == old(cache).event_types@,
            r is Ok <==> text_ok(ev.current_task@),
            r matches Ok(p) ==> {
                &&& p.task_handle == ev.current_task_handle as u64
                &&& p.task < final(cache).strings_view().len()
                &&& final(cache).strings_view()[p.task as int] == ev.current_task@
            },
            r is Err ==> *final(cache) == *old(cache),
    {
        let task = match cache.insert_str(ev.current_task.as_str()) {
            Ok(h) => h,
            Err(e) => {
                return Err(e);
            },
        };
        Ok(TraceStart { task_handle: ev.current_task_handle as u64, task })
    }
}

impl Unknown {
    /// Builds the record payload for an unrecognized kind, interning the
    /// kind's display name.
    pub fn try_from(event_type: u16, event_type_name: &str, cache: &mut StringCache) -> (r: Result<
        Unknown,
        Error,
    >)
        requires
            old(cache).wf(),
        ensures
            final(cache).wf(),
            old(cache).strings_view().is_prefix_of(final(cache).strings_view()),
            r is Ok <==> old(cache).has_type(event_type) || text_ok(event_type_name@),
            r matches Ok(p) ==> {
                &&& p.event_type < final(cache).strings_view().len()
                &&& final(cache).strings_view()[p.event_type as int] == crate::types::spec_type_text(
                    *old(cache),
                    event_type,
                    event_type_name@,
                )
            },
            r is Err ==> *final(cache) == *old(cache),
            r is Ok ==> final(cache).has_type(event_type) && final(cache).type_text(event_type)
                == crate::types::spec_type_text(*old(cache), event_type, event_type_name@),
            forall|k: u16| old(cache).has_type(k) ==> final(cache).has_type(k),
    {
        let event_type = match cache.insert_type(event_type, event_type_name) {
            Ok(h) => h,
            Err(e) => {
                return Err(e);
            },
        };
        Ok(Unknown { event_type })
    }
}

impl User {
    /// Builds the record payload from a decoded user event, interning the
    /// channel name, the format string and the formatted text.
    pub fn try_from(ev: &UserEvent, cache: &mut StringCache) -> (r: Result<User, Error>)
        requires
            old(cache).wf(),
        ensures
            final(cache).wf(),
            old(cache).strings_view().is_prefix_of(final(cache).strings_view()),
            final(cache).event_types@ == old(cache).event_types@,
            r is Ok <==> text_ok(channel_text(ev.channel)) && text_ok(ev.format_string@) && text_ok(
                ev.formatted_string@,
            ),
            r matches Ok(p) ==> {
                &&& p.channel < final(cache).strings_view().len()
                &&& final(cache).strings_view()[p.channel as int] == channel_text(ev.channel)
                &&& p.format_string < final(cache).strings_view().len()
                &&& final(cache).strings_view()[p.format_string as int] == ev.format_string@
                &&& p.formatted_string < final(cache).strings_view().len()
                &&& final(cache).strings_view()[p.formatted_string as int] == ev.formatted_string@
            },
    {
        let channel = match ev.channel {
            UserEventChannel::Default => cache.insert_str("default"),
            UserEventChannel::Custom(ref c) => cache.insert_str(c.as_str()),
        };
        let channel = match channel {
            Ok(h) => h,
            Err(e) => {
                return Err(e);
            },
        };
        let format_string = match cache.insert_str(ev.format_string.as_str()) {
            Ok(h) => h,
            Err(e) => {
                return Err(e);
            },
        };
        let formatted_string = match cache.insert_str(ev.formatted_string.as_str()) {
            Ok(h) => h,
            Err(e) => {
                return Err(e);
            },
        };
        Ok(User { channel, format_string, formatted_string })
    }
}

impl SchedSwitch {
    /// Builds the record payload for a scheduler switch from the previous and
    /// next contexts, interning the source kind's name and both task names.
    /// The prior task state is not carried by the source trace; it is always
    /// reported as `Running`.
    pub fn try_from(
        event_type: u16,
        event_type_name: &str,
        prev_ctx: &Context,
        next_ctx: &Context,
        cache: &mut StringCache,
    ) -> (r: Result<SchedSwitch, Error>)
        requires
            old(cache).wf(),
        ensures
            final(cache).wf(),
            old(cache).strings_view().is_prefix_of(final(cache).strings_view()),
            r is Ok <==> (old(cache).has_type(event_type) || text_ok(event_type_name@)) && text_ok(
                prev_ctx.name@,
            ) && text_ok(next_ctx.name@),
            r matches Ok(p) ==> {
                &&& p.src_event_type < final(cache).strings_view().len()
                &&& final(cache).strings_view()[p.src_event_type as int] == crate::types::spec_type_text(
                    *old(cache),
                    event_type,
                    event_type_name@,
                )
                &&& p.prev_comm < final(cache).strings_view().len()
                &&& final(cache).strings_view()[p.prev_comm as int] == prev_ctx.name@
                &&& p.prev_tid == prev_ctx.handle as i64
                &&& p.prev_prio == prev_ctx.priority as i64
                &&& p.prev_state == TaskState::Running
                &&& p.next_comm < final(cache).strings_view().len()
                &&& final(cache).strings_view()[p.next_comm as int] == next_ctx.name@
                &&& p.next_tid == next_ctx.handle as i64
                &&& p.next_prio == next_ctx.priority as i64
            },
            r is Ok ==> final(cache).has_type(event_type) && final(cache).type_text(event_type)
                == crate::types::spec_type_text(*old(cache), event_type, event_type_name@),
            forall|k: u16| old(cache).has_type(k) ==> final(cache).has_type(k),
    {
        let src_event_type = match cache.insert_type(event_type, event_type_name) {
            Ok(h) => h,
            Err(e) => {
                return Err(e);
            },
        };
        let ghost c1 = *cache;
        let prev_comm = match cache.insert_str(prev_ctx.name.as_str()) {
            Ok(h) => h,
            Err(e) => {
                return Err(e);
            },
        };
        proof {
            crate::types::lemma_type_text_stable(c1, *cache, event_type);
        }
        let ghost c2 = *cache;
        let next_comm = match cache.insert_str(next_ctx.name.as_str()) {
            Ok(h) => h,
            Err(e) => {
                return Err(e);
            },
        };
        proof {
            crate::types::lemma_type_text_stable(c2, *cache, event_type);
        }
        Ok(
            SchedSwitch {
                src_event_type,
                prev_comm,
                prev_tid: prev_ctx.handle as i64,
                prev_prio: prev_ctx.priority as i64,
                prev_state: TaskState::Running,
                next_comm,
                next_tid: next_ctx.handle as i64,
                next_prio: next_ctx.priority as i64,
            },
        )
    }
}

impl IrqHandlerEntry {
    /// Builds the record payload from a decoded ISR-begin event, interning the
    /// source kind's name and the handler name.
    pub fn try_from(
        event_type: u16,
        event_type_name: &str,
        ev: &IsrEvent,
        cache: &mut StringCache,
    ) -> (r: Result<IrqHandlerEntry, Error>)
        requires
            old(cache).wf(),
        ensures
            final(cache).wf(),
            old(cache).strings_view().is_prefix_of(final(cache).strings_view()),
            r is Ok <==> (old(cache).has_type(event_type) || text_ok(event_type_name@)) && text_ok(
                ev.name@,
            ),
            r matches Ok(p) ==> {
                &&& p.src_event_type < final(cache).strings_view().len()
                &&& final(cache).strings_view()[p.src_event_type as int] == crate::types::spec_type_text(
                    *old(cache),
                    event_type,
                    event_type_name@,
                )
                &&& p.irq == ev.handle as i64
                &&& p.name < final(cache).strings_view().len()
                &&& final(cache).strings_view()[p.name as int] == ev.name@
                &&& p.prio == ev.priority as i64
            },
            r is Ok ==> final(cache).has_type(event_type) && final(cache).type_text(event_type)
                == crate::types::spec_type_text(*old(cache), event_type, event_type_name@),
            forall|k: u16| old(cache).has_type(k) ==> final(cache).has_type(k),
    {
        let src_event_type = match cache.insert_type(event_type, event_type_name) {
            Ok(h) => h,
            Err(e) => {
                return Err(e);
            },
        };
        let ghost c1 = *cache;
        let name = match cache.insert_str(ev.name.as_str()) {
            Ok(h) => h,
            Err(e) => {
                return Err(e);
            },
        };
        proof {
            crate::types::lemma_type_text_stable(c1, *cache, event_type);
        }
        Ok(
            IrqHandlerEntry {
                src_event_type,
                irq: ev.handle as i64,
                name,
                prio: ev.priority as i64,
            },
        )
    }
}

impl IrqHandlerExit {
    /// Builds the record payload for an interrupt exit keyed on a pending
    /// context, interning the source kind's name and the handler name.
    /// `ret` is always 1 ("was handled").
    pub fn try_from(
        event_type: u16,
        event_type_name: &str,
        ctx: &Context,
        cache: &mut StringCache,
    ) -> (r: Result<IrqHandlerExit, Error>)
        requires
            old(cache).wf(),
        ensures
            final(cache).wf(),
            old(cache).strings_view().is_prefix_of(final(cache).strings_view()),
            r is Ok <==> (old(cache).has_type(event_type) || text_ok(event_type_name@)) && text_ok(
                ctx.name@,
            ),
            r matches Ok(p) ==> {
                &&& p.src_event_type < final(cache).strings_view().len()
                &&& final(cache).strings_view()[p.src_event_type as int] == crate::types::spec_type_text(
                    *old(cache),
                    event_type,
                    event_type_name@,
                )
                &&& p.irq == ctx.handle as i64
                &&& p.name < final(cache).strings_view().len()
                &&& final(cache).strings_view()[p.name as int] == ctx.name@
                &&& p.ret == 1
            },
            r is Ok ==> final(cache).has_type(event_type) && final(cache).type_text(event_type)
                == crate::types::spec_type_text(*old(cache), event_type, event_type_name@),
            forall|k: u16| old(cache).has_type(k) ==> final(cache).has_type(k),
    {
        let src_event_type = match cache.insert_type(event_type, event_type_name) {
            Ok(h) => h,
            Err(e) => {
                return Err(e);
            },
        };
        let ghost c1 = *cache;
        let name = match cache.insert_str(ctx.name.as_str()) {
            Ok(h) => h,
            Err(e) => {
                return Err(e);
            },
        };
        proof {
            crate::types::lemma_type_text_stable(c1, *cache, event_type);
        }
        Ok(IrqHandlerExit { src_event_type, irq: ctx.handle as i64, name, ret: 1 })
    }
}

impl SchedWakeup {
    /// Builds the record payload from a decoded task-ready event, interning
    /// the source kind's name and the task name.
    pub fn try_from(
        event_type: u16,
        event_type_name: &str,
        ev: &TaskEvent,
        cache: &mut StringCache,
    ) -> (r: Result<SchedWakeup, Error>)
        requires
            old(cache).wf(),
        ensures
            final(cache).wf(),
            old(cache).strings_view().is_prefix_of(final(cache).strings_view()),
            r is Ok <==> (old(cache).has_type(event_type) || text_ok(event_type_name@)) && text_ok(
                ev.name@,
            ),
            r matches Ok(p) ==> {
                &&& p.src_event_type < final(cache).strings_view().len()
                &&& final(cache).strings_view()[p.src_event_type as int] == crate::types::spec_type_text(
                    *old(cache),
                    event_type,
                    event_type_name@,
                )
                &&& p.comm < final(cache).strings_view().len()
                &&& final(cache).strings_view()[p.comm as int] == ev.name@
                &&& p.tid == ev.handle as i64
                &&& p.prio == ev.priority as i64
                &&& p.target_cpu == 0
            },
            r is Ok ==> final(cache).has_type(event_type) && final(cache).type_text(event_type)
                == crate::types::spec_type_text(*old(cache), event_type, event_type_name@),
            forall|k: u16| old(cache).has_type(k) ==> final(cache).has_type(k),
    {
        let src_event_type = match cache.insert_type(event_type, event_type_name) {
            Ok(h) => h,
            Err(e) => {
                return Err(e);
            },
        };
        let ghost c1 = *cache;
        let comm = match cache.insert_str(ev.name.as_str()) {
            Ok(h) => h,
            Err(e) => {
                return Err(e);
            },
        };
        proof {
            crate::types::lemma_type_text_stable(c1, *cache, event_type);
        }
        Ok(
            SchedWakeup {
                src_event_type,
                comm,
                tid: ev.handle as i64,
                prio: ev.priority as i64,
                target_cpu: 0,
            },
        )
    }
}

} // verus!
