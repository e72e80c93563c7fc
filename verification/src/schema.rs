//! The output schema tables.
//!
//! Each output record kind has a fixed, ordered list of (field name, field
//! type) pairs.  The sink driver consumes these tables to register one schema
//! per kind and to populate each record's payload fields; the tables and the
//! per-payload field values are proved to line up one to one.

use vstd::prelude::*;
use vstd::string::StringExecFns;
use crate::events::{RecordPayload, TaskState, spec_task_state_value};
use crate::types::StrHandle;

verus! {

/// The output record kinds.  The named kinds have fixed schemas; `Unsupported`
/// is the generic fallback, one schema per distinct dynamic source kind.
#[derive(Clone, Copy, Debug, PartialEq, Eq, Structural)]
pub enum RecordKind {
    TraceStart,
    Unknown,
    User,
    SchedSwitch,
    SchedWakeup,
    IrqHandlerEntry,
    IrqHandlerExit,
    Unsupported,
}

/// The primitive type of one schema field.
#[derive(Clone, Copy, Debug, PartialEq, Eq, Structural)]
pub enum FieldType {
    /// Unsigned integer.
    Unsigned,
    /// Unsigned integer, displayed in hexadecimal.
    UnsignedHex,
    /// Signed integer.
    Signed,
    /// Text (an interned string handle).
    Text,
    /// The task-state enumeration.
    StateEnum,
}

/// One field of a schema: its name and its type.
#[derive(Clone, Debug, PartialEq, Eq)]
pub struct FieldSpec {
    pub name: String,
    pub ty: FieldType,
}

/// One registered schema: the class name the sink sees and the record kind
/// whose field table it carries.
#[derive(Clone, Debug, PartialEq, Eq)]
pub struct EventClassSpec {
    pub name: String,
    pub kind: RecordKind,
}

/// The value of one populated payload field.
#[derive(Clone, Copy, Debug, PartialEq, Eq, Structural)]
pub enum FieldValue {
    Unsigned(u64),
    Signed(i64),
    Text(StrHandle),
    State(TaskState),
}

pub open spec fn field_view(f: FieldSpec) -> (Seq<char>, FieldType) {
    (f.name@, f.ty)
}

pub open spec fn fields_view(v: Seq<FieldSpec>) -> Seq<(Seq<char>, FieldType)> {
    v.map_values(|f: FieldSpec| field_view(f))
}

/// The field table of each output kind, exactly as the sink schema declares it.
pub open spec fn spec_fields(kind: RecordKind) -> Seq<(Seq<char>, FieldType)> {
    match kind {
        RecordKind::TraceStart => seq![
            ("task_handle"@, FieldType::Unsigned),
            ("task"@, FieldType::Text),
        ],
        RecordKind::Unknown => seq![("event_type"@, FieldType::Text)],
        RecordKind::User => seq![
            ("channel"@, FieldType::Text),
            ("format_string"@, FieldType::Text),
            ("formatted_string"@, FieldType::Text),
        ],
        RecordKind::SchedSwitch => seq![
            ("src_event_type"@, FieldType::Text),
            ("prev_comm"@, FieldType::Text),
            ("prev_tid"@, FieldType::Signed),
            ("prev_prio"@, FieldType::Signed),
            ("prev_state"@, FieldType::StateEnum),
            ("next_comm"@, FieldType::Text),
            ("next_tid"@, FieldType::Signed),
            ("next_prio"@, FieldType::Signed),
        ],
        RecordKind::SchedWakeup => seq![
            ("src_event_type"@, FieldType::Text),
            ("comm"@, FieldType::Text),
            ("tid"@, FieldType::Signed),
            ("prio"@, FieldType::Signed),
            ("target_cpu"@, FieldType::Signed),
        ],
        RecordKind::IrqHandlerEntry => seq![
            ("src_event_type"@, FieldType::Text),
            ("irq"@, FieldType::Signed),
            ("name"@, FieldType::Text),
            ("prio"@, FieldType::Signed),
        ],
        RecordKind::IrqHandlerExit => seq![
            ("src_event_type"@, FieldType::Text),
            ("irq"@, FieldType::Signed),
            ("name"@, FieldType::Text),
            ("ret"@, FieldType::Signed),
        ],
        RecordKind::Unsupported => seq![],
    }
}

/// The field table of the common event context every record carries:
/// {id (hex-displayed), event_count, timer}, in that order.
pub open spec fn spec_common_context_fields() -> Seq<(Seq<char>, FieldType)> {
    seq![
        ("id"@, FieldType::UnsignedHex),
        ("event_count"@, FieldType::Unsigned),
        ("timer"@, FieldType::Unsigned),
    ]
}

/// Builds the field table of an output kind.
pub fn fields_for(kind: RecordKind) -> (r: Vec<FieldSpec>)
    ensures
        fields_view(r@) == spec_fields(kind),
{
    let r: Vec<FieldSpec> = match kind {
        RecordKind::TraceStart => vec![
            FieldSpec { name: String::from_str("task_handle"), ty: FieldType::Unsigned },
            FieldSpec { name: String::from_str("task"), ty: FieldType::Text },
        ],
        RecordKind::Unknown => vec![
            FieldSpec { name: String::from_str("event_type"), ty: FieldType::Text },
        ],
        RecordKind::User => vec![
            FieldSpec { name: String::from_str("channel"), ty: FieldType::Text },
            FieldSpec { name: String::from_str("format_string"), ty: FieldType::Text },
            FieldSpec { name: String::from_str("formatted_string"), ty: FieldType::Text },
        ],
        RecordKind::SchedSwitch => vec![
            FieldSpec { name: String::from_str("src_event_type"), ty: FieldType::Text },
            FieldSpec { name: String::from_str("prev_comm"), ty: FieldType::Text },
            FieldSpec { name: String::from_str("prev_tid"), ty: FieldType::Signed },
            FieldSpec { name: String::from_str("prev_prio"), ty: FieldType::Signed },
            FieldSpec { name: String::from_str("prev_state"), ty: FieldType::StateEnum },
            FieldSpec { name: String::from_str("next_comm"), ty: FieldType::Text },
            FieldSpec { name: String::from_str("next_tid"), ty: FieldType::Signed },
            FieldSpec { name: String::from_str("next_prio"), ty: FieldType::Signed },
        ],
        RecordKind::SchedWakeup => vec![
            FieldSpec { name: String::from_str("src_event_type"), ty: FieldType::Text },
            FieldSpec { name: String::from_str("comm"), ty: FieldType::Text },
            FieldSpec { name: String::from_str("tid"), ty: FieldType::Signed },
            FieldSpec { name: String::from_str("prio"), ty: FieldType::Signed },
            FieldSpec { name: String::from_str("target_cpu"), ty: FieldType::Signed },
        ],
        RecordKind::IrqHandlerEntry => vec![
            FieldSpec { name: String::from_str("src_event_type"), ty: FieldType::Text },
            FieldSpec { name: String::from_str("irq"), ty: FieldType::Signed },
            FieldSpec { name: String::from_str("name"), ty: FieldType::Text },
            FieldSpec { name: String::from_str("prio"), ty: FieldType::Signed },
        ],
        RecordKind::IrqHandlerExit => vec![
            FieldSpec { name: String::from_str("src_event_type"), ty: FieldType::Text },
            FieldSpec { name: String::from_str("irq"), ty: FieldType::Signed },
            FieldSpec { name: String::from_str("name"), ty: FieldType::Text },
            FieldSpec { name: String::from_str("ret"), ty: FieldType::Signed },
        ],
        RecordKind::Unsupported => Vec::new(),
    };
    proof {
        assert(fields_view(r@) =~= spec_fields(kind));
    }
    r
}

/// Builds the field table of the common event context.
pub fn common_context_fields() -> (r: Vec<FieldSpec>)
    ensures
        fields_view(r@) == spec_common_context_fields(),
{
    let r: Vec<FieldSpec> = vec![
        FieldSpec { name: String::from_str("id"), ty: FieldType::UnsignedHex },
        FieldSpec { name: String::from_str("event_count"), ty: FieldType::Unsigned },
        FieldSpec { name: String::from_str("timer"), ty: FieldType::Unsigned },
    ];
    proof {
        assert(fields_view(r@) =~= spec_common_context_fields());
    }
    r
}

/// The name of a task state in the output enumeration.
pub open spec fn spec_task_state_name(s: TaskState) -> Seq<char> {
    match s {
        TaskState::Running => "TASK_RUNNING"@,
        TaskState::Interruptible => "TASK_INTERRUPTIBLE"@,
        TaskState::UnInterruptible => "TASK_UNINTERRUPTIBLE"@,
        TaskState::Stopped => "TASK_STOPPED"@,
        TaskState::Traced => "TASK_TRACED"@,
        TaskState::ExitDead => "EXIT_DEAD"@,
        TaskState::ExitZombie => "EXIT_ZOMBIE"@,
        TaskState::Parked => "TASK_PARKED"@,
        TaskState::Dead => "TASK_DEAD"@,
        TaskState::WakeKill => "TASK_WAKEKILL"@,
        TaskState::Waking => "TASK_WAKING"@,
        TaskState::NoLoad => "TASK_NOLOAD"@,
        TaskState::New => "TASK_NEW"@,
    }
}

/// The (name, value) mappings the task-state enumeration field class declares.
pub open spec fn spec_task_state_mappings() -> Seq<(Seq<char>, i64)> {
    seq![
        ("TASK_RUNNING"@, 0i64),
        ("TASK_INTERRUPTIBLE"@, 1i64),
        ("TASK_UNINTERRUPTIBLE"@, 2i64),
        ("TASK_STOPPED"@, 4i64),
        ("TASK_TRACED"@, 8i64),
        ("EXIT_DEAD"@, 16i64),
        ("EXIT_ZOMBIE"@, 32i64),
        ("TASK_PARKED"@, 64i64),
        ("TASK_DEAD"@, 128i64),
        ("TASK_WAKEKILL"@, 256i64),
        ("TASK_WAKING"@, 512i64),
        ("TASK_NOLOAD"@, 1024i64),
        ("TASK_NEW"@, 2048i64),
    ]
}

/// Builds the (name, value) mapping list for the task-state enumeration.
pub fn task_state_mappings() -> (r: Vec<(String, i64)>)
    ensures
        r@.map_values(|p: (String, i64)| (p.0@, p.1)) == spec_task_state_mappings(),
{
    let r: Vec<(String, i64)> = vec![
        (String::from_str("TASK_RUNNING"), 0i64),
        (String::from_str("TASK_INTERRUPTIBLE"), 1i64),
        (String::from_str("TASK_UNINTERRUPTIBLE"), 2i64),
        (String::from_str("TASK_STOPPED"), 4i64),
        (String::from_str("TASK_TRACED"), 8i64),
        (String::from_str("EXIT_DEAD"), 16i64),
        (String::from_str("EXIT_ZOMBIE"), 32i64),
        (String::from_str("TASK_PARKED"), 64i64),
        (String::from_str("TASK_DEAD"), 128i64),
        (String::from_str("TASK_WAKEKILL"), 256i64),
        (String::from_str("TASK_WAKING"), 512i64),
        (String::from_str("TASK_NOLOAD"), 1024i64),
        (String::from_str("TASK_NEW"), 2048i64),
    ];
    proof {
        assert(r@.map_values(|p: (String, i64)| (p.0@, p.1)) =~= spec_task_state_mappings());
    }
    r
}

/// Every task state is declared by the enumeration mappings, under its name
/// and with its numeric value.
pub proof fn lemma_task_state_declared(s: TaskState)
    ensures
        spec_task_state_mappings().contains((spec_task_state_name(s), spec_task_state_value(s))),
{
    let m = spec_task_state_mappings();
    match s {
        TaskState::Running => assert(m[0] == (spec_task_state_name(s), spec_task_state_value(s))),
        TaskState::Interruptible => assert(m[1] == (
            spec_task_state_name(s),
            spec_task_state_value(s),
        )),
        TaskState::UnInterruptible => assert(m[2] == (
            spec_task_state_name(s),
            spec_task_state_value(s),
        )),
        TaskState::Stopped => assert(m[3] == (spec_task_state_name(s), spec_task_state_value(s))),
        TaskState::Traced => assert(m[4] == (spec_task_state_name(s), spec_task_state_value(s))),
        TaskState::ExitDead => assert(m[5] == (spec_task_state_name(s), spec_task_state_value(s))),
        TaskState::ExitZombie => assert(m[6] == (
            spec_task_state_name(s),
            spec_task_state_value(s),
        )),
        TaskState::Parked => assert(m[7] == (spec_task_state_name(s), spec_task_state_value(s))),
        TaskState::Dead => assert(m[8] == (spec_task_state_name(s), spec_task_state_value(s))),
        TaskState::WakeKill => assert(m[9] == (spec_task_state_name(s), spec_task_state_value(s))),
        TaskState::Waking => assert(m[10] == (spec_task_state_name(s), spec_task_state_value(s))),
        TaskState::NoLoad => assert(m[11] == (spec_task_state_name(s), spec_task_state_value(s))),
        TaskState::New => assert(m[12] == (spec_task_state_name(s), spec_task_state_value(s))),
    }
}

/// The output kind a payload belongs to.
pub open spec fn kind_of(p: RecordPayload) -> RecordKind {
    match p {
        RecordPayload::TraceStart(_) => RecordKind::TraceStart,
        RecordPayload::Unknown(_) => RecordKind::Unknown,
        RecordPayload::User(_) => RecordKind::User,
        RecordPayload::SchedSwitch(_) => RecordKind::SchedSwitch,
        RecordPayload::SchedWakeup(_) => RecordKind::SchedWakeup,
        RecordPayload::IrqHandlerEntry(_) => RecordKind::IrqHandlerEntry,
        RecordPayload::IrqHandlerExit(_) => RecordKind::IrqHandlerExit,
        RecordPayload::Unsupported(_) => RecordKind::Unsupported,
    }
}

/// The payload's field values, in the field table's order.
pub open spec fn spec_payload_values(p: RecordPayload) -> Seq<FieldValue> {
    match p {
        RecordPayload::TraceStart(v) => seq![
            FieldValue::Unsigned(v.task_handle),
            FieldValue::Text(v.task),
        ],
        RecordPayload::Unknown(v) => seq![FieldValue::Text(v.event_type)],
        RecordPayload::User(v) => seq![
            FieldValue::Text(v.channel),
            FieldValue::Text(v.format_string),
            FieldValue::Text(v.formatted_string),
        ],
        RecordPayload::SchedSwitch(v) => seq![
            FieldValue::Text(v.src_event_type),
            FieldValue::Text(v.prev_comm),
            FieldValue::Signed(v.prev_tid),
            FieldValue::Signed(v.prev_prio),
            FieldValue::State(v.prev_state),
            FieldValue::Text(v.next_comm),
            FieldValue::Signed(v.next_tid),
            FieldValue::Signed(v.next_prio),
        ],
        RecordPayload::SchedWakeup(v) => seq![
            FieldValue::Text(v.src_event_type),
            FieldValue::Text(v.comm),
            FieldValue::Signed(v.tid),
            FieldValue::Signed(v.prio),
            FieldValue::Signed(v.target_cpu),
        ],
        RecordPayload::IrqHandlerEntry(v) => seq![
            FieldValue::Text(v.src_event_type),
            FieldValue::Signed(v.irq),
            FieldValue::Text(v.name),
            FieldValue::Signed(v.prio),
        ],
        RecordPayload::IrqHandlerExit(v) => seq![
            FieldValue::Text(v.src_event_type),
            FieldValue::Signed(v.irq),
            FieldValue::Text(v.name),
            FieldValue::Signed(v.ret),
        ],
        RecordPayload::Unsupported(_) => seq![],
    }
}

/// Extracts a payload's field values, in the field table's order.
pub fn payload_values(p: &RecordPayload) -> (r: Vec<FieldValue>)
    ensures
        r@ == spec_payload_values(*p),
{
    let r: Vec<FieldValue> = match p {
        RecordPayload::TraceStart(v) => vec![
            FieldValue::Unsigned(v.task_handle),
            FieldValue::Text(v.task),
        ],
        RecordPayload::Unknown(v) => vec![FieldValue::Text(v.event_type)],
        RecordPayload::User(v) => vec![
            FieldValue::Text(v.channel),
            FieldValue::Text(v.format_string),
            FieldValue::Text(v.formatted_string),
        ],
        RecordPayload::SchedSwitch(v) => vec![
            FieldValue::Text(v.src_event_type),
            FieldValue::Text(v.prev_comm),
            FieldValue::Signed(v.prev_tid),
            FieldValue::Signed(v.prev_prio),
            FieldValue::State(v.prev_state),
            FieldValue::Text(v.next_comm),
            FieldValue::Signed(v.next_tid),
            FieldValue::Signed(v.next_prio),
        ],
        RecordPayload::SchedWakeup(v) => vec![
            FieldValue::Text(v.src_event_type),
            FieldValue::Text(v.comm),
            FieldValue::Signed(v.tid),
            FieldValue::Signed(v.prio),
            FieldValue::Signed(v.target_cpu),
        ],
        RecordPayload::IrqHandlerEntry(v) => vec![
            FieldValue::Text(v.src_event_type),
            FieldValue::Signed(v.irq),
            FieldValue::Text(v.name),
            FieldValue::Signed(v.prio),
        ],
        RecordPayload::IrqHandlerExit(v) => vec![
            FieldValue::Text(v.src_event_type),
            FieldValue::Signed(v.irq),
            FieldValue::Text(v.name),
            FieldValue::Signed(v.ret),
        ],
        RecordPayload::Unsupported(_) => Vec::new(),
    };
    proof {
        assert(r@ =~= spec_payload_values(*p));
    }
    r
}

/// Whether a field value is of a field type.
pub open spec fn value_matches(v: FieldValue, t: FieldType) -> bool {
    match v {
        FieldValue::Unsigned(_) => t == FieldType::Unsigned || t == FieldType::UnsignedHex,
        FieldValue::Signed(_) => t == FieldType::Signed,
        FieldValue::Text(_) => t == FieldType::Text,
        FieldValue::State(_) => t == FieldType::StateEnum,
    }
}

/// Every payload lines up with its kind's field table: the same number of
/// values, each of the type the table declares at its position.
pub proof fn lemma_payload_matches_schema(p: RecordPayload)
    ensures
        spec_payload_values(p).len() == spec_fields(kind_of(p)).len(),
        forall|i: int|
            0 <= i < spec_payload_values(p).len() ==> value_matches(
                #[trigger] spec_payload_values(p)[i],
                spec_fields(kind_of(p))[i].1,
            ),
{
    let vs = spec_payload_values(p);
    let fs = spec_fields(kind_of(p));
    assert forall|i: int| 0 <= i < vs.len() implies value_matches(#[trigger] vs[i], fs[i].1) by {
        match p {
            RecordPayload::TraceStart(_) => {
                assert(value_matches(vs[0], fs[0].1));
                assert(value_matches(vs[1], fs[1].1));
            },
            RecordPayload::Unknown(_) => {
                assert(value_matches(vs[0], fs[0].1));
            },
            RecordPayload::User(_) => {
                assert(value_matches(vs[0], fs[0].1));
                assert(value_matches(vs[1], fs[1].1));
                assert(value_matches(vs[2], fs[2].1));
            },
            RecordPayload::SchedSwitch(_) => {
                assert(value_matches(vs[0], fs[0].1));
                assert(value_matches(vs[1], fs[1].1));
                assert(value_matches(vs[2], fs[2].1));
                assert(value_matches(vs[3], fs[3].1));
                assert(value_matches(vs[4], fs[4].1));
                assert(value_matches(vs[5], fs[5].1));
                assert(value_matches(vs[6], fs[6].1));
                assert(value_matches(vs[7], fs[7].1));
            },
            RecordPayload::SchedWakeup(_) => {
                assert(value_matches(vs[0], fs[0].1));
                assert(value_matches(vs[1], fs[1].1));
                assert(value_matches(vs[2], fs[2].1));
                assert(value_matches(vs[3], fs[3].1));
                assert(value_matches(vs[4], fs[4].1));
            },
            RecordPayload::IrqHandlerEntry(_) => {
                assert(value_matches(vs[0], fs[0].1));
                assert(value_matches(vs[1], fs[1].1));
                assert(value_matches(vs[2], fs[2].1));
                assert(value_matches(vs[3], fs[3].1));
            },
            RecordPayload::IrqHandlerExit(_) => {
                assert(value_matches(vs[0], fs[0].1));
                assert(value_matches(vs[1], fs[1].1));
                assert(value_matches(vs[2], fs[2].1));
                assert(value_matches(vs[3], fs[3].1));
            },
            RecordPayload::Unsupported(_) => {},
        }
    }
}

} // verus!
