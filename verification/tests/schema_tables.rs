use trc2ctf::events::{RecordPayload, SchedWakeup, TaskState};
use trc2ctf::schema::{
    FieldType, FieldValue, RecordKind, common_context_fields, fields_for, payload_values,
    task_state_mappings,
};

#[test]
fn sched_switch_field_table_is_exact() {
    let fields = fields_for(RecordKind::SchedSwitch);
    let expected = vec![
        ("src_event_type", FieldType::Text),
        ("prev_comm", FieldType::Text),
        ("prev_tid", FieldType::Signed),
        ("prev_prio", FieldType::Signed),
        ("prev_state", FieldType::StateEnum),
        ("next_comm", FieldType::Text),
        ("next_tid", FieldType::Signed),
        ("next_prio", FieldType::Signed),
    ];
    assert_eq!(fields.len(), expected.len());
    for (f, (name, ty)) in fields.iter().zip(expected.iter()) {
        assert_eq!(f.name, *name);
        assert_eq!(f.ty, *ty);
    }
}

#[test]
fn sched_wakeup_field_table_is_exact() {
    let fields = fields_for(RecordKind::SchedWakeup);
    let expected = vec![
        ("src_event_type", FieldType::Text),
        ("comm", FieldType::Text),
        ("tid", FieldType::Signed),
        ("prio", FieldType::Signed),
        ("target_cpu", FieldType::Signed),
    ];
    assert_eq!(fields.len(), expected.len());
    for (f, (name, ty)) in fields.iter().zip(expected.iter()) {
        assert_eq!(f.name, *name);
        assert_eq!(f.ty, *ty);
    }
}

#[test]
fn irq_field_tables_are_exact() {
    let entry = fields_for(RecordKind::IrqHandlerEntry);
    assert_eq!(entry.len(), 4);
    assert_eq!(entry[0].name, "src_event_type");
    assert_eq!(entry[1].name, "irq");
    assert_eq!(entry[2].name, "name");
    assert_eq!(entry[3].name, "prio");
    let exit = fields_for(RecordKind::IrqHandlerExit);
    assert_eq!(exit.len(), 4);
    assert_eq!(exit[0].name, "src_event_type");
    assert_eq!(exit[1].name, "irq");
    assert_eq!(exit[2].name, "name");
    assert_eq!(exit[3].name, "ret");
    assert_eq!(exit[3].ty, FieldType::Signed);
}

#[test]
fn remaining_field_tables_are_exact() {
    let ts = fields_for(RecordKind::TraceStart);
    assert_eq!(ts.len(), 2);
    assert_eq!(ts[0].name, "task_handle");
    assert_eq!(ts[0].ty, FieldType::Unsigned);
    assert_eq!(ts[1].name, "task");
    assert_eq!(ts[1].ty, FieldType::Text);
    let unk = fields_for(RecordKind::Unknown);
    assert_eq!(unk.len(), 1);
    assert_eq!(unk[0].name, "event_type");
    assert_eq!(unk[0].ty, FieldType::Text);
    let user = fields_for(RecordKind::User);
    assert_eq!(user.len(), 3);
    assert_eq!(user[0].name, "channel");
    assert_eq!(user[1].name, "format_string");
    assert_eq!(user[2].name, "formatted_string");
    assert!(fields_for(RecordKind::Unsupported).is_empty());
}

#[test]
fn common_context_table_is_exact() {
    let cc = common_context_fields();
    assert_eq!(cc.len(), 3);
    assert_eq!(cc[0].name, "id");
    assert_eq!(cc[0].ty, FieldType::UnsignedHex);
    assert_eq!(cc[1].name, "event_count");
    assert_eq!(cc[1].ty, FieldType::Unsigned);
    assert_eq!(cc[2].name, "timer");
    assert_eq!(cc[2].ty, FieldType::Unsigned);
}

#[test]
fn task_state_mappings_match_the_enumeration() {
    let m = task_state_mappings();
    assert_eq!(m.len(), 13);
    assert_eq!(m[0], ("TASK_RUNNING".to_string(), 0));
    assert_eq!(m[1], ("TASK_INTERRUPTIBLE".to_string(), 1));
    assert_eq!(m[3], ("TASK_STOPPED".to_string(), 4));
    assert_eq!(m[12], ("TASK_NEW".to_string(), 2048));
    assert_eq!(TaskState::Running.as_i64(), 0);
    assert_eq!(TaskState::Dead.as_i64(), 128);
    assert_eq!(TaskState::New.as_i64(), 2048);
}

#[test]
fn payload_values_follow_the_field_table_order() {
    let p = RecordPayload::SchedWakeup(SchedWakeup {
        src_event_type: 4,
        comm: 9,
        tid: 2,
        prio: 1,
        target_cpu: 0,
    });
    let vals = payload_values(&p);
    assert_eq!(vals.len(), 5);
    assert_eq!(vals[0], FieldValue::Text(4));
    assert_eq!(vals[1], FieldValue::Text(9));
    assert_eq!(vals[2], FieldValue::Signed(2));
    assert_eq!(vals[3], FieldValue::Signed(1));
    assert_eq!(vals[4], FieldValue::Signed(0));
}
