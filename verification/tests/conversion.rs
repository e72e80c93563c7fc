use trc2ctf::convert::TrcCtfConverter;
use trc2ctf::events::{
    Context, Event, IsrEvent, RecordPayload, TaskEvent, TaskState, TraceStartEvent, UserEvent,
    UserEventChannel,
};
use trc2ctf::types::{BorrowedCtfState, Error, Message};

fn primed_converter() -> TrcCtfConverter {
    let mut c = TrcCtfConverter::new();
    c.create_event_classes();
    c
}

fn task(handle: u32, name: &str, priority: u32) -> TaskEvent {
    TaskEvent { handle, name: name.to_string(), priority }
}

fn isr(handle: u32, name: &str, priority: u32) -> IsrEvent {
    IsrEvent { handle, name: name.to_string(), priority }
}

#[test]
fn contexts_are_built_from_task_and_isr_events() {
    let from_task = Context::from(task(3, "T", 9));
    assert_eq!(from_task, Context { handle: 3, name: "T".to_string(), priority: 9 });
    let from_isr = Context::from(isr(4, "I", 2));
    assert_eq!(from_isr, Context { handle: 4, name: "I".to_string(), priority: 2 });
}

#[test]
fn end_to_end_trace_start_isr_begin_isr_resume() {
    let mut c = primed_converter();
    let mut batch = BorrowedCtfState::new(16);

    c.convert(
        0x01,
        0x01,
        "TRACE_START",
        1,
        100,
        Event::TraceStart(TraceStartEvent { current_task_handle: 1, current_task: "A".to_string() }),
        &mut batch,
    )
    .unwrap();
    c.convert(
        0x33,
        0x33,
        "TASK_SWITCH_ISR_BEGIN",
        2,
        110,
        Event::IsrBegin(isr(5, "isr1", 3)),
        &mut batch,
    )
    .unwrap();
    c.convert(
        0x34,
        0x34,
        "TASK_SWITCH_ISR_RESUME",
        3,
        120,
        Event::IsrResume(isr(5, "isr1", 3)),
        &mut batch,
    )
    .unwrap();

    assert!(c.pending_isrs.is_empty());
    let (_, msgs) = batch.release();
    assert_eq!(msgs.len(), 3);

    match &msgs[0] {
        Message::Event(rec) => {
            assert_eq!(c.class_specs[rec.class].name, "TRACE_START");
            match rec.payload {
                RecordPayload::TraceStart(p) => {
                    assert_eq!(p.task_handle, 1);
                    assert_eq!(c.string_cache.get_str(p.task), "A");
                },
                _ => panic!("expected a TRACE_START payload"),
            }
        },
        _ => panic!("expected an event record"),
    }
    match &msgs[1] {
        Message::Event(rec) => {
            assert_eq!(c.class_specs[rec.class].name, "irq_handler_entry");
            match rec.payload {
                RecordPayload::IrqHandlerEntry(p) => {
                    assert_eq!(p.irq, 5);
                    assert_eq!(c.string_cache.get_str(p.name), "isr1");
                    assert_eq!(p.prio, 3);
                },
                _ => panic!("expected an irq_handler_entry payload"),
            }
        },
        _ => panic!("expected an event record"),
    }
    match &msgs[2] {
        Message::Event(rec) => {
            assert_eq!(c.class_specs[rec.class].name, "irq_handler_exit");
            match rec.payload {
                RecordPayload::IrqHandlerExit(p) => {
                    assert_eq!(p.irq, 5);
                    assert_eq!(c.string_cache.get_str(p.name), "isr1");
                    assert_eq!(p.ret, 1);
                },
                _ => panic!("expected an irq_handler_exit payload"),
            }
        },
        _ => panic!("expected an event record"),
    }
}

#[test]
fn task_ready_yields_one_sched_wakeup() {
    let mut c = primed_converter();
    let mut batch = BorrowedCtfState::new(8);
    c.convert(0x30, 0x30, "TASK_READY", 1, 50, Event::TaskReady(task(2, "B", 1)), &mut batch)
        .unwrap();
    let (_, msgs) = batch.release();
    assert_eq!(msgs.len(), 1);
    match &msgs[0] {
        Message::Event(rec) => {
            assert_eq!(c.class_specs[rec.class].name, "sched_wakeup");
            match rec.payload {
                RecordPayload::SchedWakeup(p) => {
                    assert_eq!(p.tid, 2);
                    assert_eq!(p.prio, 1);
                    assert_eq!(p.target_cpu, 0);
                    assert_eq!(c.string_cache.get_str(p.comm), "B");
                    assert_eq!(c.string_cache.get_str(p.src_event_type), "TASK_READY");
                },
                _ => panic!("expected a sched_wakeup payload"),
            }
        },
        _ => panic!("expected an event record"),
    }
}

#[test]
fn active_context_follows_task_resume() {
    let mut c = primed_converter();
    let mut batch = BorrowedCtfState::new(8);
    assert_eq!(c.active_context.name, "(startup)");
    assert_eq!(c.active_context.handle, 2);
    c.convert(
        0x36,
        0x36,
        "TASK_SWITCH_TASK_RESUME",
        1,
        10,
        Event::TaskResume(task(7, "C", 4)),
        &mut batch,
    )
    .unwrap();
    assert_eq!(c.active_context.handle, 7);
    assert_eq!(c.active_context.name, "C");
    assert_eq!(c.active_context.priority, 4);
}

#[test]
fn isr_begin_pushes_stack_and_keeps_active_context() {
    let mut c = primed_converter();
    let mut batch = BorrowedCtfState::new(8);
    let before = c.active_context.clone();
    c.convert(
        0x33,
        0x33,
        "TASK_SWITCH_ISR_BEGIN",
        1,
        10,
        Event::IsrBegin(isr(9, "D", 6)),
        &mut batch,
    )
    .unwrap();
    assert_eq!(c.active_context, before);
    assert_eq!(c.pending_isrs.len(), 1);
    assert_eq!(c.pending_isrs[0].handle, 9);
    assert_eq!(c.pending_isrs[0].name, "D");
    assert_eq!(c.pending_isrs[0].priority, 6);
}

#[test]
fn resume_with_pending_isr_emits_exit_then_switch() {
    let mut c = primed_converter();
    let mut batch = BorrowedCtfState::new(8);
    c.convert(
        0x33,
        0x33,
        "TASK_SWITCH_ISR_BEGIN",
        1,
        10,
        Event::IsrBegin(isr(5, "isr1", 3)),
        &mut batch,
    )
    .unwrap();
    let before = batch.message_count();
    c.convert(
        0x36,
        0x36,
        "TASK_SWITCH_TASK_RESUME",
        2,
        20,
        Event::TaskResume(task(7, "C", 4)),
        &mut batch,
    )
    .unwrap();
    let (_, msgs) = batch.release();
    // the one resume event emitted two records
    assert_eq!(msgs.len(), before + 2);
    assert!(c.pending_isrs.is_empty());
    match &msgs[before] {
        Message::Event(rec) => {
            assert!(matches!(rec.payload, RecordPayload::IrqHandlerExit(_)));
        },
        _ => panic!("expected an event record"),
    }
    match &msgs[before + 1] {
        Message::Event(rec) => match rec.payload {
            RecordPayload::SchedSwitch(p) => {
                assert_eq!(c.string_cache.get_str(p.prev_comm), "(startup)");
                assert_eq!(p.prev_tid, 2);
                assert_eq!(p.prev_state, TaskState::Running);
                assert_eq!(c.string_cache.get_str(p.next_comm), "C");
                assert_eq!(p.next_tid, 7);
                assert_eq!(p.next_prio, 4);
            },
            _ => panic!("expected a sched_switch payload"),
        },
        _ => panic!("expected an event record"),
    }
}

#[test]
fn isr_resume_with_empty_stack_emits_nothing() {
    let mut c = primed_converter();
    let mut batch = BorrowedCtfState::new(8);
    let r = c.convert(
        0x34,
        0x34,
        "TASK_SWITCH_ISR_RESUME",
        1,
        10,
        Event::IsrResume(isr(5, "isr1", 3)),
        &mut batch,
    );
    assert!(r.is_ok());
    let (_, msgs) = batch.release();
    assert!(msgs.is_empty());
    assert!(c.pending_isrs.is_empty());
}

#[test]
fn every_other_kind_emits_exactly_one_record() {
    let mut c = primed_converter();
    let mut batch = BorrowedCtfState::new(32);
    let events = vec![
        (0x01u16, "TRACE_START", Event::TraceStart(TraceStartEvent {
            current_task_handle: 1,
            current_task: "A".to_string(),
        })),
        (0x0FFu16, "UNKNOWN(FF)", Event::Unknown),
        (0x90u16, "USER_EVENT", Event::User(UserEvent {
            channel: UserEventChannel::Default,
            format_string: "%d".to_string(),
            formatted_string: "42".to_string(),
        })),
        (0x30u16, "TASK_READY", Event::TaskReady(task(2, "B", 1))),
        (0x33u16, "TASK_SWITCH_ISR_BEGIN", Event::IsrBegin(isr(5, "isr1", 3))),
        (0x7Au16, "TASK_DELAY", Event::Other),
    ];
    let mut expected = 0;
    for (id, name, ev) in events {
        c.convert(id, id, name, 1, 10, ev, &mut batch).unwrap();
        expected += 1;
        assert_eq!(batch.message_count(), expected);
    }
}

#[test]
fn user_event_payload_resolves_texts() {
    let mut c = primed_converter();
    let mut batch = BorrowedCtfState::new(4);
    c.convert(
        0x91,
        0x90,
        "USER_EVENT",
        1,
        10,
        Event::User(UserEvent {
            channel: UserEventChannel::Custom("app".to_string()),
            format_string: "%u".to_string(),
            formatted_string: "7".to_string(),
        }),
        &mut batch,
    )
    .unwrap();
    let (_, msgs) = batch.release();
    match &msgs[0] {
        Message::Event(rec) => match rec.payload {
            RecordPayload::User(p) => {
                assert_eq!(c.string_cache.get_str(p.channel), "app");
                assert_eq!(c.string_cache.get_str(p.format_string), "%u");
                assert_eq!(c.string_cache.get_str(p.formatted_string), "7");
            },
            _ => panic!("expected a USER_EVENT payload"),
        },
        _ => panic!("expected an event record"),
    }
}

#[test]
fn default_channel_resolves_to_default_name() {
    let mut c = primed_converter();
    let mut batch = BorrowedCtfState::new(4);
    c.convert(
        0x90,
        0x90,
        "USER_EVENT",
        1,
        10,
        Event::User(UserEvent {
            channel: UserEventChannel::Default,
            format_string: "f".to_string(),
            formatted_string: "x".to_string(),
        }),
        &mut batch,
    )
    .unwrap();
    let (_, msgs) = batch.release();
    match &msgs[0] {
        Message::Event(rec) => match rec.payload {
            RecordPayload::User(p) => {
                assert_eq!(c.string_cache.get_str(p.channel), "default");
            },
            _ => panic!("expected a USER_EVENT payload"),
        },
        _ => panic!("expected an event record"),
    }
}

#[test]
fn unknown_event_carries_kind_name() {
    let mut c = primed_converter();
    let mut batch = BorrowedCtfState::new(4);
    c.convert(0xFF, 0xFF, "UNKNOWN(FF)", 1, 10, Event::Unknown, &mut batch).unwrap();
    let (_, msgs) = batch.release();
    match &msgs[0] {
        Message::Event(rec) => {
            assert_eq!(c.class_specs[rec.class].name, "UNKNOWN");
            match rec.payload {
                RecordPayload::Unknown(p) => {
                    assert_eq!(c.string_cache.get_str(p.event_type), "UNKNOWN(FF)");
                },
                _ => panic!("expected an UNKNOWN payload"),
            }
        },
        _ => panic!("expected an event record"),
    }
}

#[test]
fn generic_kind_registers_schema_exactly_once() {
    let mut c = primed_converter();
    let mut batch = BorrowedCtfState::new(8);
    let before = c.class_specs.len();
    c.convert(0x7A, 0x7A, "TASK_DELAY", 1, 10, Event::Other, &mut batch).unwrap();
    assert_eq!(c.class_specs.len(), before + 1);
    c.convert(0x7A, 0x7A, "TASK_DELAY", 2, 20, Event::Other, &mut batch).unwrap();
    // the second event of the same kind performed no registration
    assert_eq!(c.class_specs.len(), before + 1);
    let (_, msgs) = batch.release();
    let class_of = |m: &Message| match m {
        Message::Event(rec) => rec.class,
        _ => panic!("expected an event record"),
    };
    assert_eq!(class_of(&msgs[0]), class_of(&msgs[1]));
    assert_eq!(c.class_specs[class_of(&msgs[0])].name, "TASK_DELAY");
}

#[test]
fn full_batch_is_an_error_and_leaves_state_unchanged() {
    let mut c = primed_converter();
    let mut batch = BorrowedCtfState::new(1);
    c.convert(0x30, 0x30, "TASK_READY", 1, 10, Event::TaskReady(task(2, "B", 1)), &mut batch)
        .unwrap();
    let active_before = c.active_context.clone();
    let r = c.convert(
        0x36,
        0x36,
        "TASK_SWITCH_TASK_RESUME",
        2,
        20,
        Event::TaskResume(task(7, "C", 4)),
        &mut batch,
    );
    assert_eq!(r, Err(Error::MessageVecFull));
    assert_eq!(c.active_context, active_before);
    let (_, msgs) = batch.release();
    assert_eq!(msgs.len(), 1);
}

#[test]
fn nul_in_task_name_is_fatal_for_the_call() {
    let mut c = primed_converter();
    let mut batch = BorrowedCtfState::new(8);
    let r = c.convert(
        0x30,
        0x30,
        "TASK_READY",
        1,
        10,
        Event::TaskReady(task(2, "B\0", 1)),
        &mut batch,
    );
    assert_eq!(r, Err(Error::TextConversion));
    assert_eq!(batch.message_count(), 0);
}

#[test]
fn nested_isr_resume_pops_the_innermost_entry() {
    let mut c = primed_converter();
    let mut batch = BorrowedCtfState::new(8);
    c.convert(
        0x33,
        0x33,
        "TASK_SWITCH_ISR_BEGIN",
        1,
        10,
        Event::IsrBegin(isr(5, "outer", 3)),
        &mut batch,
    )
    .unwrap();
    c.convert(
        0x33,
        0x33,
        "TASK_SWITCH_ISR_BEGIN",
        2,
        20,
        Event::IsrBegin(isr(6, "inner", 4)),
        &mut batch,
    )
    .unwrap();
    assert_eq!(c.pending_isrs.len(), 2);
    c.convert(
        0x34,
        0x34,
        "TASK_SWITCH_ISR_RESUME",
        3,
        30,
        Event::IsrResume(isr(5, "outer", 3)),
        &mut batch,
    )
    .unwrap();
    // the stack's own top is trusted: the inner entry exits
    assert_eq!(c.pending_isrs.len(), 1);
    assert_eq!(c.pending_isrs[0].name, "outer");
    let (_, msgs) = batch.release();
    match &msgs[2] {
        Message::Event(rec) => match rec.payload {
            RecordPayload::IrqHandlerExit(p) => {
                assert_eq!(c.string_cache.get_str(p.name), "inner");
                assert_eq!(p.irq, 6);
            },
            _ => panic!("expected an irq_handler_exit payload"),
        },
        _ => panic!("expected an event record"),
    }
}

#[test]
fn task_activate_behaves_like_task_resume() {
    let mut c = primed_converter();
    let mut batch = BorrowedCtfState::new(8);
    c.convert(
        0x37,
        0x37,
        "TASK_ACTIVATE",
        1,
        10,
        Event::TaskActivate(task(8, "E", 2)),
        &mut batch,
    )
    .unwrap();
    assert_eq!(c.active_context.handle, 8);
    assert_eq!(c.active_context.name, "E");
    let (_, msgs) = batch.release();
    assert_eq!(msgs.len(), 1);
    match &msgs[0] {
        Message::Event(rec) => {
            assert!(matches!(rec.payload, RecordPayload::SchedSwitch(_)));
        },
        _ => panic!("expected an event record"),
    }
}

#[test]
fn trace_start_leaves_active_context_unchanged() {
    let mut c = primed_converter();
    let mut batch = BorrowedCtfState::new(8);
    let before = c.active_context.clone();
    c.convert(
        0x01,
        0x01,
        "TRACE_START",
        1,
        10,
        Event::TraceStart(TraceStartEvent { current_task_handle: 1, current_task: "A".to_string() }),
        &mut batch,
    )
    .unwrap();
    assert_eq!(c.active_context, before);
    assert!(c.pending_isrs.is_empty());
}

#[test]
fn common_context_carries_id_count_and_timer() {
    let mut c = primed_converter();
    let mut batch = BorrowedCtfState::new(4);
    c.convert(0x30, 0x30, "TASK_READY", 41, 777, Event::TaskReady(task(2, "B", 1)), &mut batch)
        .unwrap();
    let (_, msgs) = batch.release();
    match &msgs[0] {
        Message::Event(rec) => {
            assert_eq!(rec.common.id, 0x30);
            assert_eq!(rec.common.event_count, 41);
            assert_eq!(rec.common.timer, 777);
            assert_eq!(rec.timestamp, 777);
        },
        _ => panic!("expected an event record"),
    }
}
