use codex_remote::broker::PendingTable;
use codex_remote::streams::{cancelled_exit, stream_exit, StreamRegistry};
use codex_remote::signals::SshStreamExit;

#[test]
fn interleaved_replies_reach_their_callers() {
    let mut table: PendingTable<&str> = PendingTable::new();
    for (id, who) in [(1u64, "a"), (2, "b"), (3, "c")] {
        assert!(table.register(id, who));
    }
    assert!(!table.register(2, "dup"));
    assert_eq!(table.take(3), Some("c"));
    assert_eq!(table.take(1), Some("a"));
    assert_eq!(table.take(2), Some("b"));
    assert_eq!(table.len(), 0);
}

#[test]
fn late_reply_after_timeout_is_dropped() {
    let mut table: PendingTable<u32> = PendingTable::new();
    table.register(9, 90);
    // the caller gives up and removes its own entry
    assert_eq!(table.take(9), Some(90));
    // the reply then finds nobody waiting
    assert_eq!(table.take(9), None);
    assert!(!table.is_pending(9));
}

#[test]
fn stream_ids_start_at_one() {
    let mut reg: StreamRegistry<()> = StreamRegistry::new();
    assert_eq!(reg.mint_id(), 1);
    assert_eq!(reg.mint_id(), 2);
}

#[test]
fn second_cancel_emits_nothing() {
    let mut reg: StreamRegistry<&str> = StreamRegistry::new();
    let id = reg.mint_id();
    assert!(reg.register(id, "task"));
    let (task, exit) = reg.cancel(id).expect("running stream");
    assert_eq!(task, "task");
    assert_eq!(
        exit,
        SshStreamExit { stream_id: id, exit_status: -1, error: Some("cancelled".to_string()) }
    );
    assert!(reg.cancel(id).is_none());
    assert!(reg.finish(id, Ok(0)).is_none());
}

#[test]
fn natural_exit_emits_once() {
    let mut reg: StreamRegistry<u8> = StreamRegistry::new();
    let id = reg.mint_id();
    reg.register(id, 0);
    let exit = reg.finish(id, Ok(3)).expect("first exit");
    assert_eq!(exit, SshStreamExit { stream_id: id, exit_status: 3, error: None });
    assert!(reg.finish(id, Ok(3)).is_none());
    assert!(reg.cancel(id).is_none());
}

#[test]
fn unknown_stream_cancel_is_noop() {
    let mut reg: StreamRegistry<u8> = StreamRegistry::new();
    assert!(reg.cancel(42).is_none());
    assert!(!reg.is_running(42));
}

#[test]
fn exit_events() {
    assert_eq!(stream_exit(5, Ok(u32::MAX)).exit_status, -1);
    assert_eq!(stream_exit(5, Ok(2)).exit_status, 2);
    let e = stream_exit(5, Err("boom".to_string()));
    assert_eq!((e.exit_status, e.error), (-1, Some("boom".to_string())));
    assert_eq!(cancelled_exit(8).error, Some("cancelled".to_string()));
}
