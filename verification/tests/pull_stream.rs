use ai_toolkit::pull::{chunk_to_events, split_lines, AiModelPullProgress, PullSession};

fn percentage(e: &AiModelPullProgress) -> f64 {
    let (num, den) = e.percentage_ratio();
    num as f64 / den as f64
}

#[test]
fn progress_stream_yields_events_in_order_then_one_completion() {
    let chunk = b"{\"status\":\"downloading\",\"completed\":50,\"total\":100}\n{\"status\":\"success\"}\n";
    let mut session = PullSession::new("llama3.2:1b".to_string());
    let events = session.on_chunk(chunk);
    assert_eq!(events.len(), 2);
    assert_eq!(events[0].model_id, "llama3.2:1b");
    assert_eq!(events[0].status, "downloading");
    assert_eq!(events[0].completed, Some(50));
    assert_eq!(events[0].total, Some(100));
    assert_eq!(percentage(&events[0]), 50.0);
    assert_eq!(events[1].status, "success");
    assert_eq!(events[1].completed, None);
    assert_eq!(events[1].total, None);
    assert_eq!(percentage(&events[1]), 0.0);
    assert!(!session.is_finished());
    let payload = session.complete();
    assert_eq!(payload, "llama3.2:1b");
    assert!(session.is_finished());
}

#[test]
fn unparsable_lines_are_skipped_without_aborting() {
    let chunk = b"garbage line\n{\"status\":\"verifying\"}\n{\"nostatus\":1}\n{\"status\":\"done\"}";
    let events = chunk_to_events("m", chunk);
    assert_eq!(events.len(), 2);
    assert_eq!(events[0].status, "verifying");
    assert_eq!(events[1].status, "done");
}

#[test]
fn counts_with_wrong_types_are_dropped_per_field() {
    let chunk = b"{\"status\":\"downloading\",\"completed\":\"half\",\"total\":100}\n";
    let events = chunk_to_events("m", chunk);
    assert_eq!(events.len(), 1);
    assert_eq!(events[0].completed, None);
    assert_eq!(events[0].total, Some(100));
}

#[test]
fn zero_total_reports_zero_percent() {
    let chunk = b"{\"status\":\"downloading\",\"completed\":7,\"total\":0}\n";
    let events = chunk_to_events("m", chunk);
    assert_eq!(events.len(), 1);
    assert_eq!(percentage(&events[0]), 0.0);
}

#[test]
fn overreporting_servers_pass_through_above_one_hundred() {
    let chunk = b"{\"status\":\"downloading\",\"completed\":150,\"total\":100}\n";
    let events = chunk_to_events("m", chunk);
    assert_eq!(percentage(&events[0]), 150.0);
}

#[test]
fn lines_split_at_line_feeds_and_drop_carriage_returns() {
    let lines = split_lines(b"a\r\nb\nc");
    assert_eq!(lines, vec![b"a".to_vec(), b"b".to_vec(), b"c".to_vec()]);
    let lines = split_lines(b"one\n");
    assert_eq!(lines, vec![b"one".to_vec()]);
    let lines = split_lines(b"");
    assert!(lines.is_empty());
}

#[test]
fn a_partial_chunk_line_parses_as_nothing() {
    let events = chunk_to_events("m", b"{\"status\":\"downl");
    assert!(events.is_empty());
}
