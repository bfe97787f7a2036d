use ratatelm::keys::{KeyCode, KeyEvent, KeyEventKind, CONTROL};
use ratatelm::log::{delog, dump_logs, event_record, from_records, log, record_event, to_records, EventLog, LogError};

#[test]
fn records_hold_code_payload_modifiers_kind() {
    assert_eq!(event_record(KeyEvent::new(KeyCode::Up, 0)), vec![4, 0, 0, 0]);
    assert_eq!(event_record(KeyEvent::new(KeyCode::Char('q'), CONTROL)), vec![15, 113, 2, 0]);
    assert_eq!(
        event_record(KeyEvent::new_with_kind(KeyCode::F(5), 1, KeyEventKind::Release)),
        vec![14, 5, 1, 2]
    );
}

#[test]
fn dump_writes_json_array_of_records() {
    let mut events = EventLog::new();
    log(&mut events, KeyEvent::new(KeyCode::Up, 0));
    log(&mut events, KeyEvent::new(KeyCode::Char('q'), CONTROL));
    assert_eq!(dump_logs(&events), "[[4,0,0,0],[15,113,2,0]]");
    assert_eq!(dump_logs(&EventLog::new()), "[]");
}

#[test]
fn log_round_trips() {
    let all = vec![
        KeyEvent::new(KeyCode::Backspace, 0),
        KeyEvent::new(KeyCode::Enter, 0),
        KeyEvent::new(KeyCode::Char('é'), 1),
        KeyEvent::new(KeyCode::Char('\u{10FFFF}'), 0),
        KeyEvent::new_with_kind(KeyCode::F(12), 7, KeyEventKind::Repeat),
        KeyEvent::new(KeyCode::Esc, 0),
        KeyEvent::new(KeyCode::Other, 0),
        KeyEvent::new_with_kind(KeyCode::Down, 0, KeyEventKind::Release),
    ];
    let events = EventLog::from_events(all.clone());
    let text = dump_logs(&events);
    assert_eq!(delog(&text), Ok(all.clone()));
    assert_eq!(from_records(&to_records(&all)), Ok(all));
}

#[test]
fn delog_reads_text_with_whitespace() {
    assert_eq!(
        delog(" [ [5, 0, 0, 0] ]\n"),
        Ok(vec![KeyEvent::new(KeyCode::Down, 0)])
    );
}

#[test]
fn delog_rejects_other_text() {
    assert_eq!(delog("not json"), Err(LogError::Parse));
    assert_eq!(delog("{\"code\": 4}"), Err(LogError::Parse));
    assert_eq!(delog("[[1, -2, 0, 0]]"), Err(LogError::Parse));
}

#[test]
fn delog_rejects_bad_records() {
    assert_eq!(delog("[[4,0,0,0],[99,0,0,0]]"), Err(LogError::BadRecord(1)));
    assert_eq!(delog("[[4,0,0]]"), Err(LogError::BadRecord(0)));
    assert_eq!(delog("[[15,55296,0,0]]"), Err(LogError::BadRecord(0)));
    assert_eq!(delog("[[14,256,0,0]]"), Err(LogError::BadRecord(0)));
    assert_eq!(delog("[[4,1,0,0]]"), Err(LogError::BadRecord(0)));
    assert_eq!(delog("[[4,0,256,0]]"), Err(LogError::BadRecord(0)));
    assert_eq!(delog("[[4,0,0,3]]"), Err(LogError::BadRecord(0)));
}

#[test]
fn record_reads_back_characters() {
    assert_eq!(record_event(&vec![15, 97, 0, 0]), Some(KeyEvent::new(KeyCode::Char('a'), 0)));
    assert_eq!(record_event(&vec![15, 0x1_0000_0000, 0, 0]), None);
    assert_eq!(record_event(&vec![15, 0x110000, 0, 0]), None);
}
