use ratatelm::basic::{handle_key, update, Message, Model, RunningState};
use ratatelm::keys::{KeyCode, KeyEvent};
use ratatelm::runtime::{handle_key_event, process_key, settle, App};

#[test]
fn quit_stops_the_model() {
    let mut model = Model::default();
    assert_eq!(model.running_state, RunningState::Running);
    assert_eq!(update(&mut model, Message::Quit), None);
    assert_eq!(model.running_state, RunningState::Done);
    assert!(!App::<Message>::is_running(&model));
}

#[test]
fn keys_mean_nothing_yet() {
    let mut model = Model::default();
    let q = KeyEvent::new(KeyCode::Char('q'), 0);
    assert_eq!(handle_key(q), None);
    assert_eq!(handle_key_event::<Message, Model>(&mut model, q), None);
    process_key::<Message, Model>(&mut model, q, 8);
    assert_eq!(model.running_state, RunningState::Running);
    assert_eq!(settle::<Message, Model>(&mut model, Some(Message::Quit), 8), None);
    assert_eq!(model.running_state, RunningState::Done);
}
