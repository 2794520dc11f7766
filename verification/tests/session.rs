use transcribe::session::{message, transcript, Action, Event, Session, Step, BEST_OF};

/// Drives a session with the given reports and returns every action that it
/// asked for, together with the session.
fn drive(model_path: Option<&str>, events: Vec<Event>) -> (Session, Vec<Action>) {
    let (mut session, first) = Session::begin(model_path);
    let mut actions = vec![first];
    for event in events {
        let (next, action) = session.advance(event);
        session = next;
        actions.push(action);
    }
    (session, actions)
}

fn text(s: &str) -> Event {
    Event::Text(s.to_string())
}

#[test]
fn greedy_sampling_keeps_one_candidate() {
    assert_eq!(BEST_OF, 1);
}

#[test]
fn session_asks_for_every_step_in_order() {
    let (session, actions) = drive(
        Some("models/base.bin"),
        vec![Event::Done, Event::Done, Event::Done, Event::Count(3), text(" one"), text(" two"), text(" three")],
    );
    assert_eq!(
        actions,
        vec![
            Action::LoadModel("models/base.bin".to_string()),
            Action::CreateState,
            Action::RunModel { best_of: 1 },
            Action::CountSegments,
            Action::SegmentText(0),
            Action::SegmentText(1),
            Action::SegmentText(2),
            Action::Stop,
        ]
    );
    assert_eq!(
        session.finish(),
        Ok(vec![" one".to_string(), " two".to_string(), " three".to_string()])
    );
}

#[test]
fn session_with_one_segment() {
    let (session, actions) =
        drive(Some("m"), vec![Event::Done, Event::Done, Event::Done, Event::Count(1), text("only")]);
    assert_eq!(actions[4], Action::SegmentText(0));
    assert_eq!(actions[5], Action::Stop);
    assert_eq!(session.finish(), Ok(vec!["only".to_string()]));
}

#[test]
fn session_without_segments_is_finished_at_once() {
    let (session, actions) = drive(Some("m"), vec![Event::Done, Event::Done, Event::Done, Event::Count(0)]);
    assert_eq!(actions[4], Action::Stop);
    assert_eq!(session.finish(), Ok(Vec::new()));
}

#[test]
fn session_takes_a_negative_count_as_none() {
    let (session, actions) =
        drive(Some("m"), vec![Event::Done, Event::Done, Event::Done, Event::Count(-4)]);
    assert_eq!(actions[4], Action::Stop);
    assert_eq!(session.finish(), Ok(Vec::new()));
}

#[test]
fn session_without_a_model_path_fails_before_anything_is_done() {
    let (session, actions) = drive(None, vec![]);
    assert_eq!(actions, vec![Action::Stop]);
    assert_eq!(session.finish(), Err(Step::ModelPath));
}

#[test]
fn session_fails_at_the_step_that_failed() {
    let cases = vec![
        (vec![Event::Failed], Step::LoadModel),
        (vec![Event::Done, Event::Failed], Step::CreateState),
        (vec![Event::Done, Event::Done, Event::Failed], Step::RunModel),
        (vec![Event::Done, Event::Done, Event::Done, Event::Failed], Step::CountSegments),
        (
            vec![Event::Done, Event::Done, Event::Done, Event::Count(2), Event::Failed],
            Step::SegmentText,
        ),
        (
            vec![Event::Done, Event::Done, Event::Done, Event::Count(2), text("a"), Event::Failed],
            Step::SegmentText,
        ),
    ];
    for (events, step) in cases {
        let (session, actions) = drive(Some("m"), events);
        assert_eq!(actions.last(), Some(&Action::Stop));
        assert_eq!(session.finish(), Err(step));
    }
}

#[test]
fn session_fails_on_a_report_that_was_not_asked_for() {
    let (session, actions) = drive(Some("m"), vec![text("early")]);
    assert_eq!(actions[1], Action::Stop);
    assert_eq!(session.finish(), Err(Step::LoadModel));

    let (session, _) = drive(Some("m"), vec![Event::Done, Event::Count(2)]);
    assert_eq!(session.finish(), Err(Step::CreateState));

    let (session, _) = drive(Some("m"), vec![Event::Done, Event::Done, Event::Done, Event::Done]);
    assert_eq!(session.finish(), Err(Step::CountSegments));

    let (session, _) =
        drive(Some("m"), vec![Event::Done, Event::Done, Event::Done, Event::Count(2), Event::Count(2)]);
    assert_eq!(session.finish(), Err(Step::SegmentText));
}

#[test]
fn session_that_failed_stays_failed() {
    let (session, actions) =
        drive(Some("m"), vec![Event::Done, Event::Failed, Event::Done, Event::Count(1), text("x")]);
    assert_eq!(actions[2..], [Action::Stop, Action::Stop, Action::Stop, Action::Stop]);
    assert_eq!(session.finish(), Err(Step::CreateState));
}

#[test]
fn session_that_finished_stays_finished() {
    let (session, actions) = drive(
        Some("m"),
        vec![Event::Done, Event::Done, Event::Done, Event::Count(1), text("x"), text("y"), Event::Failed],
    );
    assert_eq!(actions[5..], [Action::Stop, Action::Stop, Action::Stop]);
    assert_eq!(session.finish(), Ok(vec!["x".to_string()]));
}

#[test]
fn session_left_before_its_end_names_the_step_under_way() {
    let (session, _) = drive(Some("m"), vec![]);
    assert_eq!(session.finish(), Err(Step::LoadModel));

    let (session, _) = drive(Some("m"), vec![Event::Done, Event::Done]);
    assert_eq!(session.finish(), Err(Step::RunModel));

    let (session, _) = drive(Some("m"), vec![Event::Done, Event::Done, Event::Done, Event::Count(3), text("a")]);
    assert_eq!(session.finish(), Err(Step::SegmentText));
}

#[test]
fn session_keeps_texts_as_they_come() {
    let (session, _) = drive(
        Some("m"),
        vec![Event::Done, Event::Done, Event::Done, Event::Count(3), text(""), text(" \u{e9}\n"), text("")],
    );
    assert_eq!(session.finish(), Ok(vec![String::new(), " \u{e9}\n".to_string(), String::new()]));
}

#[test]
fn transcript_puts_every_segment_on_a_line() {
    let segments = vec![" Hello there.".to_string(), " General".to_string(), "".to_string()];
    assert_eq!(transcript(&segments), " Hello there.\n General\n\n");
}

#[test]
fn transcript_of_no_segments_is_empty() {
    assert_eq!(transcript(&Vec::new()), "");
}

#[test]
fn transcript_of_one_segment_is_one_line() {
    assert_eq!(transcript(&vec!["\u{e9}t\u{e9}".to_string()]), "\u{e9}t\u{e9}\n");
}

#[test]
fn transcript_of_a_finished_session() {
    let (session, _) = drive(
        Some("m"),
        vec![Event::Done, Event::Done, Event::Done, Event::Count(2), text("a"), text("b")],
    );
    assert_eq!(transcript(&session.finish().unwrap()), "a\nb\n");
}

#[test]
fn transcript_of_two_lists_is_the_two_transcripts() {
    let first = vec!["a".to_string(), "b c".to_string()];
    let second = vec!["".to_string(), "d".to_string()];
    let mut both = first.clone();
    both.extend(second.clone());
    assert_eq!(transcript(&both), format!("{}{}", transcript(&first), transcript(&second)));
    assert_eq!(transcript(&both), "a\nb c\n\nd\n");
}

#[test]
fn message_names_the_step_that_failed() {
    assert_eq!(message(Step::ModelPath), "Failed to convert model path to &str");
    assert_eq!(message(Step::LoadModel), "failed to load model");
    assert_eq!(message(Step::CreateState), "failed to create state");
    assert_eq!(message(Step::RunModel), "failed to run model");
    assert_eq!(message(Step::CountSegments), "failed to get number of segments");
    assert_eq!(message(Step::SegmentText), "failed to get segment");
}

#[test]
fn message_of_a_failed_session() {
    let (session, _) = drive(Some("m"), vec![Event::Done, Event::Done, Event::Failed]);
    assert_eq!(message(session.finish().unwrap_err()), "failed to run model");
}
