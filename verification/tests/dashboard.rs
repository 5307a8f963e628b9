use orchestration::rpc::dashboard::{
    history_window, history_window_at, next_recovery_attempt, session_id, session_verdict,
    view_stream_step, SessionCheck, ViewStreamAction, ViewStreamEvent, ViewValue,
    HOUR_MICROS,
};
use orchestration::rpc::status::Code;

#[test]
fn an_empty_window_is_the_last_hour() {
    let now = 1_790_000_096_789_012;
    assert_eq!(history_window_at("", "", now).ok(), Some((now - HOUR_MICROS, now)));
}

#[test]
fn a_window_bound_reads_from_rfc3339_to_the_microsecond() {
    let t = "2026-09-21T14:14:56.789012Z";
    let (start, end) = history_window(t, t).ok().unwrap();
    assert_eq!(start, 1_790_000_096_789_012);
    assert_eq!(end, 1_790_000_096_789_012);
}

#[test]
fn a_start_an_hour_before_the_given_end() {
    let (start, end) = history_window("", "2026-09-21T15:00:00+01:00").ok().unwrap();
    assert_eq!(end - start, HOUR_MICROS);
    assert_eq!(end, 1_789_999_200_000_000);
}

#[test]
fn a_bound_that_is_not_rfc3339_is_refused_end_first() {
    let e = history_window("nope", "also nope").err().unwrap();
    assert_eq!(e.code, Code::InvalidArgument);
    assert!(e.message.starts_with("end: "), "{}", e.message);
    let e = history_window("nope", "").err().unwrap();
    assert!(e.message.starts_with("start: "), "{}", e.message);
}

#[test]
fn recovery_reads_are_tried_three_times() {
    assert_eq!(next_recovery_attempt(1), Some(2));
    assert_eq!(next_recovery_attempt(2), Some(3));
    assert_eq!(next_recovery_attempt(3), None);
}

#[test]
fn only_an_ended_session_ends_a_stream() {
    assert!(session_verdict(SessionCheck::Valid).is_ok());
    assert!(session_verdict(SessionCheck::Failed).is_ok());
    let e = session_verdict(SessionCheck::Ended).err().unwrap();
    assert_eq!(e.code, Code::Unauthenticated);
    assert_eq!(e.message, "session ended");
    assert_eq!(session_id(Some("abc".to_string())).ok(), Some("abc".to_string()));
    assert_eq!(
        session_id(None).err().map(|e| e.message),
        Some("live streams require a session".to_string())
    );
}

#[test]
fn a_view_stream_sends_ready_pictures_and_ends_on_a_missing_canvas() {
    assert!(matches!(
        view_stream_step(ViewStreamEvent::Changed(ViewValue::Ready(5))),
        ViewStreamAction::SendSnapshot(5)
    ));
    assert!(matches!(
        view_stream_step::<u8>(ViewStreamEvent::Changed(ViewValue::Loading)),
        ViewStreamAction::Wait
    ));
    match view_stream_step::<u8>(ViewStreamEvent::Changed(ViewValue::Missing)) {
        ViewStreamAction::End { status: Some(s) } => {
            assert_eq!(s.code, Code::NotFound);
            assert_eq!(s.message, "canvas not found");
        }
        _ => panic!("a missing canvas ends the stream"),
    }
    assert!(matches!(
        view_stream_step::<u8>(ViewStreamEvent::Tick(SessionCheck::Failed)),
        ViewStreamAction::SendKeepAlive
    ));
    assert!(matches!(
        view_stream_step::<u8>(ViewStreamEvent::ViewClosed),
        ViewStreamAction::End { status: None }
    ));
}
