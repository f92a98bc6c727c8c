//! The supervisor: cancellation, exactly-once termination, keep-alive
//! swallowing, rate limiting, and the request lifecycle.

use llm_playground::config::{FetchError, FetchErrorKind};
use llm_playground::stream::{
    collect_tokens, Action, Frame, Phase, StreamEvent, Supervisor,
};
use llm_playground::widgets::{Button, Menu};

fn streaming_supervisor() -> Supervisor {
    let mut sup = Supervisor::new(25);
    sup.start_send();
    sup.on_response(200, "", 1000).unwrap();
    assert_eq!(sup.phase, Phase::Streaming);
    sup
}

fn text(s: &str) -> StreamEvent {
    StreamEvent::Ready(Some(Ok(Some(s.to_string()))))
}

#[test]
fn cancel_before_any_text_yields_exactly_end() {
    let mut sup = streaming_supervisor();
    let frames = collect_tokens(&mut sup, vec![StreamEvent::Canceled]);
    assert_eq!(frames, vec![Frame::End]);
}

#[test]
fn cancel_after_two_texts_yields_two_texts_then_end() {
    let mut sup = streaming_supervisor();
    let frames = collect_tokens(
        &mut sup,
        vec![text("a"), text("b"), StreamEvent::Canceled, text("never")],
    );
    assert_eq!(
        frames,
        vec![Frame::Text("a".to_string()), Frame::Text("b".to_string()), Frame::End]
    );
}

#[test]
fn natural_exhaustion_yields_end() {
    let mut sup = streaming_supervisor();
    let frames = collect_tokens(&mut sup, vec![text("a"), StreamEvent::Ready(None)]);
    assert_eq!(frames, vec![Frame::Text("a".to_string()), Frame::End]);
    assert_eq!(sup.phase, Phase::Completed);
}

#[test]
fn explicit_end_yields_end_and_nothing_after() {
    let mut sup = streaming_supervisor();
    let frames = collect_tokens(
        &mut sup,
        vec![StreamEvent::Ready(Some(Ok(None))), text("late")],
    );
    assert_eq!(frames, vec![Frame::End]);
}

#[test]
fn decode_error_yields_one_error_frame_and_nothing_after() {
    let mut sup = streaming_supervisor();
    let e = FetchError {
        kind: FetchErrorKind::Decode,
        message: "Error parsing response.".to_string(),
    };
    let frames = collect_tokens(
        &mut sup,
        vec![
            text("a"),
            StreamEvent::Ready(Some(Err(e.clone()))),
            text("late"),
            StreamEvent::Canceled,
        ],
    );
    assert_eq!(frames, vec![Frame::Text("a".to_string()), Frame::Error(e)]);
    assert_eq!(sup.phase, Phase::Failed);
}

#[test]
fn empty_keep_alive_tokens_are_swallowed() {
    let mut sup = streaming_supervisor();
    let frames = collect_tokens(
        &mut sup,
        vec![text(""), text("x"), text(""), StreamEvent::Ready(None)],
    );
    assert_eq!(frames, vec![Frame::Text("x".to_string()), Frame::End]);
}

#[test]
fn keep_alive_does_not_touch_the_rate_limit_clock() {
    let mut sup = streaming_supervisor();
    let before = sup.last_emit_ms;
    let act = sup.step(text(""), 5000);
    assert_eq!(act, Action::Skip);
    assert_eq!(sup.last_emit_ms, before);
}

#[test]
fn late_cancellation_after_completion_is_inert() {
    let mut sup = streaming_supervisor();
    let frames = collect_tokens(&mut sup, vec![StreamEvent::Ready(None)]);
    assert_eq!(frames, vec![Frame::End]);
    let act = sup.step(StreamEvent::Canceled, 2000);
    assert_eq!(act, Action::Skip);
    assert_eq!(sup.phase, Phase::Completed);
}

#[test]
fn gaps_smaller_than_the_minimum_are_padded_to_it() {
    let sup = streaming_supervisor();
    // last emission at 1000, minimum interval 25
    assert_eq!(sup.required_delay(1000), 25);
    assert_eq!(sup.required_delay(1010), 15);
    assert_eq!(sup.required_delay(1024), 1);
}

#[test]
fn gaps_at_or_past_the_minimum_get_no_artificial_delay() {
    let sup = streaming_supervisor();
    assert_eq!(sup.required_delay(1025), 0);
    assert_eq!(sup.required_delay(1500), 0);
}

#[test]
fn delivery_gaps_stay_at_or_above_the_minimum_interval() {
    let mut sup = streaming_supervisor();
    let mut now: u64 = 1000;
    let mut emissions: Vec<u64> = vec![];
    for token in ["a", "b", "c", "d"] {
        // ready frames arrive back to back, 3 ms apart
        now += 3;
        let emit_at = now + sup.required_delay(now);
        let act = sup.step(text(token), emit_at);
        assert!(matches!(act, Action::EmitText(_)));
        emissions.push(emit_at);
        now = emit_at;
    }
    for pair in emissions.windows(2) {
        assert!(pair[1] - pair[0] >= 25);
    }
}

#[test]
fn non_ok_status_is_a_transport_error_with_status_and_body() {
    let mut sup = Supervisor::new(25);
    sup.start_send();
    let err = sup.on_response(429, "slow down", 0).unwrap_err();
    assert_eq!(err.kind, FetchErrorKind::Transport);
    assert_eq!(err.message_text(), "Invalid status code: 429: slow down");
    assert_eq!(sup.phase, Phase::Failed);
}

#[test]
fn cancel_during_send_ends_quietly() {
    let mut sup = Supervisor::new(25);
    sup.start_send();
    sup.cancel_during_send();
    assert_eq!(sup.phase, Phase::Canceled);
    // a late ready unit produces no frame
    let act = sup.step(text("late"), 10);
    assert_eq!(act, Action::Skip);
}

#[test]
fn menu_pane_is_hidden_unless_selected() {
    assert_eq!(Menu(llm_playground::widgets::Menu::Chat), Some("None"));
    assert_eq!(Menu(llm_playground::widgets::Menu::Menu), None);
}

#[test]
fn button_class_list_appends_the_shared_style() {
    let (classes, display) = Button("md:py-[6px]", false);
    assert!(classes.starts_with("md:py-[6px] px-[9px]"));
    assert!(classes.ends_with("text-[#AAAABB]"));
    assert_eq!(display, None);
    let (_, hidden) = Button("", true);
    assert_eq!(hidden, Some("None"));
}
