//! Rendering of inbound frames into the message container.

use ws_client::render::{
    deliver_frame, render_decision, render_frame, InboundFrame, Page, RenderDecision, RenderError,
    RenderTarget,
};

#[test]
fn scenario_inbound_hello_adds_one_child_with_text_hello() {
    let mut page = Page { messages: Some(RenderTarget::new()) };
    let r = deliver_frame(&mut page, InboundFrame::Text(String::from("hello")));
    assert_eq!(r, Ok(()));
    let target = page.messages.unwrap();
    assert_eq!(target.children, vec![String::from("hello")]);
}

#[test]
fn frames_render_in_arrival_order() {
    let mut target = RenderTarget::new();
    render_frame(&mut target, InboundFrame::Text(String::from("m1")));
    render_frame(&mut target, InboundFrame::Binary(vec![1, 2, 3]));
    render_frame(&mut target, InboundFrame::Text(String::from("m2")));
    render_frame(&mut target, InboundFrame::Text(String::from("m3")));
    assert_eq!(
        target.children,
        vec![String::from("m1"), String::from("m2"), String::from("m3")]
    );
}

#[test]
fn non_text_frame_keeps_child_count() {
    let mut target = RenderTarget::new();
    render_frame(&mut target, InboundFrame::Text(String::from("a")));
    let before = target.children.len();
    render_frame(&mut target, InboundFrame::Binary(vec![0, 0, 0, 0]));
    assert_eq!(target.children.len(), before);
}

#[test]
fn text_frame_without_container_reports_missing_target() {
    let mut page = Page { messages: None };
    let r = deliver_frame(&mut page, InboundFrame::Text(String::from("hello")));
    assert_eq!(r, Err(RenderError::RenderTargetMissing));
    assert!(page.messages.is_none());
}

#[test]
fn binary_frame_without_container_is_silently_dropped() {
    let mut page = Page { messages: None };
    let r = deliver_frame(&mut page, InboundFrame::Binary(vec![9]));
    assert_eq!(r, Ok(()));
    assert!(page.messages.is_none());
}

#[test]
fn markup_in_payload_stays_literal_text() {
    let mut target = RenderTarget::new();
    let payload = String::from("<script>alert(1)</script>");
    render_frame(&mut target, InboundFrame::Text(payload.clone()));
    assert_eq!(target.children, vec![payload]);
}

#[test]
fn decision_appends_payload_when_container_present() {
    match render_decision(true, InboundFrame::Text(String::from("hey"))) {
        RenderDecision::Append(s) => assert_eq!(s, "hey"),
        _ => panic!("a text frame with a container present must be appended"),
    }
}

#[test]
fn decision_reports_missing_container_for_text_frames() {
    assert!(matches!(
        render_decision(false, InboundFrame::Text(String::from("hey"))),
        RenderDecision::ReportMissing
    ));
}

#[test]
fn decision_ignores_binary_frames_either_way() {
    assert!(matches!(
        render_decision(true, InboundFrame::Binary(vec![1])),
        RenderDecision::Ignore
    ));
    assert!(matches!(
        render_decision(false, InboundFrame::Binary(vec![1])),
        RenderDecision::Ignore
    ));
}
