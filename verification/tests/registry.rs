//! Handler registrations: live from register to unregister, and frames
//! for a released connection are no longer processed.

use ws_client::registry::{dispatch_frame, CallbackRegistry};
use ws_client::render::{InboundFrame, Page, RenderTarget};

#[test]
fn registration_is_live_until_released() {
    let mut reg = CallbackRegistry::new();
    assert!(!reg.is_registered(7));
    reg.register(7);
    assert!(reg.is_registered(7));
    reg.register(7);
    assert!(reg.is_registered(7));
    reg.unregister(7);
    assert!(!reg.is_registered(7));
}

#[test]
fn releasing_one_registration_keeps_the_others() {
    let mut reg = CallbackRegistry::new();
    reg.register(1);
    reg.register(2);
    reg.unregister(1);
    assert!(!reg.is_registered(1));
    assert!(reg.is_registered(2));
}

#[test]
fn releasing_an_unknown_registration_is_harmless() {
    let mut reg = CallbackRegistry::new();
    reg.register(3);
    reg.unregister(4);
    assert!(reg.is_registered(3));
    assert!(!reg.is_registered(4));
}

#[test]
fn scenario_no_message_is_processed_after_release() {
    let mut reg = CallbackRegistry::new();
    reg.register(1);
    let mut page = Page { messages: Some(RenderTarget::new()) };
    let live = dispatch_frame(&reg, 1, &mut page, InboundFrame::Text(String::from("hello")));
    assert_eq!(live, Ok(()));
    reg.unregister(1);
    let late = dispatch_frame(&reg, 1, &mut page, InboundFrame::Text(String::from("late")));
    assert_eq!(late, Ok(()));
    let target = page.messages.unwrap();
    assert_eq!(target.children, vec![String::from("hello")]);
}
