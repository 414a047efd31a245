//! The guarantees the library gives, stated over the mathematical views
//! and proved once and for all: the handshake frame leads the wire, a
//! connection outside Open produces no traffic, terminal states are
//! absorbing, and rendering preserves arrival order exactly.

use vstd::prelude::*;
use crate::connection::{ClientView, ConnState, SendError};
use crate::render::{render_next, FrameView};

verus! {

/// The first frame on the wire of any well-formed client is its username,
/// with nothing added: no frame precedes the join handshake.
pub proof fn lemma_first_wire_frame_is_username(v: ClientView)
    requires
        v.wf(),
        v.wire.len() > 0,
    ensures
        v.wire[0] == v.username,
{
}

/// The client after a whole sequence of user `send` calls, oldest first.
pub open spec fn send_all(v: ClientView, messages: Seq<Seq<char>>) -> ClientView
    decreases messages.len(),
{
    if messages.len() == 0 {
        v
    } else {
        send_all(v.send_next(messages[0]), messages.drop_first())
    }
}

/// While the connection is not Open, sending changes nothing at all.
pub proof fn lemma_send_all_outside_open_is_noop(v: ClientView, messages: Seq<Seq<char>>)
    requires
        v.state != ConnState::Open,
    ensures
        send_all(v, messages) == v,
    decreases messages.len(),
{
    if messages.len() > 0 {
        lemma_send_all_outside_open_is_noop(v, messages.drop_first());
    }
}

/// Every `send` of a sequence issued while the connection is not Open
/// reports `SendError::NotOpen`, and none of them puts anything on the
/// wire.
pub proof fn lemma_sends_rejected_outside_open(v: ClientView, messages: Seq<Seq<char>>)
    requires
        v.state != ConnState::Open,
    ensures
        send_all(v, messages) == v,
        forall|i: int|
            0 <= i < messages.len() ==> send_all(v, messages.take(i)).send_result(messages[i])
                == Err::<(), SendError>(SendError::NotOpen),
{
    lemma_send_all_outside_open_is_noop(v, messages);
    assert forall|i: int|
        0 <= i < messages.len() implies send_all(v, messages.take(i)).send_result(messages[i])
        == Err::<(), SendError>(SendError::NotOpen) by {
        lemma_send_all_outside_open_is_noop(v, messages.take(i));
    }
}

/// One step of the connection for one event the host runtime delivers or
/// one request the user makes.
pub enum ClientEvent {
    /// The transport's Open event.
    Opened,
    /// A user request to send a text frame.
    UserSend(Seq<char>),
    /// The transport's Close event.
    TransportClosed,
    /// The transport's Error event.
    TransportErrored,
}

/// The client after one event.
pub open spec fn event_next(v: ClientView, e: ClientEvent) -> ClientView {
    match e {
        ClientEvent::Opened => v.open_next(),
        ClientEvent::UserSend(m) => v.send_next(m),
        ClientEvent::TransportClosed => v.close_next(),
        ClientEvent::TransportErrored => v.error_next(),
    }
}

/// The client after a whole sequence of events, oldest first.
pub open spec fn apply_events(v: ClientView, events: Seq<ClientEvent>) -> ClientView
    decreases events.len(),
{
    if events.len() == 0 {
        v
    } else {
        apply_events(event_next(v, events[0]), events.drop_first())
    }
}

/// Every event preserves well-formedness, so every client the host can
/// reach from a freshly connected one is well-formed — and with it the
/// guarantee of `lemma_first_wire_frame_is_username` that no frame ever
/// precedes the join handshake.
pub proof fn lemma_events_preserve_wf(v: ClientView, events: Seq<ClientEvent>)
    requires
        v.wf(),
    ensures
        apply_events(v, events).wf(),
    decreases events.len(),
{
    if events.len() > 0 {
        lemma_events_preserve_wf(event_next(v, events[0]), events.drop_first());
    }
}

/// Closed and Errored are absorbing: once the connection is terminal, no
/// event of any kind changes it again.
pub proof fn lemma_terminal_state_is_absorbing(v: ClientView, events: Seq<ClientEvent>)
    requires
        v.state == ConnState::Closed || v.state == ConnState::Errored,
    ensures
        apply_events(v, events) == v,
    decreases events.len(),
{
    if events.len() > 0 {
        lemma_terminal_state_is_absorbing(v, events.drop_first());
    }
}

/// After a terminal transition, every subsequent `send` reports
/// `SendError::NotOpen`, whatever else the host delivers in between, and
/// the wire never grows again.
pub proof fn lemma_no_traffic_after_terminal(v: ClientView, events: Seq<ClientEvent>)
    requires
        v.state == ConnState::Closed || v.state == ConnState::Errored,
    ensures
        apply_events(v, events) == v,
        forall|i: int|
            0 <= i < events.len() ==> (#[trigger] events[i] matches ClientEvent::UserSend(m)
                ==> apply_events(
                v,
                events.take(i),
            ).send_result(m) == Err::<(), SendError>(SendError::NotOpen)),
{
    lemma_terminal_state_is_absorbing(v, events);
    assert forall|i: int| 0 <= i < events.len() implies (#[trigger] events[i] matches ClientEvent::UserSend(
        m,
    ) ==> apply_events(v, events.take(i)).send_result(m) == Err::<(), SendError>(
        SendError::NotOpen,
    )) by {
        lemma_terminal_state_is_absorbing(v, events.take(i));
    }
}

/// The children of the render target after a whole sequence of inbound
/// frames, in arrival order.
pub open spec fn render_all(children: Seq<Seq<char>>, frames: Seq<FrameView>) -> Seq<Seq<char>>
    decreases frames.len(),
{
    if frames.len() == 0 {
        children
    } else {
        render_all(render_next(children, frames[0]), frames.drop_first())
    }
}

/// The payloads of the text frames of a sequence, in arrival order.
pub open spec fn texts_of(frames: Seq<FrameView>) -> Seq<Seq<char>>
    decreases frames.len(),
{
    if frames.len() == 0 {
        Seq::empty()
    } else {
        match frames[0] {
            FrameView::Text(t) => seq![t] + texts_of(frames.drop_first()),
            FrameView::Binary(_) => texts_of(frames.drop_first()),
        }
    }
}

/// Frames arriving in order leave the render target with exactly one new
/// child per accepted text frame, appended after the existing children,
/// in arrival order, each child's text equal to its frame's payload —
/// and nothing for the rest.
pub proof fn lemma_frames_rendered_in_order(children: Seq<Seq<char>>, frames: Seq<FrameView>)
    ensures
        render_all(children, frames) == children + texts_of(frames),
        render_all(children, frames).len() == children.len() + texts_of(frames).len(),
        forall|i: int|
            0 <= i < texts_of(frames).len() ==> render_all(children, frames)[children.len() + i]
                == texts_of(frames)[i],
    decreases frames.len(),
{
    if frames.len() == 0 {
        assert(children + texts_of(frames) =~= children);
    } else {
        let rest = frames.drop_first();
        match frames[0] {
            FrameView::Text(t) => {
                lemma_frames_rendered_in_order(children.push(t), rest);
                assert(children.push(t) + texts_of(rest) =~= children + (seq![t] + texts_of(
                    rest,
                )));
            },
            FrameView::Binary(_) => {
                lemma_frames_rendered_in_order(children, rest);
            },
        }
    }
}

/// A non-text frame never changes the render target: same children, same
/// count.
pub proof fn lemma_non_text_frame_changes_nothing(children: Seq<Seq<char>>, frame: FrameView)
    requires
        !(frame is Text),
    ensures
        render_next(children, frame) == children,
{
}

} // verus!
