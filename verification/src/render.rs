//! Rendering of inbound frames into the page's message container.
//!
//! Each accepted inbound text frame becomes one new child of the render
//! target, appended last, whose text content is the frame's payload taken
//! literally — never interpreted as markup.  Non-text frames are dropped
//! without a trace, and a text frame that arrives while the container is
//! absent is reported, not silently lost.

use vstd::prelude::*;

verus! {

/// One frame delivered by the transport's Message event.
pub enum InboundFrame {
    /// A text payload: the only kind the client renders.
    Text(String),
    /// Any non-text payload, carried as raw bytes and never rendered.
    Binary(Vec<u8>),
}

/// Mathematical view of an inbound frame.
pub enum FrameView {
    Text(Seq<char>),
    Binary(Seq<u8>),
}

impl View for InboundFrame {
    type V = FrameView;

    open spec fn view(&self) -> FrameView {
        match self {
            InboundFrame::Text(t) => FrameView::Text(t@),
            InboundFrame::Binary(b) => FrameView::Binary(b@),
        }
    }
}

/// Error reported when a text frame arrives but the render target is
/// absent from the page.
#[derive(Clone, Copy, PartialEq, Eq, Structural, Debug)]
pub enum RenderError {
    RenderTargetMissing,
}

/// The children of the render target after one frame is delivered to it:
/// a text frame appends its payload as one new child, anything else
/// leaves the children untouched.
pub open spec fn render_next(children: Seq<Seq<char>>, frame: FrameView) -> Seq<Seq<char>> {
    match frame {
        FrameView::Text(t) => children.push(t),
        FrameView::Binary(_) => children,
    }
}

/// The message container: one child per accepted frame, each child held
/// as its text content, in arrival order.
pub struct RenderTarget {
    pub children: Vec<String>,
}

impl View for RenderTarget {
    type V = Seq<Seq<char>>;

    open spec fn view(&self) -> Seq<Seq<char>> {
        self.children@.map_values(|c: String| c@)
    }
}

impl RenderTarget {
    /// An empty container.
    pub fn new() -> (t: RenderTarget)
        ensures
            t@.len() == 0,
    {
        RenderTarget { children: Vec::new() }
    }
}

/// Delivers one inbound frame to a render target: appends the payload of a
/// text frame as the last child, drops anything else.
pub fn render_frame(target: &mut RenderTarget, frame: InboundFrame)
    ensures
        final(target)@ == render_next(old(target)@, frame@),
{
    match frame {
        InboundFrame::Text(t) => {
            target.children.push(t);
            proof {
                assert(target@ =~= render_next(old(target)@, frame@));
            }
        },
        InboundFrame::Binary(_) => {},
    }
}

/// The page as the renderer sees it: the render target container under its
/// well-known id, if the page currently has one.
pub struct Page {
    pub messages: Option<RenderTarget>,
}

/// Delivers one inbound frame to the page.  A text frame needs the
/// container: present, its payload becomes the container's last child;
/// absent, the frame is reported as `RenderTargetMissing` and the page is
/// unchanged.  A non-text frame is dropped silently either way.
pub fn deliver_frame(page: &mut Page, frame: InboundFrame) -> (r: Result<(), RenderError>)
    ensures
        match old(page).messages {
            Some(t) => {
                &&& final(page).messages matches Some(t2) && t2@ == render_next(t@, frame@)
                &&& r == Ok::<(), RenderError>(())
            },
            None => {
                &&& final(page).messages is None
                &&& r == (if frame@ is Text {
                    Err::<(), RenderError>(RenderError::RenderTargetMissing)
                } else {
                    Ok::<(), RenderError>(())
                })
            },
        },
{
    match &mut page.messages {
        Some(target) => {
            render_frame(target, frame);
            Ok(())
        },
        None => {
            match frame {
                InboundFrame::Text(_) => Err(RenderError::RenderTargetMissing),
                InboundFrame::Binary(_) => Ok(()),
            }
        },
    }
}

/// What the renderer decides to do with one inbound frame, for a caller
/// that owns the real page.
pub enum RenderDecision {
    /// Append one new child whose text content is the carried payload.
    Append(String),
    /// Drop the frame: it was not text.
    Ignore,
    /// Report `RenderTargetMissing`: the frame was text but the container
    /// is absent.
    ReportMissing,
}

/// Decides what one inbound frame does to the page, given whether the
/// render target container is present: the payload of a text frame is
/// appended literally when the container is there, reported missing when
/// it is not, and a non-text frame is ignored.
pub fn render_decision(target_present: bool, frame: InboundFrame) -> (d: RenderDecision)
    ensures
        match frame@ {
            FrameView::Text(t) => {
                if target_present {
                    d matches RenderDecision::Append(s) && s@ == t
                } else {
                    d is ReportMissing
                }
            },
            FrameView::Binary(_) => d is Ignore,
        },
{
    match frame {
        InboundFrame::Text(t) => {
            if target_present {
                RenderDecision::Append(t)
            } else {
                RenderDecision::ReportMissing
            }
        },
        InboundFrame::Binary(_) => RenderDecision::Ignore,
    }
}

} // verus!
