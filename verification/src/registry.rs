//! Registry of live event-handler registrations.
//!
//! The host runtime keeps calling a connection's handlers for as long as
//! its transport can emit events, so the handlers must outlive every
//! ordinary scope.  The registry makes that lifetime explicit: one
//! registration per connection, keyed by the connection's identity, held
//! from `register` until `unregister` releases it on a terminal
//! transition.  A frame for a connection with no live registration is not
//! dispatched.

use vstd::prelude::*;
use crate::render::{deliver_frame, render_next, InboundFrame, Page, RenderError};

verus! {

/// The arena of live handler registrations, keyed by connection identity.
pub struct CallbackRegistry {
    pub ids: Vec<u64>,
}

impl CallbackRegistry {
    /// Whether the connection `id` currently holds a live registration.
    pub open spec fn registered(self, id: u64) -> bool {
        self.ids@.contains(id)
    }

    /// At most one registration per connection.
    pub open spec fn wf(self) -> bool {
        self.ids@.no_duplicates()
    }

    /// An empty registry: no connection has live handlers.
    pub fn new() -> (r: CallbackRegistry)
        ensures
            r.wf(),
            forall|id: u64| !r.registered(id),
    {
        CallbackRegistry { ids: Vec::new() }
    }

    /// Whether the connection `id` currently holds a live registration.
    pub fn is_registered(&self, id: u64) -> (r: bool)
        ensures
            r == self.registered(id),
    {
        let mut i: usize = 0;
        while i < self.ids.len()
            invariant
                i <= self.ids.len(),
                forall|k: int| 0 <= k < i ==> self.ids@[k] != id,
            decreases self.ids.len() - i,
        {
            if self.ids[i] == id {
                return true;
            }
            i += 1;
        }
        false
    }

    /// Binds the handlers of connection `id` to its transport for the
    /// transport's lifetime: from here on the registration is live, and
    /// every other connection's registration is as it was.
    pub fn register(&mut self, id: u64)
        requires
            old(self).wf(),
        ensures
            final(self).wf(),
            final(self).registered(id),
            forall|j: u64| j != id ==> final(self).registered(j) == old(self).registered(j),
    {
        if !self.is_registered(id) {
            self.ids.push(id);
            proof {
                let pre = old(self).ids@;
                let post = self.ids@;
                assert(post[pre.len() as int] == id);
                assert(post.no_duplicates()) by {
                    assert forall|m: int, n: int|
                        0 <= m < post.len() && 0 <= n < post.len() && m != n implies post[m]
                        != post[n] by {
                        if m < pre.len() && n < pre.len() {
                            assert(post[m] == pre[m] && post[n] == pre[n]);
                        } else if m == pre.len() {
                            assert(post[n] == pre[n] && post[m] == id);
                            assert(pre[n] != id);
                        } else {
                            assert(post[m] == pre[m] && post[n] == id);
                            assert(pre[m] != id);
                        }
                    }
                }
                assert forall|j: u64| j != id implies self.registered(j) == old(
                    self,
                ).registered(j) by {
                    if pre.contains(j) {
                        let k = choose|k: int| 0 <= k < pre.len() && pre[k] == j;
                        assert(post[k] == j);
                    }
                    if post.contains(j) {
                        let k = choose|k: int| 0 <= k < post.len() && post[k] == j;
                        assert(k != pre.len());
                        assert(pre[k] == j);
                    }
                }
            }
        }
    }

    /// Releases the registration of connection `id` — the step a terminal
    /// transition owes — leaving every other registration as it was.
    pub fn unregister(&mut self, id: u64)
        requires
            old(self).wf(),
        ensures
            final(self).wf(),
            !final(self).registered(id),
            forall|j: u64| j != id ==> final(self).registered(j) == old(self).registered(j),
    {
        let mut i: usize = 0;
        while i < self.ids.len()
            invariant
                i <= self.ids.len(),
                self.ids@ == old(self).ids@,
                old(self).ids@.no_duplicates(),
                forall|k: int| 0 <= k < i ==> self.ids@[k] != id,
            decreases self.ids.len() - i,
        {
            if self.ids[i] == id {
                proof {
                    self.ids@.remove_ensures(i as int);
                }
                self.ids.remove(i);
                proof {
                    let pre = old(self).ids@;
                    let post = self.ids@;
                    assert(post == pre.remove(i as int));
                    assert(pre[i as int] == id);
                    assert forall|k: int| 0 <= k < post.len() implies post[k] == (if k < i {
                        pre[k]
                    } else {
                        pre[k + 1]
                    }) by {
                        assert(post[k] == pre.remove(i as int)[k]);
                    }
                    assert forall|k: int| 0 <= k < post.len() implies post[k] != id by {
                        if k >= i {
                            assert(pre[k + 1] != pre[i as int]);
                        }
                    }
                    assert(!post.contains(id));
                    assert forall|j: u64| j != id implies post.contains(j) == pre.contains(j) by {
                        if pre.contains(j) {
                            let k = choose|k: int| 0 <= k < pre.len() && pre[k] == j;
                            assert(k != i);
                            if k < i {
                                assert(post[k] == j);
                            } else {
                                assert(post[k - 1] == j);
                            }
                        }
                        if post.contains(j) {
                            let k = choose|k: int| 0 <= k < post.len() && post[k] == j;
                            if k < i {
                                assert(pre[k] == j);
                            } else {
                                assert(pre[k + 1] == j);
                            }
                        }
                    }
                    assert(post.no_duplicates()) by {
                        assert forall|m: int, n: int|
                            0 <= m < post.len() && 0 <= n < post.len() && m != n implies post[m]
                            != post[n] by {
                            let m0: int = if m < i { m } else { m + 1 };
                            let n0: int = if n < i { n } else { n + 1 };
                            assert(post[m] == pre[m0]);
                            assert(post[n] == pre[n0]);
                            assert(pre[m0] != pre[n0]);
                        }
                    }
                }
                return ;
            }
            i += 1;
        }
    }
}

/// Dispatches one inbound frame for connection `id`: the frame reaches the
/// page exactly when the connection's registration is still live; after
/// `unregister` — that is, after a terminal transition — no further
/// Message event is processed.
pub fn dispatch_frame(
    registry: &CallbackRegistry,
    id: u64,
    page: &mut Page,
    frame: InboundFrame,
) -> (r: Result<(), RenderError>)
    ensures
        !registry.registered(id) ==> *final(page) == *old(page) && r == Ok::<(), RenderError>(()),
        registry.registered(id) ==> match old(page).messages {
            Some(t) => {
                &&& final(page).messages matches Some(t2) && t2@ == render_next(t@, frame@)
                &&& r == Ok::<(), RenderError>(())
            },
            None => {
                &&& final(page).messages is None
                &&& r == (if frame@ is Text {
                    Err::<(), RenderError>(RenderError::RenderTargetMissing)
                } else {
                    Ok::<(), RenderError>(())
                })
            },
        },
{
    if registry.is_registered(id) {
        deliver_frame(page, frame)
    } else {
        Ok(())
    }
}

} // verus!
