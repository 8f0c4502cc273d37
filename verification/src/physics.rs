//! The logical side of the physics backend: a ledger of the rigid-body
//! handles the backend currently owns, and the transforms it reports.
//!
//! The concrete solver (broad phase, narrow phase, integration under
//! gravity) is an opaque external backend driven by the embedding
//! application; this core only tracks which handles are live, so that an
//! agent's body link can be proved never to dangle. The core never
//! constructs a handle itself: every handle comes from `create_body`.

use vstd::prelude::*;

use crate::space::{Orientation, Position};

verus! {

/// A post-step transform reported by the physics backend for one body.
#[derive(Clone, Copy, PartialEq, Eq, Structural, Debug)]
pub struct BodyTransform {
    pub handle: u64,
    pub position: Position,
    pub rotation: Orientation,
}

/// The ledger of rigid-body handles the backend owns.
pub struct PhysicsBodies {
    /// The next handle to hand out; every live handle is below it.
    next_handle: u64,
    /// The live handles, each at most once.
    live: Vec<u64>,
}

impl PhysicsBodies {
    /// Whether `h` names a live body.
    pub closed spec fn is_live(self, h: u64) -> bool {
        self.live@.contains(h)
    }

    /// How many bodies are live.
    pub closed spec fn live_count(self) -> nat {
        self.live@.len()
    }

    /// The next handle to be handed out.
    pub closed spec fn spec_next_handle(self) -> u64 {
        self.next_handle
    }

    /// Handles are pairwise distinct and below the next one.
    pub closed spec fn wf(self) -> bool {
        &&& self.live@.no_duplicates()
        &&& forall|i: int|
            0 <= i < self.live@.len() ==> #[trigger] self.live@[i] < self.next_handle
    }

    /// A ledger with no bodies.
    pub fn new() -> (b: PhysicsBodies)
        ensures
            b.wf(),
            forall|h: u64| !b.is_live(h),
            b.live_count() == 0,
            b.spec_next_handle() == 0,
    {
        PhysicsBodies { next_handle: 0, live: Vec::new() }
    }

    /// Allocate a fresh handle for a newly created body. The handle was
    /// not live before and is live afterwards; no other handle changes.
    pub fn create_body(&mut self) -> (h: u64)
        requires
            old(self).wf(),
            old(self).spec_next_handle() < u64::MAX,
        ensures
            final(self).wf(),
            h == old(self).spec_next_handle(),
            !old(self).is_live(h),
            final(self).is_live(h),
            forall|x: u64| x != h ==> final(self).is_live(x) == old(self).is_live(x),
            final(self).live_count() == old(self).live_count() + 1,
            final(self).spec_next_handle() == h + 1,
    {
        let h = self.next_handle;
        let ghost pre = self.live@;
        proof {
            if pre.contains(h) {
                let i = choose|i: int| 0 <= i < pre.len() && pre[i] == h;
                assert(pre[i] < self.next_handle);
            }
        }
        self.live.push(h);
        self.next_handle = h + 1;
        proof {
            let post = self.live@;
            assert(post == pre.push(h));
            assert(post[pre.len() as int] == h);
            assert forall|x: u64| x != h implies post.contains(x) == pre.contains(x) by {
                if pre.contains(x) {
                    let i = choose|i: int| 0 <= i < pre.len() && pre[i] == x;
                    assert(post[i] == x);
                }
                if post.contains(x) {
                    let i = choose|i: int| 0 <= i < post.len() && post[i] == x;
                    assert(i < pre.len() ==> pre[i] == x);
                }
            }
            assert(post.no_duplicates()) by {
                assert forall|p: int, q: int|
                    0 <= p < q < post.len() implies post[p] != post[q] by {
                    if q == pre.len() {
                        assert(post[p] == pre[p] && post[q] == h);
                        assert(!pre.contains(h));
                        assert(pre[p] != h);
                    } else {
                        assert(post[p] == pre[p] && post[q] == pre[q]);
                        assert(pre.no_duplicates());
                    }
                }
            }
        }
        h
    }

    /// Every live handle is below the next one to be handed out.
    pub proof fn lemma_live_below_next(self, h: u64)
        requires
            self.wf(),
            self.is_live(h),
        ensures
            h < self.spec_next_handle(),
    {
        let i = choose|i: int| 0 <= i < self.live@.len() && self.live@[i] == h;
        assert(self.live@[i] < self.next_handle);
    }

    /// Whether `h` names a live body.
    pub fn body_is_live(&self, h: u64) -> (r: bool)
        ensures
            r == self.is_live(h),
    {
        let n = self.live.len();
        for i in 0..n
            invariant
                n == self.live@.len(),
                forall|j: int| 0 <= j < i ==> self.live@[j] != h,
        {
            if self.live[i] == h {
                return true;
            }
        }
        false
    }

    /// Release the body behind `h`, if it is live: afterwards `h` is not
    /// live and every other handle is as it was.
    pub fn release_body(&mut self, h: u64)
        requires
            old(self).wf(),
        ensures
            final(self).wf(),
            !final(self).is_live(h),
            forall|x: u64| x != h ==> final(self).is_live(x) == old(self).is_live(x),
            final(self).spec_next_handle() == old(self).spec_next_handle(),
    {
        let n = self.live.len();
        for i in 0..n
            invariant
                n == self.live@.len(),
                *self == *old(self),
                old(self).wf(),
                forall|j: int| 0 <= j < i ==> self.live@[j] != h,
        {
            if self.live[i] == h {
                self.live.remove(i);
                proof {
                    let pre = old(self).live@;
                    let post = self.live@;
                    assert(post == pre.remove(i as int));
                    assert(post.len() == pre.len() - 1);
                    assert(forall|j: int| 0 <= j < i ==> post[j] == pre[j]);
                    assert(forall|j: int| i <= j < post.len() ==> post[j] == pre[j + 1]);
                    assert forall|x: u64| post.contains(x) implies pre.contains(x) by {
                        let j = choose|j: int| 0 <= j < post.len() && post[j] == x;
                        if j < i {
                            assert(pre[j] == x);
                        } else {
                            assert(pre[j + 1] == x);
                        }
                    }
                    assert(!post.contains(h)) by {
                        if post.contains(h) {
                            let j = choose|j: int| 0 <= j < post.len() && post[j] == h;
                            if j < i {
                                assert(pre[j] == h && pre[i as int] == h);
                                assert(pre.no_duplicates());
                            } else {
                                assert(pre[j + 1] == h && pre[i as int] == h);
                                assert(pre.no_duplicates());
                            }
                        }
                    }
                    assert forall|x: u64| x != h && pre.contains(x) implies post.contains(x) by {
                        let j = choose|j: int| 0 <= j < pre.len() && pre[j] == x;
                        if j < i {
                            assert(post[j] == x);
                        } else {
                            assert(j != i);
                            assert(post[j - 1] == x);
                        }
                    }
                    assert(post.no_duplicates()) by {
                        assert forall|p: int, q: int|
                            0 <= p < q < post.len() implies post[p] != post[q] by {
                            if q < i {
                                assert(pre[p] == post[p] && pre[q] == post[q]);
                            } else if p < i {
                                assert(pre[p] == post[p] && pre[q + 1] == post[q]);
                            } else {
                                assert(pre[p + 1] == post[p] && pre[q + 1] == post[q]);
                            }
                        }
                    }
                }
                return ;
            }
        }
    }
}

} // verus!
