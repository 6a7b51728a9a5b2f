use vstd::prelude::*;

use crate::errors::ServiceError;
use crate::events::{PermissionOption, PermissionRequestEvent};

verus! {

/// The outcome supplied for a permission request.
#[derive(Debug)]
pub enum Decision {
    /// The user chose the offered option with this id.
    Selected { option_id: String },
    /// Denied without a choice: the default outcome used when the owning
    /// session closes before anyone decides.
    Denied,
}

impl Clone for Decision {
    fn clone(&self) -> (res: Self)
        ensures
            res == *self,
    {
        match self {
            Decision::Selected { option_id } => Decision::Selected {
                option_id: option_id.clone(),
            },
            Decision::Denied => Decision::Denied,
        }
    }
}

struct RequestEntry {
    request_id: u64,
    session_id: String,
    resolution: Option<Decision>,
}

/// The permission correlator: matches an agent's "may I perform this tool
/// call" request to a single awaited decision, by request id.
///
/// Each entry holds one single-resolution slot. A request id is resolved at
/// most once; resolving an unknown or already-resolved id is an error
/// returned to the caller, never a crash, and never disturbs the first
/// resolution.
pub struct PermissionStore {
    entries: Vec<RequestEntry>,
    next_id: u64,
}

impl PermissionStore {
    /// Whether an entry (pending or resolved) carries `id`.
    pub closed spec fn has_request(&self, id: u64) -> bool {
        exists|i: int|
            0 <= i < self.entries@.len() && (#[trigger] self.entries@[i]).request_id == id
    }

    closed spec fn idx_of(&self, id: u64) -> int {
        choose|i: int|
            0 <= i < self.entries@.len() && (#[trigger] self.entries@[i]).request_id == id
    }

    /// The session that opened request `id`.
    pub closed spec fn session_of(&self, id: u64) -> Seq<char> {
        self.entries@[self.idx_of(id)].session_id@
    }

    /// The resolution of request `id`, if one was supplied.
    pub closed spec fn resolution_of(&self, id: u64) -> Option<Decision> {
        self.entries@[self.idx_of(id)].resolution
    }

    /// Whether request `id` exists and still awaits its decision.
    pub open spec fn is_pending(&self, id: u64) -> bool {
        self.has_request(id) && self.resolution_of(id) is None
    }

    /// Whether request `id` exists and was already decided.
    pub open spec fn is_resolved(&self, id: u64) -> bool {
        self.has_request(id) && self.resolution_of(id) is Some
    }

    /// How many requests were ever opened.
    pub closed spec fn request_count(&self) -> nat {
        self.entries@.len()
    }

    /// Ids are issued by a monotonic counter; this many can still come.
    pub closed spec fn can_issue(&self) -> bool {
        self.next_id < u64::MAX
    }

    /// Every entry carries a distinct id below the counter.
    pub closed spec fn wf(&self) -> bool {
        &&& forall|i: int|
            0 <= i < self.entries@.len() ==> (#[trigger] self.entries@[i]).request_id
                < self.next_id
        &&& forall|i: int, j: int|
            0 <= i < j < self.entries@.len() ==> (#[trigger] self.entries@[i]).request_id != (
            #[trigger] self.entries@[j]).request_id
    }

    proof fn lemma_idx_unique(&self, id: u64, i: int)
        requires
            self.wf(),
            0 <= i < self.entries@.len(),
            self.entries@[i].request_id == id,
        ensures
            self.has_request(id),
            self.idx_of(id) == i,
    {
        assert(self.has_request(id));
        let j = self.idx_of(id);
        if i < j {
            assert(self.entries@[i].request_id != self.entries@[j].request_id);
        } else if j < i {
            assert(self.entries@[j].request_id != self.entries@[i].request_id);
        }
    }

    /// Whether the id counter still has room: what `can_issue` says.
    pub fn has_capacity(&self) -> (r: bool)
        ensures
            r == self.can_issue(),
    {
        self.next_id < u64::MAX
    }

    /// An empty correlator.
    pub fn new() -> (store: Self)
        ensures
            store.wf(),
            store.can_issue(),
            store.request_count() == 0,
            forall|id: u64| !store.has_request(id),
    {
        PermissionStore { entries: Vec::new(), next_id: 0 }
    }

    fn find(&self, id: u64) -> (r: Option<usize>)
        requires
            self.wf(),
        ensures
            match r {
                Some(i) => {
                    &&& i < self.entries@.len()
                    &&& self.entries@[i as int].request_id == id
                    &&& self.has_request(id)
                    &&& self.idx_of(id) == i
                },
                None => !self.has_request(id),
            },
    {
        let n = self.entries.len();
        let mut i: usize = 0;
        while i < n
            invariant
                self.wf(),
                i <= n,
                n == self.entries@.len(),
                forall|j: int| 0 <= j < i ==> (#[trigger] self.entries@[j]).request_id != id,
            decreases n - i,
        {
            if self.entries[i].request_id == id {
                proof {
                    self.lemma_idx_unique(id, i as int);
                }
                return Some(i);
            }
            i = i + 1;
        }
        None
    }

    /// Opens a pending entry for a request from `session_id` offering
    /// `options`, and returns the envelope to publish on the permission
    /// bus. The issued id is fresh: it never collides with an open or past
    /// request.
    pub fn open_request(&mut self, session_id: String, options: Vec<PermissionOption>) -> (ev:
        PermissionRequestEvent)
        requires
            old(self).wf(),
            old(self).can_issue(),
        ensures
            final(self).wf(),
            !old(self).has_request(ev.request_id),
            final(self).has_request(ev.request_id),
            final(self).is_pending(ev.request_id),
            final(self).session_of(ev.request_id) == session_id@,
            final(self).request_count() == old(self).request_count() + 1,
            ev.session_id == session_id,
            ev.options == options,
            forall|id: u64|
                id != ev.request_id ==> #[trigger] final(self).has_request(id) == old(
                    self,
                ).has_request(id),
            forall|id: u64|
                old(self).has_request(id) ==> #[trigger] final(self).resolution_of(id) == old(
                    self,
                ).resolution_of(id) && final(self).session_of(id) == old(self).session_of(id),
    {
        let id = self.next_id;
        let ev = PermissionRequestEvent {
            request_id: id,
            session_id: session_id.clone(),
            options,
        };
        self.entries.push(RequestEntry { request_id: id, session_id, resolution: None });
        self.next_id = self.next_id + 1;
        proof {
            let n = self.entries@.len() - 1;
            self.lemma_idx_unique(id, n);
            assert forall|other: u64| other != id implies #[trigger] self.has_request(other)
                == old(self).has_request(other) by {
                if old(self).has_request(other) {
                    let i = old(self).idx_of(other);
                    assert(self.entries@[i].request_id == other);
                }
                if self.has_request(other) {
                    let i = self.idx_of(other);
                    assert(0 <= i < n);
                    assert(old(self).entries@[i].request_id == other);
                }
            }
            assert forall|other: u64| old(self).has_request(other) implies #[trigger] self
                .resolution_of(other) == old(self).resolution_of(other) && self.session_of(
                other,
            ) == old(self).session_of(other) by {
                let i = old(self).idx_of(other);
                self.lemma_idx_unique(other, i);
            }
        }
        ev
    }

    /// Completes the pending entry for `request_id` exactly once.
    ///
    /// An unknown id fails with `UnknownRequest`; an id resolved before
    /// fails with `AlreadyResolved` and leaves the first resolution's
    /// effect in place. Nothing else changes either way.
    pub fn resolve(&mut self, request_id: u64, choice: Decision) -> (r: Result<
        (),
        ServiceError,
    >)
        requires
            old(self).wf(),
        ensures
            final(self).wf(),
            final(self).can_issue() == old(self).can_issue(),
            r is Ok <==> old(self).is_pending(request_id),
            !old(self).has_request(request_id) ==> r == Err::<(), ServiceError>(
                ServiceError::UnknownRequest,
            ),
            old(self).is_resolved(request_id) ==> r == Err::<(), ServiceError>(
                ServiceError::AlreadyResolved,
            ),
            r is Err ==> *final(self) == *old(self),
            r is Ok ==> final(self).resolution_of(request_id) == Some(choice),
            r is Ok ==> final(self).is_resolved(request_id),
            final(self).request_count() == old(self).request_count(),
            forall|id: u64| #[trigger]
                final(self).has_request(id) == old(self).has_request(id),
            forall|id: u64|
                old(self).has_request(id) && id != request_id ==> #[trigger] final(self).resolution_of(id) == old(self).resolution_of(id),
            forall|id: u64|
                old(self).has_request(id) ==> #[trigger] final(self).session_of(id) == old(
                    self,
                ).session_of(id),
    {
        match self.find(request_id) {
            None => Err(ServiceError::UnknownRequest),
            Some(i) => {
                if self.entries[i].resolution.is_some() {
                    Err(ServiceError::AlreadyResolved)
                } else {
                    let session_id = self.entries[i].session_id.clone();
                    self.entries.set(
                        i,
                        RequestEntry { request_id, session_id, resolution: Some(choice) },
                    );
                    proof {
                        self.lemma_idx_unique(request_id, i as int);
                        assert forall|id: u64| #[trigger]
                            self.has_request(id) == old(self).has_request(id) by {
                            if old(self).has_request(id) {
                                let j = old(self).idx_of(id);
                                assert(self.entries@[j].request_id == id);
                            }
                            if self.has_request(id) {
                                let j = self.idx_of(id);
                                assert(old(self).entries@[j].request_id == id);
                            }
                        }
                        assert forall|id: u64|
                            old(self).has_request(id) && id != request_id implies #[trigger] self
                            .resolution_of(id) == old(self).resolution_of(id) by {
                            let j = old(self).idx_of(id);
                            old(self).lemma_idx_unique(id, j);
                            self.lemma_idx_unique(id, j);
                        }
                        assert forall|id: u64| old(self).has_request(id) implies #[trigger] self
                            .session_of(id) == old(self).session_of(id) by {
                            let j = old(self).idx_of(id);
                            old(self).lemma_idx_unique(id, j);
                            self.lemma_idx_unique(id, j);
                        }
                    }
                    Ok(())
                }
            },
        }
    }

    /// Reads back the decision supplied for `request_id`, if the request
    /// exists and was resolved: what the awaiting protocol handler replies
    /// to the agent.
    pub fn resolution(&self, request_id: u64) -> (r: Option<Decision>)
        requires
            self.wf(),
        ensures
            match r {
                Some(d) => self.has_request(request_id) && self.resolution_of(request_id)
                    == Some(d),
                None => !self.is_resolved(request_id),
            },
    {
        match self.find(request_id) {
            None => None,
            Some(i) => {
                match &self.entries[i].resolution {
                    Some(d) => Some(d.clone()),
                    None => None,
                }
            },
        }
    }

    /// Resolves every pending request of `session_id` with the default
    /// deny outcome, and returns their ids. Called when the owning session
    /// closes, so no awaiting handler is left pending forever. Requests of
    /// other sessions and already-resolved requests are untouched.
    pub fn cancel_session(&mut self, session_id: &String) -> (r: Vec<u64>)
        requires
            old(self).wf(),
        ensures
            final(self).wf(),
            final(self).can_issue() == old(self).can_issue(),
            final(self).request_count() == old(self).request_count(),
            forall|id: u64| #[trigger]
                final(self).has_request(id) == old(self).has_request(id),
            forall|id: u64|
                old(self).has_request(id) ==> #[trigger] final(self).session_of(id) == old(
                    self,
                ).session_of(id),
            // every pending request of the session is now denied
            forall|id: u64|
                old(self).is_pending(id) && old(self).session_of(id) == session_id@
                    ==> #[trigger] final(self).resolution_of(id) == Some(Decision::Denied),
            // nothing else moves
            forall|id: u64|
                old(self).has_request(id) && !(old(self).is_pending(id) && old(self).session_of(
                    id,
                ) == session_id@) ==> #[trigger] final(self).resolution_of(id) == old(
                    self,
                ).resolution_of(id),
            // the returned ids are exactly the denied ones
            forall|id: u64| #[trigger]
                r@.contains(id) <==> (old(self).is_pending(id) && old(self).session_of(id)
                    == session_id@),
            // no session keeps a pending request once it is closed
            forall|id: u64|
                final(self).is_pending(id) ==> !(final(self).session_of(id) == session_id@),
    {
        let n = self.entries.len();
        let mut r: Vec<u64> = Vec::new();
        let mut i: usize = 0;
        while i < n
            invariant
                old(self).wf(),
                self.wf(),
                i <= n,
                n == self.entries@.len(),
                self.next_id == old(self).next_id,
                self.entries@.len() == old(self).entries@.len(),
                forall|j: int|
                    0 <= j < n ==> (#[trigger] self.entries@[j]).request_id == old(
                        self,
                    ).entries@[j].request_id && self.entries@[j].session_id == old(
                        self,
                    ).entries@[j].session_id,
                forall|j: int|
                    0 <= j < i ==> (#[trigger] self.entries@[j]).resolution == (
                    if old(self).entries@[j].resolution is None && old(
                        self,
                    ).entries@[j].session_id@ == session_id@ {
                        Some(Decision::Denied)
                    } else {
                        old(self).entries@[j].resolution
                    }),
                forall|j: int|
                    i <= j < n ==> (#[trigger] self.entries@[j]).resolution == old(
                        self,
                    ).entries@[j].resolution,
                forall|id2: u64| #[trigger]
                    r@.contains(id2) <==> exists|j: int|
                        0 <= j < i && (#[trigger] old(self).entries@[j]).request_id == id2
                            && old(self).entries@[j].resolution is None && old(
                            self,
                        ).entries@[j].session_id@ == session_id@,
            decreases n - i,
        {
            let ghost r0 = r@;
            let pending = self.entries[i].resolution.is_none();
            let matches = self.entries[i].session_id == *session_id;
            if pending && matches {
                let id = self.entries[i].request_id;
                let sid = self.entries[i].session_id.clone();
                self.entries.set(
                    i,
                    RequestEntry {
                        request_id: id,
                        session_id: sid,
                        resolution: Some(Decision::Denied),
                    },
                );
                r.push(id);
                proof {
                    assert(r@ == r0.push(id));
                    assert forall|id2: u64| #[trigger]
                        r@.contains(id2) <==> exists|j: int|
                            0 <= j < i + 1 && (#[trigger] old(self).entries@[j]).request_id
                                == id2 && old(self).entries@[j].resolution is None && old(
                                self,
                            ).entries@[j].session_id@ == session_id@ by {
                        if r@.contains(id2) {
                            let k = choose|k: int| 0 <= k < r@.len() && r@[k] == id2;
                            if k < r0.len() {
                                assert(r0[k] == id2);
                                assert(r0.contains(id2));
                            } else {
                                assert(id2 == id);
                                assert(old(self).entries@[i as int].request_id == id2);
                            }
                        }
                        if exists|j: int|
                            0 <= j < i + 1 && (#[trigger] old(self).entries@[j]).request_id
                                == id2 && old(self).entries@[j].resolution is None && old(
                                self,
                            ).entries@[j].session_id@ == session_id@ {
                            let j = choose|j: int|
                                0 <= j < i + 1 && (#[trigger] old(self).entries@[j]).request_id
                                    == id2 && old(self).entries@[j].resolution is None && old(
                                    self,
                                ).entries@[j].session_id@ == session_id@;
                            if j == i {
                                assert(r@[r0.len() as int] == id);
                            } else {
                                assert(r0.contains(id2));
                                let k = choose|k: int| 0 <= k < r0.len() && r0[k] == id2;
                                assert(r@[k] == id2);
                            }
                        }
                    }
                }
            } else {
                proof {
                    assert forall|id2: u64| #[trigger]
                        r@.contains(id2) <==> exists|j: int|
                            0 <= j < i + 1 && (#[trigger] old(self).entries@[j]).request_id
                                == id2 && old(self).entries@[j].resolution is None && old(
                                self,
                            ).entries@[j].session_id@ == session_id@ by {
                        assert(self.entries@[i as int].resolution == old(
                            self,
                        ).entries@[i as int].resolution);
                        assert(self.entries@[i as int].session_id == old(
                            self,
                        ).entries@[i as int].session_id);
                        if exists|j: int|
                            0 <= j < i + 1 && (#[trigger] old(self).entries@[j]).request_id
                                == id2 && old(self).entries@[j].resolution is None && old(
                                self,
                            ).entries@[j].session_id@ == session_id@ {
                            let j = choose|j: int|
                                0 <= j < i + 1 && (#[trigger] old(self).entries@[j]).request_id
                                    == id2 && old(self).entries@[j].resolution is None && old(
                                    self,
                                ).entries@[j].session_id@ == session_id@;
                            assert(j != i);
                        }
                    }
                }
            }
            i = i + 1;
        }
        proof {
            self.cancel_post(old(self), session_id@, r@);
        }
        r
    }

    proof fn cancel_post(&self, prev: &Self, session: Seq<char>, issued: Seq<u64>)
        requires
            prev.wf(),
            self.wf(),
            self.entries@.len() == prev.entries@.len(),
            forall|j: int|
                0 <= j < prev.entries@.len() ==> (#[trigger] self.entries@[j]).request_id
                    == prev.entries@[j].request_id && self.entries@[j].session_id
                    == prev.entries@[j].session_id,
            forall|j: int|
                0 <= j < prev.entries@.len() ==> (#[trigger] self.entries@[j]).resolution == (
                if prev.entries@[j].resolution is None && prev.entries@[j].session_id@
                    == session {
                    Some(Decision::Denied)
                } else {
                    prev.entries@[j].resolution
                }),
            forall|id: u64| #[trigger]
                issued.contains(id) <==> exists|j: int|
                    0 <= j < prev.entries@.len() && (#[trigger] prev.entries@[j]).request_id
                        == id && prev.entries@[j].resolution is None
                        && prev.entries@[j].session_id@ == session,
        ensures
            forall|id: u64| #[trigger] self.has_request(id) == prev.has_request(id),
            forall|id: u64|
                prev.has_request(id) ==> #[trigger] self.session_of(id) == prev.session_of(id),
            forall|id: u64|
                prev.is_pending(id) && prev.session_of(id) == session ==> #[trigger] self
                    .resolution_of(id) == Some(Decision::Denied),
            forall|id: u64|
                prev.has_request(id) && !(prev.is_pending(id) && prev.session_of(id) == session)
                    ==> #[trigger] self.resolution_of(id) == prev.resolution_of(id),
            forall|id: u64| #[trigger]
                issued.contains(id) <==> (prev.is_pending(id) && prev.session_of(id) == session),
            forall|id: u64| self.is_pending(id) ==> !(self.session_of(id) == session),
    {
        assert forall|id: u64| #[trigger] self.has_request(id) == prev.has_request(id) by {
            if prev.has_request(id) {
                let j = prev.idx_of(id);
                assert(self.entries@[j].request_id == id);
            }
            if self.has_request(id) {
                let j = self.idx_of(id);
                assert(prev.entries@[j].request_id == id);
            }
        }
        assert forall|id: u64| prev.has_request(id) implies #[trigger] self.session_of(id)
            == prev.session_of(id) by {
            let j = prev.idx_of(id);
            prev.lemma_idx_unique(id, j);
            self.lemma_idx_unique(id, j);
        }
        assert forall|id: u64|
            prev.is_pending(id) && prev.session_of(id) == session implies #[trigger] self
            .resolution_of(id) == Some(Decision::Denied) by {
            let j = prev.idx_of(id);
            prev.lemma_idx_unique(id, j);
            self.lemma_idx_unique(id, j);
        }
        assert forall|id: u64|
            prev.has_request(id) && !(prev.is_pending(id) && prev.session_of(id) == session)
            implies #[trigger] self.resolution_of(id) == prev.resolution_of(id) by {
            let j = prev.idx_of(id);
            prev.lemma_idx_unique(id, j);
            self.lemma_idx_unique(id, j);
        }
        assert forall|id: u64| #[trigger]
            issued.contains(id) <==> (prev.is_pending(id) && prev.session_of(id) == session)
            by {
            if issued.contains(id) {
                let j = choose|j: int|
                    0 <= j < prev.entries@.len() && (#[trigger] prev.entries@[j]).request_id
                        == id && prev.entries@[j].resolution is None
                        && prev.entries@[j].session_id@ == session;
                prev.lemma_idx_unique(id, j);
            }
            if prev.is_pending(id) && prev.session_of(id) == session {
                let j = prev.idx_of(id);
                prev.lemma_idx_unique(id, j);
            }
        }
        assert forall|id: u64| self.is_pending(id) implies !(self.session_of(id) == session)
            by {
            let j = self.idx_of(id);
            self.lemma_idx_unique(id, j);
            prev.lemma_idx_unique(id, j);
        }
    }
}

} // verus!
