use vstd::prelude::*;

verus! {

/// One registration: a cursor into the shared log and a live flag.
struct SubEntry {
    cursor: usize,
    active: bool,
}

/// An ordered fan-out publish/subscribe primitive.
///
/// Producers append events to a shared log; every subscriber owns a cursor
/// and observes each event published after its registration, in publish
/// order. One subscriber consuming slowly never affects another: each
/// advances its own cursor. There is no replay: a new subscriber starts at
/// the current end of the log.
pub struct EventBus<E> {
    log: Vec<E>,
    subs: Vec<SubEntry>,
}

impl<E: Clone> EventBus<E> {
    /// All events ever published on this bus, oldest first.
    pub closed spec fn log(&self) -> Seq<E> {
        self.log@
    }

    /// How many tokens were ever handed out.
    pub closed spec fn sub_count(&self) -> nat {
        self.subs@.len()
    }

    /// Whether `t` was ever handed out as a token: every token is an
    /// index below the subscriber count, so a caller that tracks
    /// `sub_count` can establish this for each token it holds.
    pub open spec fn is_token(&self, t: usize) -> bool {
        t < self.sub_count()
    }

    /// Whether `t` is a live registration.
    pub closed spec fn is_subscriber(&self, t: usize) -> bool {
        t < self.subs@.len() && self.subs@[t as int].active
    }

    /// Where subscriber `t` stands in the log: events before it were
    /// already consumed or predate the registration.
    pub closed spec fn cursor_of(&self, t: usize) -> nat {
        self.subs@[t as int].cursor as nat
    }

    /// The events `t` has not yet consumed, oldest first.
    pub open spec fn pending(&self, t: usize) -> Seq<E> {
        self.log().subrange(self.cursor_of(t) as int, self.log().len() as int)
    }

    /// Every cursor stays within the log.
    pub closed spec fn wf(&self) -> bool {
        forall|i: int| 0 <= i < self.subs@.len() ==> (#[trigger] self.subs@[i].cursor) <= self.log@.len()
    }

    /// A bus with no history and no subscribers.
    pub fn new() -> (bus: Self)
        ensures
            bus.wf(),
            bus.log() == Seq::<E>::empty(),
            bus.sub_count() == 0,
    {
        EventBus { log: Vec::new(), subs: Vec::new() }
    }

    /// Registers a handler position and returns its token. The new
    /// subscriber sees only events published from now on.
    pub fn subscribe(&mut self) -> (t: usize)
        requires
            old(self).wf(),
        ensures
            final(self).wf(),
            t == old(self).sub_count(),
            final(self).sub_count() == old(self).sub_count() + 1,
            final(self).log() == old(self).log(),
            final(self).is_subscriber(t),
            final(self).cursor_of(t) == old(self).log().len(),
            final(self).pending(t) == Seq::<E>::empty(),
            forall|u: usize|
                #![trigger final(self).is_subscriber(u)]
                #![trigger final(self).cursor_of(u)]
                old(self).is_token(u) ==> final(self).is_subscriber(u) == old(
                    self,
                ).is_subscriber(u) && final(self).cursor_of(u) == old(self).cursor_of(u),
    {
        let t = self.subs.len();
        let cursor = self.log.len();
        self.subs.push(SubEntry { cursor, active: true });
        proof {
            assert(self.pending(t) =~= Seq::<E>::empty());
        }
        t
    }

    /// Withdraws registration `t`; a token never seen or already withdrawn
    /// is left as it is.
    pub fn unsubscribe(&mut self, t: usize)
        requires
            old(self).wf(),
        ensures
            final(self).wf(),
            final(self).log() == old(self).log(),
            final(self).sub_count() == old(self).sub_count(),
            !final(self).is_subscriber(t),
            forall|u: usize|
                #![trigger final(self).is_subscriber(u)]
                #![trigger final(self).cursor_of(u)]
                old(self).is_token(u) && u != t ==> final(self).is_subscriber(u) == old(
                    self,
                ).is_subscriber(u) && final(self).cursor_of(u) == old(self).cursor_of(u),
    {
        if t < self.subs.len() {
            let cursor = self.subs[t].cursor;
            self.subs.set(t, SubEntry { cursor, active: false });
        }
    }

    /// Appends `e` to the log: every live subscriber will observe it after
    /// everything published before it.
    pub fn publish(&mut self, e: E)
        requires
            old(self).wf(),
        ensures
            final(self).wf(),
            final(self).log() == old(self).log().push(e),
            final(self).sub_count() == old(self).sub_count(),
            forall|u: usize|
                #![trigger final(self).is_subscriber(u)]
                #![trigger final(self).cursor_of(u)]
                old(self).is_token(u) ==> final(self).is_subscriber(u) == old(
                    self,
                ).is_subscriber(u) && final(self).cursor_of(u) == old(self).cursor_of(u),
            forall|u: usize|
                old(self).is_token(u) ==> #[trigger] final(self).pending(u) == old(self).pending(
                    u,
                ).push(e),
    {
        self.log.push(e);
        proof {
            assert forall|u: usize| old(self).is_token(u) implies #[trigger] self.pending(u)
                == old(self).pending(u).push(e) by {
                assert(self.pending(u) =~= old(self).pending(u).push(e));
            }
        }
    }

    /// Hands subscriber `t` the oldest event it has not consumed, if any,
    /// and advances its cursor past it.
    pub fn take_next(&mut self, t: usize) -> (r: Option<E>)
        requires
            old(self).wf(),
            old(self).is_subscriber(t),
        ensures
            final(self).wf(),
            final(self).log() == old(self).log(),
            final(self).sub_count() == old(self).sub_count(),
            final(self).is_subscriber(t),
            forall|u: usize|
                #![trigger final(self).is_subscriber(u)]
                #![trigger final(self).cursor_of(u)]
                old(self).is_token(u) && u != t ==> final(self).is_subscriber(u) == old(
                    self,
                ).is_subscriber(u) && final(self).cursor_of(u) == old(self).cursor_of(u),
            r is Some <==> old(self).pending(t).len() > 0,
            r is Some ==> cloned::<E>(old(self).pending(t)[0], r->Some_0),
            r is Some ==> final(self).pending(t) == old(self).pending(t).skip(1) && final(self).cursor_of(t) == old(self).cursor_of(t) + 1,
            r is None ==> final(self).pending(t) == old(self).pending(t) && final(self).cursor_of(t) == old(self).cursor_of(t),
    {
        let cursor = self.subs[t].cursor;
        if cursor < self.log.len() {
            let e = self.log[cursor].clone();
            self.subs.set(t, SubEntry { cursor: cursor + 1, active: true });
            proof {
                assert(self.pending(t) =~= old(self).pending(t).skip(1));
                assert(old(self).pending(t)[0] == old(self).log()[cursor as int]);
            }
            Some(e)
        } else {
            proof {
                assert(old(self).pending(t) =~= Seq::<E>::empty());
            }
            None
        }
    }

    /// Hands subscriber `t` everything it has not consumed, oldest first,
    /// leaving nothing pending.
    pub fn drain(&mut self, t: usize) -> (r: Vec<E>)
        requires
            old(self).wf(),
            old(self).is_subscriber(t),
        ensures
            final(self).wf(),
            final(self).log() == old(self).log(),
            final(self).sub_count() == old(self).sub_count(),
            final(self).is_subscriber(t),
            forall|u: usize|
                #![trigger final(self).is_subscriber(u)]
                #![trigger final(self).cursor_of(u)]
                old(self).is_token(u) && u != t ==> final(self).is_subscriber(u) == old(
                    self,
                ).is_subscriber(u) && final(self).cursor_of(u) == old(self).cursor_of(u),
            r@.len() == old(self).pending(t).len(),
            forall|i: int|
                0 <= i < r@.len() ==> cloned::<E>(old(self).pending(t)[i], #[trigger] r@[i]),
            final(self).pending(t) == Seq::<E>::empty(),
            final(self).cursor_of(t) == final(self).log().len(),
    {
        let mut r: Vec<E> = Vec::new();
        loop
            invariant
                self.wf(),
                self.is_subscriber(t),
                self.log() == old(self).log(),
                self.sub_count() == old(self).sub_count(),
                forall|u: usize|
                    old(self).is_token(u) && u != t ==> #[trigger] self.is_subscriber(u) == old(
                        self,
                    ).is_subscriber(u) && self.cursor_of(u) == old(self).cursor_of(u),
                r@.len() + self.pending(t).len() == old(self).pending(t).len(),
                self.pending(t) == old(self).pending(t).skip(r@.len() as int),
                forall|i: int|
                    0 <= i < r@.len() ==> cloned::<E>(old(self).pending(t)[i], #[trigger] r@[i]),
            decreases self.pending(t).len(),
        {
            let ghost taken = r@.len() as int;
            match self.take_next(t) {
                Some(e) => {
                    proof {
                        assert(old(self).pending(t).skip(taken)[0] == old(self).pending(t)[
                            taken
                        ]);
                        assert(old(self).pending(t).skip(taken).skip(1) =~= old(self).pending(
                            t,
                        ).skip(taken + 1));
                    }
                    r.push(e);
                },
                None => {
                    proof {
                        assert(self.pending(t) =~= Seq::<E>::empty());
                    }
                    return r;
                },
            }
        }
    }
}

/// Of two subscribers, the one registered later (or having consumed
/// further) has exactly a suffix of the other's pending stream: both
/// observe the events published while both were subscribed in the same
/// relative order.
pub proof fn lemma_subscribers_share_order<E: Clone>(bus: &EventBus<E>, a: usize, b: usize)
    requires
        bus.wf(),
        bus.is_subscriber(a),
        bus.is_subscriber(b),
        bus.cursor_of(a) <= bus.cursor_of(b),
    ensures
        bus.pending(b) == bus.pending(a).skip(bus.cursor_of(b) - bus.cursor_of(a)),
        bus.cursor_of(b) - bus.cursor_of(a) <= bus.pending(a).len(),
{
    assert(bus.pending(b) =~= bus.pending(a).skip(bus.cursor_of(b) - bus.cursor_of(a)));
}

} // verus!
