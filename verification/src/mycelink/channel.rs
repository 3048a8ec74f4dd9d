//! The key bookkeeping of a channel between two parties.
//!
//! Each side of a channel sends with one ratchet and receives with another. Either side
//! may replace its sending ratchet ("rekey") by answering one of the public components
//! the other side offered; the answer travels with a final message, and the other side
//! completes it with one of the generations of private components it offered. The
//! cryptography (ratchets, components, key exchanges) is done by the caller; this type
//! keeps track of which components are offered and which may still be answered.

use vstd::prelude::*;

use crate::mycelink::channel_message::InitialChannelMessage;

verus! {

/// The state of a channel: its two ratchets, whether the peer's initial message has
/// arrived, the peer's public components that are not answered yet, and the generations
/// of own private components that the peer may still answer, oldest first.
pub struct MycelinkChannel<R, P, S> {
    send_ratchet: R,
    receive_ratchet: R,
    received_initial_message: bool,
    pending_public_components: Option<Vec<P>>,
    own_private_component: Vec<Vec<S>>,
}

/// The mathematical value of a [`MycelinkChannel`].
pub struct ChannelView<R, P, S> {
    pub send_ratchet: R,
    pub receive_ratchet: R,
    pub received_initial_message: bool,
    pub pending_public_components: Option<Seq<P>>,
    pub own_private_component: Seq<Seq<S>>,
}

impl<R, P, S> View for MycelinkChannel<R, P, S> {
    type V = ChannelView<R, P, S>;

    closed spec fn view(&self) -> ChannelView<R, P, S> {
        ChannelView {
            send_ratchet: self.send_ratchet,
            receive_ratchet: self.receive_ratchet,
            received_initial_message: self.received_initial_message,
            pending_public_components: match self.pending_public_components {
                Some(v) => Some(v@),
                None => None,
            },
            own_private_component: self.own_private_component@.map_values(|g: Vec<S>| g@),
        }
    }
}

/// Whether the channel may rekey its sending side: the peer offered components that are
/// not answered yet.
pub open spec fn can_rekey<R, P, S>(c: ChannelView<R, P, S>) -> bool {
    c.pending_public_components matches Some(p) && p.len() > 0
}

impl<R, P, S> MycelinkChannel<R, P, S> {
    /// The generations of own private components, oldest first.
    pub closed spec fn generations(&self) -> Seq<Vec<S>> {
        self.own_private_component@
    }

    /// A freshly opened channel, which offered the private components `private_components`
    /// in its initial message and has not heard from the peer yet.
    pub fn new(send_ratchet: R, receive_ratchet: R, private_components: Vec<S>) -> (res: Self)
        ensures
            res@ == (ChannelView {
                send_ratchet,
                receive_ratchet,
                received_initial_message: false,
                pending_public_components: None::<Seq<P>>,
                own_private_component: seq![private_components@],
            }),
    {
        let mut own: Vec<Vec<S>> = Vec::new();
        let ghost offered = private_components@;
        own.push(private_components);
        let res = MycelinkChannel {
            send_ratchet,
            receive_ratchet,
            received_initial_message: false,
            pending_public_components: None,
            own_private_component: own,
        };
        assert(res@.own_private_component =~= seq![offered]);
        res
    }

    pub fn send_ratchet(&self) -> (res: &R)
        ensures
            *res == self@.send_ratchet,
    {
        &self.send_ratchet
    }

    pub fn receive_ratchet(&self) -> (res: &R)
        ensures
            *res == self@.receive_ratchet,
    {
        &self.receive_ratchet
    }

    /// Whether the peer's initial message has arrived.
    pub fn received_initial_message(&self) -> (res: bool)
        ensures
            res == self@.received_initial_message,
    {
        self.received_initial_message
    }

    /// Takes in the peer's initial message: the public components it offers.
    pub fn accept_initial_message(&mut self, message: InitialChannelMessage<P>)
        ensures
            final(self)@ == (ChannelView {
                received_initial_message: true,
                pending_public_components: Some(message.available_public_component@),
                ..old(self)@
            }),
    {
        self.received_initial_message = true;
        self.pending_public_components = Some(message.available_public_component);
    }

    /// The peer's components that a rekey may answer, where there are any.
    pub fn rekey_candidates(&self) -> (res: Option<&Vec<P>>)
        ensures
            can_rekey(self@) ==> (res matches Some(v) && self@.pending_public_components == Some(
                v@,
            )),
            !can_rekey(self@) ==> res is None,
    {
        match &self.pending_public_components {
            Some(components) => {
                if components.len() > 0 {
                    Some(components)
                } else {
                    None
                }
            },
            None => None,
        }
    }

    /// Records a sent rekey: the channel now sends with `new_send_ratchet`, offers the
    /// private components `next_private_components` besides the earlier ones, and has no
    /// peer components left to answer.
    pub fn complete_send_rekey(&mut self, new_send_ratchet: R, next_private_components: Vec<S>)
        ensures
            final(self)@ == (ChannelView {
                send_ratchet: new_send_ratchet,
                pending_public_components: None::<Seq<P>>,
                own_private_component: old(self)@.own_private_component.push(
                    next_private_components@,
                ),
                ..old(self)@
            }),
            !can_rekey(final(self)@),
    {
        let ghost next = next_private_components@;
        self.own_private_component.push(next_private_components);
        self.send_ratchet = new_send_ratchet;
        self.pending_public_components = None;
        assert(self@.own_private_component =~= old(self)@.own_private_component.push(next));
    }

    /// Takes in a rekey from the peer. `complete` answers the rekey with one generation of
    /// own private components, giving the new receiving ratchet where that generation
    /// matches. The first generation that matches is used: the channel then receives with
    /// the new ratchet, may answer `next_public_components`, and drops the generations
    /// older than the one used. Where none matches, nothing changes and `false` comes back.
    pub fn receive_rekey<F: Fn(&Vec<S>) -> Option<R>>(
        &mut self,
        complete: F,
        next_public_components: Vec<P>,
    ) -> (res: bool)
        requires
            forall|i: int|
                0 <= i < old(self).generations().len() ==> complete.requires(
                    (&old(self).generations()[i],),
                ),
        ensures
            res ==> exists|i: int, r: R|
                0 <= i < old(self)@.own_private_component.len() && complete.ensures(
                    (&old(self).generations()[i],),
                    Some(r),
                ) && (forall|j: int|
                    0 <= j < i ==> complete.ensures((&old(self).generations()[j],), None))
                    && final(self)@ == (ChannelView {
                    receive_ratchet: r,
                    pending_public_components: Some(next_public_components@),
                    own_private_component: old(self)@.own_private_component.skip(i),
                    ..old(self)@
                }),
            !res ==> final(self)@ == old(self)@ && forall|i: int|
                0 <= i < old(self)@.own_private_component.len() ==> complete.ensures(
                    (&old(self).generations()[i],),
                    None,
                ),
    {
        let mut i: usize = 0;
        while i < self.own_private_component.len()
            invariant
                i <= self.own_private_component.len(),
                *self == *old(self),
                forall|j: int|
                    0 <= j < self.generations().len() ==> complete.requires(
                        (&self.generations()[j],),
                    ),
                forall|j: int| 0 <= j < i ==> complete.ensures((&self.generations()[j],), None),
            decreases self.own_private_component.len() - i,
        {
            assert(complete.requires((&self.generations()[i as int],)));
            match complete(&self.own_private_component[i]) {
                Some(ratchet) => {
                    let ghost before = self@;
                    let mut k: usize = 0;
                    assert(before.own_private_component.skip(0) =~= before.own_private_component);
                    while k < i
                        invariant
                            k <= i < old(self).generations().len(),
                            self.own_private_component@.len() == old(self).generations().len() - k,
                            self@ == (ChannelView {
                                own_private_component: before.own_private_component.skip(
                                    k as int,
                                ),
                                ..before
                            }),
                            before == old(self)@,
                        decreases i - k,
                    {
                        let ghost g = self@.own_private_component;
                        let ghost v = self.own_private_component@;
                        self.own_private_component.remove(0);
                        assert(self.own_private_component@ == v.remove(0));
                        assert(self@.own_private_component =~= g.drop_first());
                        assert(before.own_private_component.skip(k as int).drop_first()
                            =~= before.own_private_component.skip(k + 1));
                        k = k + 1;
                    }
                    self.receive_ratchet = ratchet;
                    self.pending_public_components = Some(next_public_components);
                    return true;
                },
                None => {},
            }
            i = i + 1;
        }
        false
    }
}

/// The best candidate after scanning the first `n` candidates, where `outcomes[i]` says
/// whether candidate `i` was preferred over the best one before it: it then becomes the
/// best; the first candidate is the best before any comparison.
pub open spec fn running_best(outcomes: Seq<bool>, n: int) -> int
    decreases n,
{
    if n <= 0 {
        0
    } else if outcomes[n - 1] {
        n - 1
    } else {
        running_best(outcomes, n - 1)
    }
}

/// Whether `outcomes` are answers `prefers` may give in a scan of `candidates`: answer
/// `i` compares candidate `i` with the best candidate before it.
pub open spec fn scan_answers<P, F: Fn(&P, &P) -> bool>(
    candidates: Seq<P>,
    prefers: F,
    outcomes: Seq<bool>,
) -> bool {
    &&& outcomes.len() == candidates.len()
    &&& forall|i: int|
        0 <= i < outcomes.len() ==> prefers.ensures(
            (&candidates[i], &candidates[running_best(outcomes, i)]),
            #[trigger] outcomes[i],
        )
}

/// The component a rekey answers (`max_by` over the candidates' preference): scanning
/// the candidates in order, a candidate replaces the best one so far exactly when
/// `prefers` says it is better than that one. The result is the best candidate after the
/// scan, for the answers `prefers` gave.
pub fn preferred_component<P, F: Fn(&P, &P) -> bool>(candidates: &Vec<P>, prefers: F) -> (res: usize)
    requires
        candidates@.len() > 0,
        forall|i: int, j: int|
            0 <= i < candidates@.len() && 0 <= j < candidates@.len() ==> prefers.requires(
                (&candidates@[i], &candidates@[j]),
            ),
    ensures
        res < candidates@.len(),
        exists|outcomes: Seq<bool>|
            scan_answers(candidates@, prefers, outcomes) && res == #[trigger] running_best(
                outcomes,
                candidates@.len() as int,
            ),
{
    let mut best: usize = 0;
    let mut i: usize = 0;
    let ghost mut outcomes: Seq<bool> = Seq::empty();
    while i < candidates.len()
        invariant
            i <= candidates@.len(),
            outcomes.len() == i,
            best == running_best(outcomes, i as int),
            best < candidates@.len(),
            best == 0 || best < i,
            forall|a: int, b: int|
                0 <= a < candidates@.len() && 0 <= b < candidates@.len() ==> prefers.requires(
                    (&candidates@[a], &candidates@[b]),
                ),
            forall|k: int|
                0 <= k < outcomes.len() ==> prefers.ensures(
                    (&candidates@[k], &candidates@[running_best(outcomes, k)]),
                    #[trigger] outcomes[k],
                ),
        decreases candidates@.len() - i,
    {
        let better = prefers(&candidates[i], &candidates[best]);
        let ghost before = outcomes;
        proof {
            outcomes = outcomes.push(better);
            assert forall|k: int| 0 <= k <= i implies running_best(outcomes, k) == running_best(
                before,
                k,
            ) by {
                lemma_running_best_prefix(before, outcomes, k);
            }
            assert forall|k: int|
                0 <= k < outcomes.len() implies prefers.ensures(
                (&candidates@[k], &candidates@[running_best(outcomes, k)]),
                #[trigger] outcomes[k],
            ) by {
                if k < i {
                    assert(outcomes[k] == before[k]);
                }
            }
        }
        if better {
            best = i;
        }
        i = i + 1;
    }
    proof {
        assert(scan_answers(candidates@, prefers, outcomes));
    }
    best
}

proof fn lemma_running_best_prefix(a: Seq<bool>, b: Seq<bool>, k: int)
    requires
        0 <= k <= a.len() <= b.len(),
        forall|j: int| 0 <= j < a.len() ==> a[j] == b[j],
    ensures
        running_best(a, k) == running_best(b, k),
    decreases k,
{
    if k > 0 {
        lemma_running_best_prefix(a, b, k - 1);
    }
}

/// Where the preference is a strict weak order `better` that `prefers` answers, the scan
/// picks the first most preferred candidate: no candidate is better than it, and it is
/// better than every candidate before it.
pub proof fn lemma_scan_picks_first_best<P>(candidates: Seq<P>, better: spec_fn(P, P) -> bool, outcomes: Seq<bool>)
    requires
        candidates.len() > 0,
        outcomes.len() == candidates.len(),
        forall|i: int|
            0 <= i < outcomes.len() ==> #[trigger] outcomes[i] == better(
                candidates[i],
                candidates[running_best(outcomes, i)],
            ),
        forall|a: P| #![trigger better(a, a)] !better(a, a),
        forall|a: P, b: P, c: P| #[trigger] better(a, b) && #[trigger] better(b, c) ==> better(a, c),
        forall|a: P, b: P, c: P|
            !#[trigger] better(a, b) && !#[trigger] better(b, c) ==> !better(a, c),
    ensures
        forall|j: int|
            0 <= j < candidates.len() ==> !better(
                #[trigger] candidates[j],
                candidates[running_best(outcomes, candidates.len() as int)],
            ),
        forall|j: int|
            0 <= j < running_best(outcomes, candidates.len() as int) ==> better(
                candidates[running_best(outcomes, candidates.len() as int)],
                #[trigger] candidates[j],
            ),
{
    lemma_scan_best_upto(candidates, better, outcomes, candidates.len() as int);
}

proof fn lemma_scan_best_upto<P>(candidates: Seq<P>, better: spec_fn(P, P) -> bool, outcomes: Seq<bool>, n: int)
    requires
        0 < n <= candidates.len(),
        outcomes.len() == candidates.len(),
        forall|i: int|
            0 <= i < outcomes.len() ==> #[trigger] outcomes[i] == better(
                candidates[i],
                candidates[running_best(outcomes, i)],
            ),
        forall|a: P| #![trigger better(a, a)] !better(a, a),
        forall|a: P, b: P, c: P| #[trigger] better(a, b) && #[trigger] better(b, c) ==> better(a, c),
        forall|a: P, b: P, c: P|
            !#[trigger] better(a, b) && !#[trigger] better(b, c) ==> !better(a, c),
    ensures
        0 <= running_best(outcomes, n) < n,
        forall|j: int| 0 <= j < n ==> !better(#[trigger] candidates[j], candidates[running_best(outcomes, n)]),
        forall|j: int|
            0 <= j < running_best(outcomes, n) ==> better(
                candidates[running_best(outcomes, n)],
                #[trigger] candidates[j],
            ),
    decreases n,
{
    let i = n - 1;
    if n == 1 {
        assert(running_best(outcomes, 0) == 0);
        if outcomes[0] {
            assert(better(candidates[0], candidates[0]));
        }
    } else {
        lemma_scan_best_upto(candidates, better, outcomes, n - 1);
        let b = running_best(outcomes, n - 1);
        let ci = candidates[i];
        let cb = candidates[b];
        if outcomes[i] {
            assert(better(ci, cb));
            assert forall|j: int| 0 <= j < i implies better(ci, candidates[j]) by {
                let cj = candidates[j];
                assert(!better(cj, cb));
                if !better(ci, cj) {
                    assert(!better(ci, cj) && !better(cj, cb) ==> !better(ci, cb));
                }
            }
            assert forall|j: int| 0 <= j < n implies !better(candidates[j], ci) by {
                let cj = candidates[j];
                if j < i {
                    if better(cj, ci) {
                        assert(better(ci, cj));
                        assert(better(cj, ci) && better(ci, cj) ==> better(cj, cj));
                    }
                }
            }
        } else {
            assert(!better(ci, cb));
        }
    }
}

/// A channel that sent a rekey cannot rekey again before the peer offers new components.
pub proof fn lemma_no_rekey_twice<R, P, S>(c: ChannelView<R, P, S>, r: R, next: Seq<S>)
    ensures
        !can_rekey(
            ChannelView {
                send_ratchet: r,
                pending_public_components: None::<Seq<P>>,
                own_private_component: c.own_private_component.push(next),
                ..c
            },
        ),
{
}

} // verus!
