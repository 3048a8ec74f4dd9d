//! Routing of incoming messages to the listeners that wait for them.
//!
//! Listeners are kept ordered by priority, smallest first. An incoming message goes to
//! the first listener whose channel is open and whose filters all accept it; listeners
//! whose channel has closed are dropped after a message that saw them.

use tokio::sync::mpsc::Sender;
use vstd::prelude::*;
use vstd::utf8::encode_utf8;

use crate::fcp::decode_error::DecodeErrorView;
use crate::fcp::model::field_values::field_identifier;
use crate::fcp::model::fields::field_value;
use crate::fcp::model::message::{Message, MessageView};
use crate::fcp::model::message_type_identifier::{MessageType, NodeMessageType};
use crate::fcp::model::unique_identifier::{
    encoded_nonce_length, identifier_text, lemma_identifier_text_roundtrip, separator_free,
    UniqueIdentifier,
};

verus! {

#[verifier::external_type_specification]
#[verifier::external_body]
#[verifier::reject_recursive_types(T)]
pub struct ExSender<T>(Sender<T>);

/// `Sender::is_closed`: whether the receiving side of the channel has gone away. The
/// answer depends on what the receiver did before the call, so nothing is promised of it.
#[verifier::external_body]
fn channel_is_closed(sender: &Sender<Message>) -> (res: bool) {
    sender.is_closed()
}

/// A condition on incoming messages.
pub enum MessageFilter {
    /// The message's `Identifier` field reads as this request identifier.
    Identity(UniqueIdentifier),
    /// The message is a node message of this type.
    Type(NodeMessageType),
}

/// The mathematical value of a [`MessageFilter`].
pub enum FilterView {
    Identity((Seq<char>, Seq<char>)),
    Type(NodeMessageType),
}

impl View for MessageFilter {
    type V = FilterView;

    open spec fn view(&self) -> FilterView {
        match self {
            MessageFilter::Identity(id) => FilterView::Identity(id@),
            MessageFilter::Type(t) => FilterView::Type(*t),
        }
    }
}

/// Whether a filter accepts a message.
pub open spec fn filter_matches(f: FilterView, m: MessageView) -> bool {
    match f {
        FilterView::Identity(id) => field_identifier(m.fields, "Identifier"@) matches Ok(x) && x
            == id,
        FilterView::Type(t) => m.message_type == MessageType::Node(t),
    }
}

/// A filter for a request accepts a message whose first `Identifier` field holds the
/// request's identifier text, when no separator starts inside the identifier's name.
pub proof fn lemma_identity_filter_accepts_own_identifier(id: (Seq<char>, Seq<char>), m: MessageView)
    requires
        separator_free(id.0),
        encode_utf8(id.1).len() == encoded_nonce_length(),
        field_value(m.fields, "Identifier"@) == Ok::<Seq<char>, DecodeErrorView>(
            identifier_text(id.0, id.1),
        ),
    ensures
        filter_matches(FilterView::Identity(id), m),
{
    lemma_identifier_text_roundtrip(id.0, id.1);
}

/// A filter that accepts the messages about the request `identity`.
pub fn identity_filter(identity: UniqueIdentifier) -> (res: MessageFilter)
    ensures
        res@ == FilterView::Identity(identity@),
{
    MessageFilter::Identity(identity)
}

/// A filter that accepts the node messages of type `aim_message_type`.
pub fn type_filter(aim_message_type: NodeMessageType) -> (res: MessageFilter)
    ensures
        res@ == FilterView::Type(aim_message_type),
{
    MessageFilter::Type(aim_message_type)
}

impl MessageFilter {
    /// Whether the filter accepts `message`.
    pub fn matches(&self, message: &Message) -> (res: bool)
        ensures
            res == filter_matches(self@, message@),
    {
        match self {
            MessageFilter::Identity(identity) => match message.fields().get("Identifier") {
                Ok(field) => match UniqueIdentifier::try_from_str(field.value()) {
                    Ok(found) => found.same_as(identity),
                    Err(_) => false,
                },
                Err(_) => false,
            },
            MessageFilter::Type(t) => match message.message_type() {
                MessageType::Node(found) => found == *t,
                MessageType::Client(_) => false,
            },
        }
    }
}

/// Someone waiting for messages: the filters a message must pass, the priority among
/// listeners (smaller goes first) and the channel the message is sent on.
pub struct Listener {
    filters: Vec<MessageFilter>,
    priority: i8,
    notify: Sender<Message>,
    marked_for_deletion: bool,
}

/// The mathematical value of a [`Listener`]; its channel is left out.
pub struct ListenerView {
    pub filters: Seq<FilterView>,
    pub priority: i8,
    pub marked_for_deletion: bool,
}

impl View for Listener {
    type V = ListenerView;

    closed spec fn view(&self) -> ListenerView {
        ListenerView {
            filters: self.filters@.map_values(|f: MessageFilter| f@),
            priority: self.priority,
            marked_for_deletion: self.marked_for_deletion,
        }
    }
}

/// Whether a listener takes a message: it is not marked for deletion and every one of
/// its filters accepts the message.
pub open spec fn listener_accepts(l: ListenerView, m: MessageView) -> bool {
    !l.marked_for_deletion && forall|i: int| 0 <= i < l.filters.len() ==> filter_matches(
        #[trigger] l.filters[i],
        m,
    )
}

impl Listener {
    /// The priority of listeners that have no reason to go first or last.
    pub const DEFAULT_PRIORITY: i8 = 0;

    /// The channel on which the listener is sent its messages.
    pub closed spec fn channel(&self) -> Sender<Message> {
        self.notify
    }

    pub fn new(filters: Vec<MessageFilter>, priority: i8, notify: Sender<Message>) -> (res: Listener)
        ensures
            res@.filters == filters@.map_values(|f: MessageFilter| f@),
            res@.priority == priority,
            !res@.marked_for_deletion,
            res.channel() == notify,
    {
        Listener { filters, priority, notify, marked_for_deletion: false }
    }

    pub fn priority(&self) -> (res: i8)
        ensures
            res == self@.priority,
    {
        self.priority
    }

    /// Whether the listener takes `message`.
    pub fn filter(&self, message: &Message) -> (res: bool)
        ensures
            res == listener_accepts(self@, message@),
    {
        if self.marked_for_deletion {
            return false;
        }
        let mut i: usize = 0;
        while i < self.filters.len()
            invariant
                i <= self.filters.len(),
                self@.filters == self.filters@.map_values(|f: MessageFilter| f@),
                forall|j: int| 0 <= j < i ==> filter_matches(#[trigger] self@.filters[j], message@),
            decreases self.filters.len() - i,
        {
            if !self.filters[i].matches(message) {
                assert(!filter_matches(self@.filters[i as int], message@));
                return false;
            }
            i = i + 1;
        }
        true
    }

    /// Whether the listener's channel has closed, so that it can be dropped.
    pub fn is_marked_for_delete(&self) -> (res: bool) {
        channel_is_closed(&self.notify)
    }

    /// The channel on which the listener is sent its messages.
    pub fn notify(&self) -> (res: &Sender<Message>)
        ensures
            *res == self.channel(),
    {
        &self.notify
    }
}

/// Whether listeners are ordered by priority, smallest first.
pub open spec fn sorted_by_priority(ls: Seq<ListenerView>) -> bool {
    forall|i: int, j: int| 0 <= i <= j < ls.len() ==> ls[i].priority <= ls[j].priority
}

/// Where a listener of priority `p` is inserted: before the first listener whose
/// priority is not smaller.
pub open spec fn insert_position(ls: Seq<ListenerView>, p: i8) -> int
    decreases ls.len(),
{
    if ls.len() == 0 {
        0
    } else if ls[0].priority >= p {
        0
    } else {
        1 + insert_position(ls.drop_first(), p)
    }
}

/// The listener a message goes to, searching from `i`: the first that is open (its
/// `closed` flag is unset) and accepts the message.
pub open spec fn route_from(ls: Seq<ListenerView>, closed: Seq<bool>, m: MessageView, i: int) -> Option<int>
    decreases ls.len() - i,
{
    if i < 0 || i >= ls.len() {
        None
    } else if !closed[i] && listener_accepts(ls[i], m) {
        Some(i)
    } else {
        route_from(ls, closed, m, i + 1)
    }
}

/// The listener a message goes to.
pub open spec fn route_target(ls: Seq<ListenerView>, closed: Seq<bool>, m: MessageView) -> Option<int> {
    route_from(ls, closed, m, 0)
}

/// Whether a closed listener was seen while routing: among the listeners up to the target,
/// or among all of them where there is none.
pub open spec fn saw_closed(ls: Seq<ListenerView>, closed: Seq<bool>, m: MessageView) -> bool {
    let limit = match route_target(ls, closed, m) {
        Some(i) => i + 1,
        None => ls.len() as int,
    };
    exists|j: int| 0 <= j < limit && closed[j]
}

/// The listeners that stay when the closed ones are dropped, in order.
pub open spec fn kept(ls: Seq<ListenerView>, closed: Seq<bool>) -> Seq<ListenerView>
    decreases ls.len(),
{
    if ls.len() == 0 {
        Seq::empty()
    } else {
        let rest = kept(ls.drop_last(), closed.take(ls.len() - 1));
        if closed[ls.len() - 1] {
            rest
        } else {
            rest.push(ls.last())
        }
    }
}

/// Where a message goes, and whether closed listeners should be dropped afterwards.
pub struct Routing {
    pub target: Option<usize>,
    pub prune: bool,
}

/// The listeners of a connection, ordered by priority.
pub struct ListenerRegistry {
    listeners: Vec<Listener>,
}

impl View for ListenerRegistry {
    type V = Seq<ListenerView>;

    closed spec fn view(&self) -> Seq<ListenerView> {
        self.listeners@.map_values(|l: Listener| l@)
    }
}

impl ListenerRegistry {
    /// The listeners themselves, in order.
    pub closed spec fn members(&self) -> Seq<Listener> {
        self.listeners@
    }

    /// Whether the listeners are ordered by priority.
    pub open spec fn wf(&self) -> bool {
        sorted_by_priority(self@)
    }

    pub fn new() -> (res: ListenerRegistry)
        ensures
            res@ == Seq::<ListenerView>::empty(),
            res.wf(),
    {
        let res = ListenerRegistry { listeners: Vec::new() };
        assert(res@ =~= Seq::<ListenerView>::empty());
        res
    }

    pub fn len(&self) -> (res: usize)
        ensures
            res == self@.len(),
    {
        self.listeners.len()
    }

    /// The listener at `index`.
    pub fn listener(&self, index: usize) -> (res: &Listener)
        requires
            index < self@.len(),
        ensures
            res@ == self@[index as int],
    {
        &self.listeners[index]
    }

    /// Adds a listener before the first one whose priority is not smaller than its own.
    pub fn add_listener(&mut self, listener: Listener)
        requires
            old(self).wf(),
        ensures
            final(self)@ == old(self)@.insert(insert_position(old(self)@, listener@.priority), listener@),
            final(self).wf(),
    {
        let ghost ls = self@;
        let ghost p = listener@.priority;
        let mut cursor: usize = 0;
        assert(ls.skip(0) =~= ls);
        while cursor < self.listeners.len() && self.listeners[cursor].priority() < listener.priority()
            invariant
                cursor <= self.listeners.len(),
                self@ == ls,
                p == listener@.priority,
                insert_position(ls, p) == cursor + insert_position(ls.skip(cursor as int), p),
            decreases self.listeners.len() - cursor,
        {
            assert(ls.skip(cursor as int)[0] == ls[cursor as int]);
            assert(ls.skip(cursor as int).drop_first() =~= ls.skip(cursor + 1));
            cursor = cursor + 1;
        }
        if cursor < self.listeners.len() {
            assert(ls.skip(cursor as int)[0] == ls[cursor as int]);
        }
        proof {
            lemma_insert_position(ls, p);
        }
        self.listeners.insert(cursor, listener);
        assert(self@ =~= ls.insert(cursor as int, listener@));
        proof {
            lemma_insert_sorted(ls, cursor as int, listener@);
        }
    }

    /// Asks each listener's channel whether it has closed.
    pub fn closed_flags(&self) -> (res: Vec<bool>)
        ensures
            res@.len() == self@.len(),
            forall|i: int|
                0 <= i < res@.len() ==> call_ensures(
                    Listener::is_marked_for_delete,
                    (&self.members()[i],),
                    #[trigger] res@[i],
                ),
    {
        let ask = Listener::is_marked_for_delete;
        let mut flags: Vec<bool> = Vec::new();
        let mut i: usize = 0;
        while i < self.listeners.len()
            invariant
                i <= self.listeners.len(),
                flags@.len() == i,
                forall|j: int|
                    0 <= j < i ==> call_ensures(
                        Listener::is_marked_for_delete,
                        (&self.members()[j],),
                        #[trigger] flags@[j],
                    ),
            decreases self.listeners.len() - i,
        {
            let closed = ask(&self.listeners[i]);
            flags.push(closed);
            i = i + 1;
        }
        flags
    }

    /// Where `message` goes, given which listeners' channels are closed.
    pub fn route(&self, message: &Message, closed: &Vec<bool>) -> (res: Routing)
        requires
            closed@.len() == self@.len(),
        ensures
            res.target matches Some(i) ==> route_target(self@, closed@, message@) == Some(i as int),
            res.target is None ==> route_target(self@, closed@, message@) is None,
            res.prune == saw_closed(self@, closed@, message@),
    {
        let mut saw: bool = false;
        let mut i: usize = 0;
        while i < self.listeners.len()
            invariant
                i <= self.listeners.len(),
                closed@.len() == self@.len(),
                route_target(self@, closed@, message@) == route_from(self@, closed@, message@, i as int),
                saw == exists|j: int| 0 <= j < i && closed@[j],
            decreases self.listeners.len() - i,
        {
            if closed[i] {
                saw = true;
            } else if self.listeners[i].filter(message) {
                assert(exists|j: int| 0 <= j < i + 1 && closed@[j] <==> saw);
                return Routing { target: Some(i), prune: saw };
            }
            assert(saw == exists|j: int| 0 <= j < i + 1 && closed@[j]);
            i = i + 1;
        }
        Routing { target: None, prune: saw }
    }

    /// Drops the listeners whose channel is closed, keeping the order of the others.
    pub fn prune(&mut self, closed: &Vec<bool>)
        requires
            closed@.len() == old(self)@.len(),
            old(self).wf(),
        ensures
            final(self)@ == kept(old(self)@, closed@),
            final(self).wf(),
    {
        let ghost ls = self@;
        let mut read: usize = 0;
        let mut write: usize = 0;
        assert(ls.take(0) =~= Seq::<ListenerView>::empty());
        assert(ls.skip(0) =~= ls);
        assert(self@ =~= kept(ls.take(0), closed@.take(0)) + ls.skip(0));
        while read < closed.len()
            invariant
                read <= closed@.len(),
                closed@.len() == ls.len(),
                write == kept(ls.take(read as int), closed@.take(read as int)).len(),
                self@ == kept(ls.take(read as int), closed@.take(read as int)) + ls.skip(read as int),
            decreases closed@.len() - read,
        {
            let ghost before = kept(ls.take(read as int), closed@.take(read as int));
            assert(ls.take(read + 1).drop_last() =~= ls.take(read as int));
            assert(closed@.take(read + 1).take(read as int) =~= closed@.take(read as int));
            assert(ls.skip(read as int)[0] == ls[read as int]);
            assert(ls.take(read + 1).len() == read + 1);
            assert(kept(ls.take(read + 1), closed@.take(read + 1)) == if closed@[read as int] {
                before
            } else {
                before.push(ls[read as int])
            });
            if closed[read] {
                let ghost vec_before = self.listeners@;
                let ghost view_before = self@;
                assert(self@.len() == before.len() + ls.skip(read as int).len());
                self.listeners.remove(write);
                assert(self.listeners@ == vec_before.remove(write as int));
                assert forall|k: int| 0 <= k < self@.len() implies #[trigger] self@[k] == if k < write {
                    view_before[k]
                } else {
                    view_before[k + 1]
                } by {
                    if k < write {
                        assert(self.listeners@[k] == vec_before[k]);
                    } else {
                        assert(self.listeners@[k] == vec_before[k + 1]);
                    }
                }
                assert(self@ =~= before + ls.skip(read + 1));
            } else {
                assert(self@ =~= before.push(ls[read as int]) + ls.skip(read + 1));
                let n: usize = self.listeners.len();
                assert(write < n);
                write = write + 1;
            }
            read = read + 1;
        }
        assert(ls.take(read as int) =~= ls);
        assert(closed@.take(read as int) =~= closed@);
        assert(self@ =~= kept(ls, closed@));
        proof {
            lemma_kept_sorted(ls, closed@);
        }
    }
}

proof fn lemma_route_from(ls: Seq<ListenerView>, closed: Seq<bool>, m: MessageView, i: int)
    requires
        0 <= i,
    ensures
        route_from(ls, closed, m, i) matches Some(t) ==> {
            &&& i <= t < ls.len()
            &&& !closed[t]
            &&& listener_accepts(ls[t], m)
            &&& forall|k: int| i <= k < t ==> closed[k] || !listener_accepts(#[trigger] ls[k], m)
        },
        route_from(ls, closed, m, i) is None ==> forall|k: int|
            i <= k < ls.len() ==> closed[k] || !listener_accepts(#[trigger] ls[k], m),
    decreases ls.len() - i,
{
    if i < ls.len() && !(!closed[i] && listener_accepts(ls[i], m)) {
        lemma_route_from(ls, closed, m, i + 1);
    }
}

/// A message goes to the first open listener that takes it, so to one of the smallest
/// priority among those: listeners of smaller priority go first.
pub proof fn lemma_route_prefers_smaller_priority(ls: Seq<ListenerView>, closed: Seq<bool>, m: MessageView)
    requires
        sorted_by_priority(ls),
        closed.len() == ls.len(),
    ensures
        route_target(ls, closed, m) matches Some(t) ==> forall|j: int|
            0 <= j < ls.len() && !closed[j] && listener_accepts(#[trigger] ls[j], m) ==> t <= j
                && ls[t].priority <= ls[j].priority,
        route_target(ls, closed, m) is None ==> forall|j: int|
            0 <= j < ls.len() ==> closed[j] || !listener_accepts(#[trigger] ls[j], m),
{
    lemma_route_from(ls, closed, m, 0);
}

/// A message goes only to a listener whose own channel answered that it is open: where
/// each flag is what its own listener's channel answered, as `closed_flags` gives them,
/// the routed listener's channel answered `false`, and it takes the message.
pub proof fn lemma_routed_listener_is_open(reg: ListenerRegistry, closed: Seq<bool>, m: MessageView)
    requires
        closed.len() == reg@.len(),
        forall|i: int|
            0 <= i < closed.len() ==> call_ensures(
                Listener::is_marked_for_delete,
                (&reg.members()[i],),
                #[trigger] closed[i],
            ),
    ensures
        route_target(reg@, closed, m) matches Some(t) ==> call_ensures(
            Listener::is_marked_for_delete,
            (&reg.members()[t],),
            false,
        ) && listener_accepts(reg@[t], m),
{
    lemma_route_from(reg@, closed, m, 0);
}

/// Where the insertion position lies: every listener before it has a smaller priority,
/// and the one at it, if any, does not.
pub proof fn lemma_insert_position(ls: Seq<ListenerView>, p: i8)
    ensures
        0 <= insert_position(ls, p) <= ls.len(),
        forall|j: int| 0 <= j < insert_position(ls, p) ==> ls[j].priority < p,
        insert_position(ls, p) < ls.len() ==> ls[insert_position(ls, p)].priority >= p,
    decreases ls.len(),
{
    if ls.len() > 0 && ls[0].priority < p {
        lemma_insert_position(ls.drop_first(), p);
        assert forall|j: int| 0 <= j < insert_position(ls, p) implies ls[j].priority < p by {
            if j > 0 {
                assert(ls[j] == ls.drop_first()[j - 1]);
            }
        }
    }
}

proof fn lemma_insert_sorted(ls: Seq<ListenerView>, pos: int, l: ListenerView)
    requires
        sorted_by_priority(ls),
        0 <= pos <= ls.len(),
        forall|j: int| 0 <= j < pos ==> ls[j].priority < l.priority,
        pos < ls.len() ==> ls[pos].priority >= l.priority,
    ensures
        sorted_by_priority(ls.insert(pos, l)),
{
    let r = ls.insert(pos, l);
    assert forall|i: int, j: int| 0 <= i <= j < r.len() implies r[i].priority <= r[j].priority by {
        if i < pos && j > pos {
            assert(ls[i].priority <= ls[j - 1].priority);
        } else if i == pos && j > pos {
            assert(ls[pos].priority <= ls[j - 1].priority);
        }
    }
}

/// Every listener that stays was among the listeners, and they stay in order.
proof fn lemma_kept_sorted(ls: Seq<ListenerView>, closed: Seq<bool>)
    requires
        sorted_by_priority(ls),
        closed.len() == ls.len(),
    ensures
        sorted_by_priority(kept(ls, closed)),
        forall|k: int| 0 <= k < kept(ls, closed).len() ==> exists|j: int| 0 <= j < ls.len() && #[trigger] kept(ls, closed)[k] == ls[j],
    decreases ls.len(),
{
    if ls.len() > 0 {
        let rest = ls.drop_last();
        let cl = closed.take(ls.len() - 1);
        assert(sorted_by_priority(rest));
        lemma_kept_sorted(rest, cl);
        let k0 = kept(rest, cl);
        assert forall|k: int| 0 <= k < k0.len() implies exists|j: int| 0 <= j < ls.len() && #[trigger] k0[k] == ls[j] by {
            let j = choose|j: int| 0 <= j < rest.len() && k0[k] == rest[j];
            assert(k0[k] == ls[j]);
        }
        if !closed[ls.len() - 1] {
            let r = k0.push(ls.last());
            assert forall|a: int, b: int| 0 <= a <= b < r.len() implies r[a].priority <= r[b].priority by {
                if b == r.len() - 1 && a < b {
                    let j = choose|j: int| 0 <= j < rest.len() && k0[a] == rest[j];
                    assert(ls[j].priority <= ls[ls.len() - 1].priority);
                }
            }
            assert forall|k: int| 0 <= k < r.len() implies exists|j: int| 0 <= j < ls.len() && #[trigger] r[k] == ls[j] by {
                if k == r.len() - 1 {
                    assert(r[k] == ls[ls.len() - 1]);
                } else {
                    assert(r[k] == k0[k]);
                }
            }
        }
    }
}

} // verus!
