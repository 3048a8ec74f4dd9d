use mycelink::fcp::connector::{
    identity_filter, type_filter, Listener, ListenerRegistry, MessageFilter,
};
use mycelink::fcp::model::fields::{Field, Fields};
use mycelink::fcp::model::message::Message;
use mycelink::fcp::model::message_type_identifier::{ClientMessageType, MessageType, NodeMessageType};
use mycelink::fcp::model::unique_identifier::UniqueIdentifier;
use tokio::sync::mpsc::{channel, Receiver};

fn id(name: &str) -> UniqueIdentifier {
    UniqueIdentifier::from_nonce_bytes(name.into(), [7u8; 32])
}

fn message(t: NodeMessageType, identifier: Option<&UniqueIdentifier>) -> Message {
    let fields = match identifier {
        Some(i) => vec![Field::new("Identifier".into(), i.to_text())],
        None => vec![],
    };
    Message::new(MessageType::Node(t), Fields::from_vec(fields), None)
}

fn listener(filters: Vec<MessageFilter>, priority: i8) -> (Listener, Receiver<Message>) {
    let (tx, rx) = channel(4);
    (Listener::new(filters, priority, tx), rx)
}

#[test]
fn identity_filter_accepts_messages_about_its_request() {
    let mine = id("mine");
    let other = id("other");
    let filter = identity_filter(mine.duplicate());
    assert!(filter.matches(&message(NodeMessageType::AllData, Some(&mine))));
    assert!(!filter.matches(&message(NodeMessageType::AllData, Some(&other))));
    assert!(!filter.matches(&message(NodeMessageType::AllData, None)));
    let garbled = Message::new(
        MessageType::Node(NodeMessageType::AllData),
        Fields::from_vec(vec![Field::new("Identifier".into(), "mine".into())]),
        None,
    );
    assert!(!filter.matches(&garbled));
}

#[test]
fn type_filter_accepts_one_node_type() {
    let filter = type_filter(NodeMessageType::NodeHello);
    assert!(filter.matches(&message(NodeMessageType::NodeHello, None)));
    assert!(!filter.matches(&message(NodeMessageType::AllData, None)));
    let client = Message::new(
        MessageType::Client(ClientMessageType::ClientHello),
        Fields::from_vec(vec![]),
        None,
    );
    assert!(!filter.matches(&client));
}

#[test]
fn a_listener_takes_a_message_only_if_every_filter_does() {
    let mine = id("mine");
    let (l, _rx) = listener(
        vec![identity_filter(mine.duplicate()), type_filter(NodeMessageType::DataFound)],
        Listener::DEFAULT_PRIORITY,
    );
    assert_eq!(l.priority(), 0);
    assert!(l.filter(&message(NodeMessageType::DataFound, Some(&mine))));
    assert!(!l.filter(&message(NodeMessageType::AllData, Some(&mine))));
    let (any, _rx2) = listener(vec![], 3);
    assert!(any.filter(&message(NodeMessageType::AllData, None)));
}

#[test]
fn listeners_are_kept_in_priority_order() {
    let mut registry = ListenerRegistry::new();
    let (a, _ra) = listener(vec![], 5);
    let (b, _rb) = listener(vec![], -2);
    let (c, _rc) = listener(vec![], 5);
    let (d, _rd) = listener(vec![], 0);
    registry.add_listener(a);
    registry.add_listener(b);
    registry.add_listener(c);
    registry.add_listener(d);
    let priorities: Vec<i8> = (0..registry.len()).map(|i| registry.listener(i).priority()).collect();
    assert_eq!(priorities, vec![-2, 0, 5, 5]);
}

#[test]
fn a_message_goes_to_the_first_open_listener_that_takes_it() {
    let mut registry = ListenerRegistry::new();
    let (hello, _r0) = listener(vec![type_filter(NodeMessageType::NodeHello)], -1);
    let (first, _r1) = listener(vec![], 0);
    let (second, _r2) = listener(vec![], 1);
    registry.add_listener(second);
    registry.add_listener(first);
    registry.add_listener(hello);
    let m = message(NodeMessageType::AllData, None);
    let open = vec![false, false, false];
    let routing = registry.route(&m, &open);
    assert_eq!(routing.target, Some(1));
    assert!(!routing.prune);
    let routing = registry.route(&m, &vec![false, true, false]);
    assert_eq!(routing.target, Some(2));
    assert!(routing.prune);
    let routing = registry.route(&message(NodeMessageType::NodeHello, None), &vec![false, true, true]);
    assert_eq!(routing.target, Some(0));
    assert!(!routing.prune);
    let routing = registry.route(&m, &vec![false, true, true]);
    assert_eq!(routing.target, None);
    assert!(routing.prune);
}

#[test]
fn closed_listeners_are_dropped_in_order() {
    let mut registry = ListenerRegistry::new();
    let (a, ra) = listener(vec![], 1);
    let (b, _rb) = listener(vec![], 2);
    let (c, rc) = listener(vec![], 3);
    registry.add_listener(a);
    registry.add_listener(b);
    registry.add_listener(c);
    drop(ra);
    drop(rc);
    let closed = registry.closed_flags();
    assert_eq!(closed, vec![true, false, true]);
    assert!(registry.listener(0).is_marked_for_delete());
    registry.prune(&closed);
    assert_eq!(registry.len(), 1);
    assert_eq!(registry.listener(0).priority(), 2);
}

#[test]
fn the_chosen_listener_receives_on_its_channel() {
    let mut registry = ListenerRegistry::new();
    let (l, mut rx) = listener(vec![type_filter(NodeMessageType::AllData)], 0);
    registry.add_listener(l);
    let m = message(NodeMessageType::AllData, None);
    let routing = registry.route(&m, &registry.closed_flags());
    let target = routing.target.unwrap();
    registry.listener(target).notify().try_send(m).unwrap();
    let received = rx.try_recv().unwrap();
    assert!(received.message_type() == MessageType::Node(NodeMessageType::AllData));
}

#[test]
fn an_identity_filter_accepts_its_own_identifier_text() {
    for name in ["Put Test", "", "a-b", "x -y"] {
        let mine = UniqueIdentifier::from_nonce_bytes(name.into(), [3u8; 32]);
        let m = message(NodeMessageType::PutFailed, Some(&mine));
        assert!(identity_filter(mine.duplicate()).matches(&m), "{name}");
    }
}
