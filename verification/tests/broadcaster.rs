use craftlist::sender::{Broadcaster, CLIENT_BUFFER, PING_INTERVAL};
use std::cell::RefCell;
use std::rc::Rc;

/// A subscriber that keeps what was sent to it, and refuses everything once
/// its connection is closed.
#[derive(Debug, Clone)]
struct Inbox {
    frames: Rc<RefCell<Vec<String>>>,
    open: Rc<RefCell<bool>>,
}

impl Inbox {
    fn new() -> Self {
        Inbox { frames: Rc::new(RefCell::new(Vec::new())), open: Rc::new(RefCell::new(true)) }
    }

    fn close(&self) {
        *self.open.borrow_mut() = false;
    }

    fn send(&self, frame: &str) -> bool {
        if *self.open.borrow() {
            self.frames.borrow_mut().push(frame.to_owned());
            true
        } else {
            false
        }
    }

    fn received(&self) -> Vec<String> {
        self.frames.borrow().clone()
    }
}

fn connect(broadcaster: &mut Broadcaster<Inbox>) -> Inbox {
    let inbox = Inbox::new();
    let acknowledged = inbox.send("connected");
    assert!(broadcaster.new_client(inbox.clone(), acknowledged));
    inbox
}

fn broadcast(broadcaster: &Broadcaster<Inbox>, message: &str) -> usize {
    let recipients = broadcaster.broadcast();
    for client in &recipients {
        let _ = client.send(message);
    }
    recipients.len()
}

fn probe(broadcaster: &mut Broadcaster<Inbox>) {
    let delivered: Vec<bool> =
        broadcaster.clients().iter().map(|client| client.send(": ping")).collect();
    broadcaster.remove_stale_clients(&delivered);
}

#[test]
fn probe_period_and_buffer() {
    assert_eq!(PING_INTERVAL, 10);
    assert_eq!(CLIENT_BUFFER, 10);
}

#[test]
fn new_registry_is_empty() {
    let broadcaster: Broadcaster<Inbox> = Broadcaster::create();
    assert_eq!(broadcaster.len(), 0);
    assert!(broadcaster.broadcast().is_empty());
}

#[test]
fn two_subscribers_receive_one_copy_each() {
    let mut broadcaster = Broadcaster::create();
    let first = connect(&mut broadcaster);
    let second = connect(&mut broadcaster);
    assert_eq!(broadcast(&broadcaster, "M"), 2);
    assert_eq!(first.received(), vec!["connected", "M"]);
    assert_eq!(second.received(), vec!["connected", "M"]);
}

#[test]
fn subscriber_without_acknowledgement_is_not_registered() {
    let mut broadcaster = Broadcaster::create();
    let dead = Inbox::new();
    dead.close();
    let acknowledged = dead.send("connected");
    assert!(!broadcaster.new_client(dead, acknowledged));
    assert_eq!(broadcaster.len(), 0);
}

#[test]
fn probe_removes_the_one_subscriber_that_fails() {
    let mut broadcaster = Broadcaster::create();
    let inboxes: Vec<Inbox> = (0..4).map(|_| connect(&mut broadcaster)).collect();
    assert_eq!(broadcaster.len(), 4);
    inboxes[1].close();
    probe(&mut broadcaster);
    assert_eq!(broadcaster.len(), 3);
    assert_eq!(broadcast(&broadcaster, "M"), 3);
    assert_eq!(inboxes[0].received(), vec!["connected", ": ping", "M"]);
    assert_eq!(inboxes[1].received(), vec!["connected"]);
    assert_eq!(inboxes[2].received(), vec!["connected", ": ping", "M"]);
    assert_eq!(inboxes[3].received(), vec!["connected", ": ping", "M"]);
}

#[test]
fn broadcast_removes_nobody() {
    let mut broadcaster = Broadcaster::create();
    let first = connect(&mut broadcaster);
    let second = connect(&mut broadcaster);
    first.close();
    assert_eq!(broadcast(&broadcaster, "M"), 2);
    assert_eq!(broadcaster.len(), 2);
    assert_eq!(broadcast(&broadcaster, "N"), 2);
    assert_eq!(second.received(), vec!["connected", "M", "N"]);
    probe(&mut broadcaster);
    assert_eq!(broadcaster.len(), 1);
}

#[test]
fn probe_keeps_everyone_that_answers() {
    let mut broadcaster = Broadcaster::create();
    let _inboxes: Vec<Inbox> = (0..3).map(|_| connect(&mut broadcaster)).collect();
    probe(&mut broadcaster);
    assert_eq!(broadcaster.len(), 3);
}

#[test]
fn probe_removes_everyone_that_fails() {
    let mut broadcaster = Broadcaster::create();
    let inboxes: Vec<Inbox> = (0..3).map(|_| connect(&mut broadcaster)).collect();
    for inbox in &inboxes {
        inbox.close();
    }
    probe(&mut broadcaster);
    assert_eq!(broadcaster.len(), 0);
}

#[test]
fn subscriber_that_came_during_a_probe_stays() {
    let mut broadcaster: Broadcaster<u32> = Broadcaster::create();
    assert!(broadcaster.new_client(10, true));
    assert!(broadcaster.new_client(11, true));
    let probed = broadcaster.clients();
    assert_eq!(probed, vec![10, 11]);
    assert!(broadcaster.new_client(12, true));
    broadcaster.remove_stale_clients(&vec![false, true]);
    assert_eq!(broadcaster.broadcast(), vec![11, 12]);
}

#[test]
fn outcomes_beyond_the_registry_are_ignored() {
    let mut broadcaster: Broadcaster<u32> = Broadcaster::create();
    assert!(broadcaster.new_client(1, true));
    broadcaster.remove_stale_clients(&vec![true, false, false]);
    assert_eq!(broadcaster.broadcast(), vec![1]);
    broadcaster.remove_stale_clients(&Vec::new());
    assert_eq!(broadcaster.broadcast(), vec![1]);
}

#[test]
fn survivors_keep_their_order() {
    let mut broadcaster: Broadcaster<u32> = Broadcaster::create();
    for id in 0..6 {
        assert!(broadcaster.new_client(id, true));
    }
    broadcaster.remove_stale_clients(&vec![true, false, true, false, false, true]);
    assert_eq!(broadcaster.broadcast(), vec![0, 2, 5]);
}
