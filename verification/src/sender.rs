//! The registry of connected subscribers: who is sent a message, and who
//! stays after a liveness probe.

use vstd::prelude::*;

verus! {

/// Seconds between two liveness probes.
pub const PING_INTERVAL: u64 = 10;

/// Frames that the channel of one subscriber holds before a send fails.
pub const CLIENT_BUFFER: usize = 10;

/// The text of the frame that acknowledges a new connection.
pub const CONNECTED: &'static str = "connected";

/// The text of the keep-alive comment that a liveness probe sends.
pub const PING: &'static str = "ping";

/// The subscribers that stay after a liveness probe: `delivered[i]` tells
/// whether the keep-alive frame reached `clients[i]`. A subscriber without an
/// entry in `delivered` was not probed and stays.
pub open spec fn survivors<S>(clients: Seq<S>, delivered: Seq<bool>) -> Seq<S>
    decreases clients.len(),
{
    if clients.len() == 0 {
        clients
    } else {
        let earlier = survivors(clients.drop_last(), delivered);
        let last = clients.len() - 1;
        if last < delivered.len() && !delivered[last] {
            earlier
        } else {
            earlier.push(clients.last())
        }
    }
}

/// `recipients` is a copy of `registry`, subscriber by subscriber.
pub open spec fn reaches<S: Clone>(registry: Seq<S>, recipients: Seq<S>) -> bool {
    &&& recipients.len() == registry.len()
    &&& forall|i: int| 0 <= i < registry.len() ==> cloned(registry[i], #[trigger] recipients[i])
}

/// The registry of connected subscribers, in the order in which they came.
pub struct Broadcaster<S> {
    clients: Vec<S>,
}

impl<S> View for Broadcaster<S> {
    type V = Seq<S>;

    closed spec fn view(&self) -> Seq<S> {
        self.clients@
    }
}

impl<S> Broadcaster<S> {
    /// A registry without subscribers.
    pub fn create() -> (broadcaster: Self)
        ensures
            broadcaster@ == Seq::<S>::empty(),
    {
        Broadcaster { clients: Vec::new() }
    }

    /// The number of registered subscribers.
    pub fn len(&self) -> (n: usize)
        ensures
            n == self@.len(),
    {
        self.clients.len()
    }

    /// Registers `client` after the others if the acknowledgement of its
    /// connection reached it, and not at all if it did not.
    pub fn new_client(&mut self, client: S, acknowledged: bool) -> (registered: bool)
        ensures
            registered == acknowledged,
            acknowledged ==> final(self)@ == old(self)@.push(client),
            !acknowledged ==> final(self)@ == old(self)@,
    {
        if acknowledged {
            self.clients.push(client);
        }
        acknowledged
    }

    /// A copy of the registered subscribers, in their order. A liveness
    /// probe sends its keep-alive frame to each of them.
    pub fn clients(&self) -> (copy: Vec<S>) where S: Clone
        ensures
            reaches(self@, copy@),
    {
        self.clients.clone()
    }

    /// The subscribers that a message is to be sent to: a copy of every one
    /// registered now. The registry stays as it is, whatever becomes of the
    /// sends.
    pub fn broadcast(&self) -> (recipients: Vec<S>) where S: Clone
        ensures
            reaches(self@, recipients@),
    {
        self.clients()
    }

    /// Ends a liveness probe: `delivered[i]` tells whether the keep-alive
    /// frame reached the subscriber at index `i`. Those that it did not
    /// reach leave the registry; those that came after the probe began stay.
    pub fn remove_stale_clients(&mut self, delivered: &Vec<bool>)
        ensures
            final(self)@ == survivors(old(self)@, delivered@),
    {
        let mut clients: Vec<S> = Vec::new();
        std::mem::swap(&mut clients, &mut self.clients);
        let ghost probed = clients@;
        let total = clients.len();
        let mut ok_clients: Vec<S> = Vec::new();
        let mut i: usize = 0;
        for client in it: clients
            invariant
                it.seq() == probed,
                probed.len() == total,
                i == it.index(),
                ok_clients@ == survivors(probed.take(i as int), delivered@),
        {
            assert(probed.take(i + 1).drop_last() == probed.take(i as int));
            if i >= delivered.len() || delivered[i] {
                ok_clients.push(client);
            }
            i += 1;
        }
        assert(probed.take(probed.len() as int) == probed);
        self.clients = ok_clients;
    }
}

/// A probe adds nobody and keeps the order: the survivors are subscribers
/// that were registered, none of them twice if none was before, and each
/// subscriber that the probe reached or did not ask is among them.
pub proof fn lemma_survivors_were_registered<S>(clients: Seq<S>, delivered: Seq<bool>)
    ensures
        survivors(clients, delivered).len() <= clients.len(),
        forall|x: S| #[trigger] survivors(clients, delivered).contains(x) ==> clients.contains(x),
        clients.no_duplicates() ==> survivors(clients, delivered).no_duplicates(),
        forall|i: int|
            0 <= i < clients.len() && (i >= delivered.len() || delivered[i]) ==> survivors(
                clients,
                delivered,
            ).contains(#[trigger] clients[i]),
        clients.no_duplicates() ==> forall|i: int|
            0 <= i < clients.len() && i < delivered.len() && !delivered[i] ==> !survivors(
                clients,
                delivered,
            ).contains(#[trigger] clients[i]),
    decreases clients.len(),
{
    if clients.len() > 0 {
        let earlier_clients = clients.drop_last();
        let earlier = survivors(earlier_clients, delivered);
        let after = survivors(clients, delivered);
        let last = clients.len() - 1;
        lemma_survivors_were_registered(earlier_clients, delivered);
        assert forall|x: S| earlier.contains(x) implies clients.contains(x) by {
            let k = choose|k: int| 0 <= k < earlier_clients.len() && earlier_clients[k] == x;
            assert(clients[k] == x);
        }
        assert forall|x: S| #[trigger] after.contains(x) implies clients.contains(x) by {
            if !earlier.contains(x) {
                assert(clients[last] == x);
            }
        }
        assert forall|i: int|
            0 <= i < clients.len() && (i >= delivered.len() || delivered[i]) implies after.contains(
            #[trigger] clients[i],
        ) by {
            if i < last {
                assert(earlier_clients[i] == clients[i]);
                let k = choose|k: int| 0 <= k < earlier.len() && earlier[k] == clients[i];
                assert(after[k] == clients[i]);
            } else {
                assert(after[earlier.len() as int] == clients[i]);
            }
        }
        if clients.no_duplicates() {
            assert(!earlier.contains(clients.last())) by {
                if earlier.contains(clients.last()) {
                    let k = choose|k: int|
                        0 <= k < earlier_clients.len() && earlier_clients[k] == clients.last();
                    assert(clients[k] == clients[last]);
                }
            }
            assert forall|i: int|
                0 <= i < clients.len() && i < delivered.len() && !delivered[i] implies !after.contains(
                #[trigger] clients[i],
            ) by {
                if i < last {
                    assert(earlier_clients[i] == clients[i]);
                }
            }
        }
    }
}

/// A probe that reaches every subscriber removes none.
pub proof fn lemma_probe_keeps_the_living<S>(clients: Seq<S>, delivered: Seq<bool>)
    requires
        forall|i: int| 0 <= i < clients.len() && i < delivered.len() ==> delivered[i],
    ensures
        survivors(clients, delivered) == clients,
    decreases clients.len(),
{
    if clients.len() > 0 {
        lemma_probe_keeps_the_living(clients.drop_last(), delivered);
    }
}

/// After a probe that one of `clients.len()` subscribers fails and every
/// other passes, the registry holds the others, one fewer than before and in
/// their order, and a broadcast reaches exactly them.
pub proof fn lemma_probe_removes_the_failed<S: Clone>(
    clients: Seq<S>,
    delivered: Seq<bool>,
    failed: int,
)
    requires
        0 <= failed < clients.len() <= delivered.len(),
        forall|i: int| 0 <= i < clients.len() ==> (delivered[i] <==> i != failed),
    ensures
        survivors(clients, delivered) == clients.remove(failed),
        survivors(clients, delivered).len() == clients.len() - 1,
        forall|recipients: Seq<S>| #[trigger]
            reaches(survivors(clients, delivered), recipients) ==> reaches(
                clients.remove(failed),
                recipients,
            ) && recipients.len() == clients.len() - 1,
    decreases clients.len(),
{
    let last = clients.len() - 1;
    if failed == last {
        lemma_probe_keeps_the_living(clients.drop_last(), delivered);
    } else {
        lemma_probe_removes_the_failed(clients.drop_last(), delivered, failed);
    }
}

} // verus!
