//! The polling tasks: what a task does with the outcome of each fetch, and
//! the registry that gives every task a cache key of its own.

use crate::cache::SnapshotCache;
use crate::client_update::{Envelope, UpdateEventType, UpdateResponseBody};
use crate::diff::{compare, symmetric_difference, unchanged};
use crate::error::AppError;
use vstd::prelude::*;
use vstd::std_specs::cmp::PartialEqSpec;

verus! {

/// Seconds between two polls of one task.
pub const UPDATE_INTERVAL: u64 = 6;

/// The frame that is sent in place of a notification that could not be
/// encoded.
pub const SERIALIZE_FAILURE: &'static str =
    "{\"code\":500,\"message\":\"Failed to serialize message\",\"data\":null,\"event\":\"Error\"}";

/// The text of the frame for a notification: its encoding, or, where it
/// could not be encoded, the frame that says so.
pub fn sjts(encoded: Option<String>) -> (frame: String)
    ensures
        frame@ == match encoded {
            Some(text) => text@,
            None => SERIALIZE_FAILURE@,
        },
{
    match encoded {
        Some(text) => text,
        None => SERIALIZE_FAILURE.to_owned(),
    }
}

/// The records by which a changed collection differs from its snapshot, with
/// the status, text and tag of the fetch that found them.
#[derive(Debug)]
pub struct Delta<T> {
    pub code: u16,
    pub message: String,
    pub records: Vec<T>,
    pub event: UpdateEventType,
}

impl<T> Delta<T> {
    /// The notification that carries this delta, with `data` as its payload.
    pub fn into_body(self, data: serde_json::Value) -> (body: UpdateResponseBody)
        ensures
            body@ == (Envelope {
                code: self.code,
                message: self.message@,
                data: Some(data),
                event: self.event,
            }),
    {
        UpdateResponseBody {
            code: self.code,
            message: self.message,
            data: Some(data),
            event: self.event,
        }
    }
}

/// How one round of a task ended.
#[derive(Debug)]
pub enum Round<T> {
    /// Nothing is to be sent.
    Quiet,
    /// This notification is to be sent as it is.
    Report(UpdateResponseBody),
    /// The collection changed: a notification with these records as its
    /// payload is to be sent.
    Changed(Delta<T>),
}

/// What is to be done after a step of a task.
#[derive(Debug)]
pub enum Action {
    /// Nothing is sent; the next step follows the next tick.
    Wait,
    /// This notification goes to every subscriber.
    Broadcast(UpdateResponseBody),
    /// The task has ended and takes no further steps.
    Stop,
}

/// Stores the payload of the first fetch under `cache_key`. Without a
/// payload, or after a failed fetch, the cache stays as it was.
pub fn add_to_cache(
    cache: &mut SnapshotCache,
    cache_key: u64,
    fetched: Result<UpdateResponseBody, AppError>,
) -> (seeded: bool)
    ensures
        seeded <==> (fetched matches Ok(body) && body.data is Some),
        seeded ==> final(cache)@ == old(cache)@.insert(cache_key, fetched.unwrap().data.unwrap()),
        !seeded ==> final(cache)@ == old(cache)@,
{
    match fetched {
        Ok(UpdateResponseBody { data: Some(raw), .. }) => {
            cache.insert(cache_key, raw);
            true
        },
        _ => false,
    }
}

/// Both collections could be read and the cache holds a snapshot to compare
/// with.
pub open spec fn readable<T>(
    slots: Map<u64, serde_json::Value>,
    cache_key: u64,
    cached: Option<Vec<T>>,
    current: Option<Vec<T>>,
) -> bool {
    slots.contains_key(cache_key) && cached is Some && current is Some
}

/// One round of a task: how it ends, as `round`, and which cache `after`
/// follows from the cache `before` and the outcome of a fetch.
///
/// A failed fetch is reported, and so is a fetch without payload, as it came.
/// A payload is compared, as `current`, with the snapshot, as `cached`: where
/// they differ the payload becomes the snapshot and the difference is sent.
/// In every other case nothing is sent, and only a difference changes the
/// cache.
pub open spec fn is_round<T: PartialEq>(
    before: Map<u64, serde_json::Value>,
    cache_key: u64,
    fetched: Result<UpdateResponseBody, AppError>,
    cached: Option<Vec<T>>,
    current: Option<Vec<T>>,
    after: Map<u64, serde_json::Value>,
    round: Round<T>,
) -> bool {
    match fetched {
        Err(e) => {
            &&& after == before
            &&& round matches Round::Report(body)
            &&& body@ == (Envelope {
                code: e.status(),
                message: e.text(),
                data: None,
                event: UpdateEventType::Error,
            })
        },
        Ok(found) => match found.data {
            None => {
                &&& after == before
                &&& round matches Round::Report(body)
                &&& body@ == found@
            },
            Some(raw) => if readable(before, cache_key, cached, current) && !unchanged(
                cached.unwrap()@,
                current.unwrap()@,
            ) {
                &&& after == before.insert(cache_key, raw)
                &&& round matches Round::Changed(delta)
                &&& delta.code == found.code
                &&& delta.message@ == found.message@
                &&& delta.event == found.event
                &&& delta.records@ == symmetric_difference(cached.unwrap()@, current.unwrap()@)
            } else {
                &&& after == before
                &&& round is Quiet
            },
        },
    }
}

/// Failed fetches are reported one by one, each as an error without payload,
/// and leave the cache as it was before the first of them.
pub proof fn lemma_failed_fetches_keep_the_cache<T: PartialEq>(
    before: Map<u64, serde_json::Value>,
    cache_key: u64,
    first: AppError,
    first_read: (Option<Vec<T>>, Option<Vec<T>>),
    between: Map<u64, serde_json::Value>,
    first_round: Round<T>,
    second: AppError,
    second_read: (Option<Vec<T>>, Option<Vec<T>>),
    after: Map<u64, serde_json::Value>,
    second_round: Round<T>,
)
    requires
        is_round(before, cache_key, Err(first), first_read.0, first_read.1, between, first_round),
        is_round(
            between,
            cache_key,
            Err(second),
            second_read.0,
            second_read.1,
            after,
            second_round,
        ),
    ensures
        after == before,
        first_round matches Round::Report(body) && body.event == UpdateEventType::Error
            && body.data is None,
        second_round matches Round::Report(body) && body.event == UpdateEventType::Error
            && body.data is None,
{
}

/// Decides one round of the task registered under `cache_key`.
///
/// `cached` and `current` are the snapshot under `cache_key` and the fetched
/// payload, read as records; each is `None` where that could not be done.
/// What is said of a compared payload holds of a record type whose `==` is
/// the equality that its specification states.
pub fn check_from_db<T: PartialEq>(
    cache: &mut SnapshotCache,
    cache_key: u64,
    fetched: Result<UpdateResponseBody, AppError>,
    cached: Option<Vec<T>>,
    current: Option<Vec<T>>,
) -> (round: Round<T>)
    ensures
        payload(fetched) is None || T::obeys_eq_spec() ==> is_round(
            old(cache)@,
            cache_key,
            fetched,
            cached,
            current,
            final(cache)@,
            round,
        ),
{
    let found = match fetched {
        Ok(found) => found,
        Err(e) => {
            return Round::Report(UpdateResponseBody::err(&e));
        },
    };
    let UpdateResponseBody { code, message, data, event } = found;
    let raw = match data {
        Some(raw) => raw,
        None => {
            return Round::Report(UpdateResponseBody { code, message, data: None, event });
        },
    };
    if cache.get(cache_key).is_none() {
        return Round::Quiet;
    }
    match (cached, current) {
        (Some(cached), Some(current)) => {
            match compare(cached, current) {
                Some(records) => {
                    cache.insert(cache_key, raw);
                    Round::Changed(Delta { code, message, records, event })
                },
                None => Round::Quiet,
            }
        },
        _ => Round::Quiet,
    }
}

/// The payload that a successful fetch brought, if it brought one.
pub open spec fn payload(fetched: Result<UpdateResponseBody, AppError>) -> Option<
    serde_json::Value,
> {
    match fetched {
        Ok(found) => found.data,
        Err(_) => None,
    }
}

/// `action` does what the end of a round asks for: it sends nothing after a
/// quiet round and a report as it is, and for a changed collection the
/// notification whose payload `encode` made of the records.
pub open spec fn sends<T, E: Fn(&Vec<T>) -> serde_json::Value>(
    encode: E,
    round: Round<T>,
    action: Action,
) -> bool {
    match round {
        Round::Quiet => action is Wait,
        Round::Report(body) => action matches Action::Broadcast(sent) && sent@ == body@,
        Round::Changed(delta) => {
            &&& action matches Action::Broadcast(sent)
            &&& sent.code == delta.code
            &&& sent.message@ == delta.message@
            &&& sent.event == delta.event
            &&& sent.data matches Some(data)
            &&& call_ensures(encode, (&delta.records,), data)
        },
    }
}

/// A round in which the snapshot and the payload are read by `decode`, where
/// the fetch brought a payload and the cache holds a snapshot, and the
/// records of a changed collection are made a payload by `encode`.
pub open spec fn is_polled_round<
    T: PartialEq,
    D: Fn(&serde_json::Value) -> Option<Vec<T>>,
    E: Fn(&Vec<T>) -> serde_json::Value,
>(
    before: Map<u64, serde_json::Value>,
    cache_key: u64,
    fetched: Result<UpdateResponseBody, AppError>,
    decode: D,
    encode: E,
    after: Map<u64, serde_json::Value>,
    action: Action,
) -> bool {
    exists|cached: Option<Vec<T>>, current: Option<Vec<T>>, round: Round<T>|
        {
            &&& #[trigger] is_round(before, cache_key, fetched, cached, current, after, round)
            &&& sends(encode, round, action)
            &&& (payload(fetched) is Some && before.contains_key(cache_key)) ==> {
                &&& call_ensures(decode, (&payload(fetched).unwrap(),), current)
                &&& call_ensures(decode, (&before[cache_key],), cached)
            }
        }
}

/// Where a task stands in its life.
#[derive(Debug, Clone, Copy, PartialEq, Eq, Structural)]
pub enum Phase {
    /// Registered; its first fetch fills the cache.
    Seeding,
    /// Its snapshot is in the cache; each fetch is compared with it.
    Polling,
    /// Its first fetch failed or brought no payload.
    Stopped,
}

/// One polling task: the key of its snapshot and where it stands.
#[derive(Debug)]
pub struct Task {
    cache_key: u64,
    phase: Phase,
}

impl Task {
    /// The key under which the task keeps its snapshot.
    pub closed spec fn spec_cache_key(&self) -> u64 {
        self.cache_key
    }

    /// Where the task stands.
    pub closed spec fn spec_phase(&self) -> Phase {
        self.phase
    }

    /// The key under which the task keeps its snapshot.
    #[verifier::when_used_as_spec(spec_cache_key)]
    pub fn cache_key(&self) -> (key: u64)
        ensures
            key == self.cache_key(),
    {
        self.cache_key
    }

    /// Where the task stands.
    #[verifier::when_used_as_spec(spec_phase)]
    pub fn phase(&self) -> (phase: Phase)
        ensures
            phase == self.phase(),
    {
        self.phase
    }

    /// One step of the task, on the outcome of one fetch.
    ///
    /// The first step stores the fetched payload as the snapshot and sends
    /// nothing; without a payload the task stops. Every later step is a
    /// round: `decode` reads the payload and the snapshot as records, and
    /// where they differ `encode` makes the payload of the notification
    /// from the difference. What is said of a compared payload holds of a
    /// record type whose `==` is the equality that its specification states.
    pub fn run<T, D, E>(
        &mut self,
        cache: &mut SnapshotCache,
        fetched: Result<UpdateResponseBody, AppError>,
        decode: D,
        encode: E,
    ) -> (action: Action) where
        T: PartialEq,
        D: Fn(&serde_json::Value) -> Option<Vec<T>>,
        E: Fn(&Vec<T>) -> serde_json::Value,

        requires
            forall|raw: &serde_json::Value| call_requires(decode, (raw,)),
            forall|records: &Vec<T>| call_requires(encode, (records,)),
        ensures
            final(self).cache_key() == old(self).cache_key(),
            match old(self).phase() {
                Phase::Seeding => if fetched matches Ok(body) && body.data is Some {
                    &&& final(self).phase() == Phase::Polling
                    &&& action is Wait
                    &&& final(cache)@ == old(cache)@.insert(
                        old(self).cache_key(),
                        fetched.unwrap().data.unwrap(),
                    )
                } else {
                    &&& final(self).phase() == Phase::Stopped
                    &&& action is Stop
                    &&& final(cache)@ == old(cache)@
                },
                Phase::Polling => {
                    &&& final(self).phase() == Phase::Polling
                    &&& payload(fetched) is None || T::obeys_eq_spec() ==> is_polled_round::<
                        T,
                        D,
                        E,
                    >(
                        old(cache)@,
                        old(self).cache_key(),
                        fetched,
                        decode,
                        encode,
                        final(cache)@,
                        action,
                    )
                },
                Phase::Stopped => {
                    &&& final(self).phase() == Phase::Stopped
                    &&& action is Stop
                    &&& final(cache)@ == old(cache)@
                },
            },
    {
        match self.phase {
            Phase::Seeding => {
                if add_to_cache(cache, self.cache_key, fetched) {
                    self.phase = Phase::Polling;
                    Action::Wait
                } else {
                    self.phase = Phase::Stopped;
                    Action::Stop
                }
            },
            Phase::Polling => {
                let current = match &fetched {
                    Ok(UpdateResponseBody { data: Some(raw), .. }) => decode(raw),
                    _ => None,
                };
                let cached = match (&fetched, cache.get(self.cache_key)) {
                    (Ok(UpdateResponseBody { data: Some(_), .. }), Some(raw)) => decode(raw),
                    _ => None,
                };
                let ghost read = (cached, current);
                let round = check_from_db(cache, self.cache_key, fetched, cached, current);
                let ghost ended = round;
                let action = match round {
                    Round::Quiet => Action::Wait,
                    Round::Report(body) => Action::Broadcast(body),
                    Round::Changed(delta) => {
                        let data = encode(&delta.records);
                        Action::Broadcast(delta.into_body(data))
                    },
                };
                assert(payload(fetched) is None || T::obeys_eq_spec() ==> is_round(
                    old(cache)@,
                    self.cache_key,
                    fetched,
                    read.0,
                    read.1,
                    cache@,
                    ended,
                ) && sends(encode, ended, action));
                action
            },
            Phase::Stopped => Action::Stop,
        }
    }
}

/// Collects the jobs to be polled before any of them runs, and gives each a
/// task with a cache key of its own.
pub struct TaskManager<J> {
    cache: SnapshotCache,
    tasks: Vec<(Task, J)>,
}

impl<J> TaskManager<J> {
    #[verifier::type_invariant]
    spec fn well_formed(self) -> bool {
        &&& self.cache@ == Map::<u64, serde_json::Value>::empty()
        &&& forall|i: int|
            0 <= i < self.tasks.len() ==> {
                &&& (#[trigger] self.tasks[i]).0.cache_key == i
                &&& self.tasks[i].0.phase == Phase::Seeding
            }
    }

    /// The registered jobs, in the order of their registration.
    pub closed spec fn jobs(&self) -> Seq<J> {
        self.tasks@.map_values(|entry: (Task, J)| entry.1)
    }

    /// A registry without jobs.
    pub fn new() -> (manager: Self)
        ensures
            manager.jobs() == Seq::<J>::empty(),
    {
        TaskManager { cache: SnapshotCache::new(), tasks: Vec::new() }
    }

    /// Registers `job` after those registered before.
    pub fn add_task(&mut self, job: J)
        ensures
            final(self).jobs() == old(self).jobs().push(job),
    {
        proof {
            use_type_invariant(&*self);
        }
        let mut tasks: Vec<(Task, J)> = Vec::new();
        std::mem::swap(&mut tasks, &mut self.tasks);
        let task = Task { cache_key: tasks.len() as u64, phase: Phase::Seeding };
        tasks.push((task, job));
        self.tasks = tasks;
    }

    /// Hands out the empty cache and every registered job with its task.
    /// The jobs come in the order of their registration, the first under key
    /// 0, each under the key after that of the one before, none of them
    /// started.
    pub fn start(self) -> (started: (SnapshotCache, Vec<(Task, J)>))
        ensures
            started.0@ == Map::<u64, serde_json::Value>::empty(),
            started.1.len() == self.jobs().len(),
            forall|i: int|
                0 <= i < started.1.len() ==> {
                    &&& (#[trigger] started.1[i]).0.cache_key() == i
                    &&& started.1[i].0.phase() == Phase::Seeding
                    &&& started.1[i].1 == self.jobs()[i]
                },
            forall|i: int, j: int|
                0 <= i < j < started.1.len() ==> (#[trigger] started.1[i]).0.cache_key() != (
                #[trigger] started.1[j]).0.cache_key(),
    {
        proof {
            use_type_invariant(&self);
        }
        (self.cache, self.tasks)
    }
}

/// Registers the two polled collections, the players graph before the
/// servers, and starts them.
pub fn spawn<J>(players_graph: J, servers: J) -> (started: (SnapshotCache, Vec<(Task, J)>))
    ensures
        started.0@ == Map::<u64, serde_json::Value>::empty(),
        started.1.len() == 2,
        started.1[0].1 == players_graph,
        started.1[1].1 == servers,
        forall|i: int|
            0 <= i < 2 ==> {
                &&& (#[trigger] started.1[i]).0.cache_key() == i
                &&& started.1[i].0.phase() == Phase::Seeding
            },
{
    let mut task_manager = TaskManager::new();
    task_manager.add_task(players_graph);
    task_manager.add_task(servers);
    task_manager.start()
}

} // verus!
