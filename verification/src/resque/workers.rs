//! The workers of an installation.

use vstd::prelude::*;
use vstd::hash_map::StringHashMap;
use vstd::string::StringExecFns;
use crate::resque::command::{Command, HEARTBEATS, WORKERS, worker_key};

verus! {

/// A worker, the job it is working on and the time of its last heartbeat.
#[derive(Debug, PartialEq, Eq)]
pub struct Worker {
    pub id: String,
    pub payload: Option<String>,
    pub heartbeat: Option<String>,
}

/// The two questions to start with: who the workers are, and when each was
/// last heard of.
pub fn active_workers() -> (commands: Vec<Command>)
    ensures
        commands@.len() == 2,
        commands@[0] matches Command::Smembers { key } && key@ == WORKERS@,
        commands@[1] matches Command::Hgetall { key } && key@ == HEARTBEATS@,
{
    let mut commands: Vec<Command> = Vec::new();
    commands.push(Command::Smembers { key: String::from_str(WORKERS) });
    commands.push(Command::Hgetall { key: String::from_str(HEARTBEATS) });
    commands
}

/// Asks what the worker `id` is working on.
pub fn worker_payload(id: &str) -> (command: Command)
    ensures
        command matches Command::Get { key } && key@ == "resque:worker:"@ + id@,
{
    Command::Get { key: worker_key(id) }
}

/// The map that holds each field of `fields` under its name; of two fields of
/// one name the later one stays.
pub open spec fn fields_map(fields: Seq<(String, String)>) -> Map<Seq<char>, String>
    decreases fields.len(),
{
    if fields.len() == 0 {
        Map::empty()
    } else {
        fields_map(fields.drop_last()).insert(fields.last().0@, fields.last().1)
    }
}

/// The heartbeat hash: for each worker that was heard of, the time of its
/// last heartbeat.
pub struct Heartbeats {
    times: StringHashMap<String>,
}

impl View for Heartbeats {
    type V = Map<Seq<char>, String>;

    closed spec fn view(&self) -> Map<Seq<char>, String> {
        self.times@
    }
}

impl Heartbeats {
    /// The time under `id`, if there is one.
    pub open spec fn time_of(&self, id: Seq<char>) -> Option<String> {
        if self@.contains_key(id) {
            Some(self@[id])
        } else {
            None
        }
    }

    /// A hash without fields.
    pub fn new() -> (heartbeats: Heartbeats)
        ensures
            heartbeats@ == Map::<Seq<char>, String>::empty(),
    {
        Heartbeats { times: StringHashMap::new() }
    }

    /// Puts `time` under `id`, in place of what stood there.
    pub fn insert(&mut self, id: String, time: String)
        ensures
            final(self)@ == old(self)@.insert(id@, time),
    {
        self.times.insert(id, time);
    }

    /// The hash with the fields of a reply.
    pub fn from_fields(fields: &Vec<(String, String)>) -> (heartbeats: Heartbeats)
        ensures
            heartbeats@ == fields_map(fields@),
    {
        let mut heartbeats = Heartbeats::new();
        let mut position: usize = 0;
        while position < fields.len()
            invariant
                position <= fields@.len(),
                heartbeats@ == fields_map(fields@.take(position as int)),
            decreases fields@.len() - position,
        {
            assert(fields@.take(position + 1).drop_last() =~= fields@.take(position as int));
            heartbeats.insert(fields[position].0.clone(), fields[position].1.clone());
            position = position + 1;
        }
        assert(fields@.take(position as int) =~= fields@);
        heartbeats
    }
}

/// Looks up the heartbeat of `id`.
pub fn find_heartbeat(heartbeats: &Heartbeats, id: &str) -> (found: Option<String>)
    ensures
        found == heartbeats.time_of(id@),
{
    match heartbeats.times.get(id) {
        Some(time) => Some(time.clone()),
        None => None,
    }
}

impl Worker {
    /// Puts a worker together from its identifier, the reply to
    /// `worker_payload` and the heartbeat hash. A worker whose payload could
    /// not be read is shown without one.
    pub fn from_replies<E>(
        id: String,
        payload: Result<Option<String>, E>,
        heartbeats: &Heartbeats,
    ) -> (worker: Worker)
        ensures
            worker.id == id,
            worker.payload == (match payload {
                Ok(job) => job,
                Err(_) => None,
            }),
            worker.heartbeat == heartbeats.time_of(id@),
    {
        let heartbeat = find_heartbeat(heartbeats, id.as_str());
        let payload = match payload {
            Ok(job) => job,
            Err(_) => None,
        };
        Worker { id, payload, heartbeat }
    }
}

} // verus!
