//! The commands the dashboard sends and the keys they name.

use vstd::prelude::*;
use vstd::string::StringExecFns;

verus! {

/// The set of queue names.
pub const QUEUES: &'static str = "resque:queues";

/// The list of failed jobs.
pub const FAILED: &'static str = "resque:failed";

/// The counter of failed jobs.
pub const STAT_FAILED: &'static str = "resque:stat:failed";

/// The counter of processed jobs.
pub const STAT_PROCESSED: &'static str = "resque:stat:processed";

/// The set of worker identifiers.
pub const WORKERS: &'static str = "resque:workers";

/// The hash from worker identifier to the time of its last heartbeat.
pub const HEARTBEATS: &'static str = "resque:workers:heartbeat";

/// The list that retried jobs are appended to.
pub const DEFAULT_QUEUE: &'static str = "resque:queue:default";

/// A command for the store, with its arguments in the order of the wire.
#[derive(Debug, PartialEq, Eq)]
pub enum Command {
    /// All members of a set.
    Smembers { key: String },
    /// The value of a key.
    Get { key: String },
    /// The elements of a list from `start` to `stop`, both included.
    Lrange { key: String, start: isize, stop: isize },
    /// The length of a list.
    Llen { key: String },
    /// Delete a key.
    Del { key: String },
    /// Remove elements equal to `value` from a list; with `count` zero, all.
    Lrem { key: String, count: isize, value: String },
    /// Append a value to a list.
    Rpush { key: String, value: String },
    /// Remove a member from a set.
    Srem { key: String, member: String },
    /// Remove a field from a hash.
    Hdel { key: String, field: String },
    /// All fields and values of a hash.
    Hgetall { key: String },
}

/// The items that a list holds from index `start` to index `stop`, both
/// included and both counted from the head of the list: what the list answers
/// to `Lrange` with these two indices.
pub open spec fn range<T>(list: Seq<T>, start: int, stop: int) -> Seq<T> {
    if 0 <= start <= stop && start < list.len() {
        if stop < list.len() {
            list.subrange(start, stop + 1)
        } else {
            list.subrange(start, list.len() as int)
        }
    } else {
        Seq::empty()
    }
}

/// `prefix` followed by `name`.
pub fn prefixed(prefix: &str, name: &str) -> (key: String)
    ensures
        key@ == prefix@ + name@,
{
    String::from_str(prefix).concat(name)
}

/// The key of anything in the namespace: `resque:` and the name.
pub fn namespaced(name: &str) -> (key: String)
    ensures
        key@ == "resque:"@ + name@,
{
    prefixed("resque:", name)
}

/// The key of the list that holds a queue's jobs.
pub fn queue_key(queue: &str) -> (key: String)
    ensures
        key@ == "resque:queue:"@ + queue@,
{
    prefixed("resque:queue:", queue)
}

/// The key under which a worker keeps the job it is working on.
pub fn worker_key(id: &str) -> (key: String)
    ensures
        key@ == "resque:worker:"@ + id@,
{
    prefixed("resque:worker:", id)
}

/// The key of the time at which a worker started.
pub fn worker_started_key(id: &str) -> (key: String)
    ensures
        key@ == "resque:worker:"@ + id@ + ":started"@,
{
    worker_key(id).concat(":started")
}

/// The key of a worker's counter of processed jobs.
pub fn worker_processed_key(id: &str) -> (key: String)
    ensures
        key@ == "resque:stat:processed:"@ + id@,
{
    prefixed("resque:stat:processed:", id)
}

/// The key of a worker's counter of failed jobs.
pub fn worker_failed_key(id: &str) -> (key: String)
    ensures
        key@ == "resque:stat:failed:"@ + id@,
{
    prefixed("resque:stat:failed:", id)
}

/// Asks for the names of the queues.
pub fn get_queues() -> (command: Command)
    ensures
        command matches Command::Smembers { key } && key@ == QUEUES@,
{
    Command::Smembers { key: String::from_str(QUEUES) }
}

/// Asks how many jobs have failed since the counter was started.
pub fn failure_count() -> (command: Command)
    ensures
        command matches Command::Get { key } && key@ == STAT_FAILED@,
{
    Command::Get { key: String::from_str(STAT_FAILED) }
}

/// Asks how many jobs have been processed since the counter was started.
pub fn processed_count() -> (command: Command)
    ensures
        command matches Command::Get { key } && key@ == STAT_PROCESSED@,
{
    Command::Get { key: String::from_str(STAT_PROCESSED) }
}

/// Asks for the failed jobs from `start` to `end`, both included.
pub fn get_failed(start: isize, end: isize) -> (command: Command)
    ensures
        command matches Command::Lrange { key, start: first, stop: last } && key@ == FAILED@
            && first == start && last == end,
{
    Command::Lrange { key: String::from_str(FAILED), start, stop: end }
}

/// Asks how many jobs have failed and not been dealt with.
pub fn current_failures() -> (command: Command)
    ensures
        command matches Command::Llen { key } && key@ == FAILED@,
{
    Command::Llen { key: String::from_str(FAILED) }
}

/// Deletes everything stored under `queue` in the namespace. The list of a
/// job queue is stored under `queue:` and its name, the failed jobs under
/// `failed`.
pub fn clear_queue(queue: &str) -> (command: Command)
    ensures
        command matches Command::Del { key } && key@ == "resque:"@ + queue@,
{
    Command::Del { key: namespaced(queue) }
}

/// Forgets a worker: its two counters, its membership, its heartbeat and its
/// start time, in this order.
pub fn remove_worker(id: &str) -> (commands: Vec<Command>)
    ensures
        commands@.len() == 5,
        commands@[0] matches Command::Del { key } && key@ == "resque:stat:processed:"@ + id@,
        commands@[1] matches Command::Del { key } && key@ == "resque:stat:failed:"@ + id@,
        commands@[2] matches Command::Srem { key, member } && key@ == WORKERS@ && member@ == id@,
        commands@[3] matches Command::Hdel { key, field } && key@ == HEARTBEATS@ && field@ == id@,
        commands@[4] matches Command::Del { key } && key@ == "resque:worker:"@ + id@
            + ":started"@,
{
    let mut commands: Vec<Command> = Vec::new();
    commands.push(Command::Del { key: worker_processed_key(id) });
    commands.push(Command::Del { key: worker_failed_key(id) });
    commands.push(Command::Srem { key: String::from_str(WORKERS), member: String::from_str(id) });
    commands.push(Command::Hdel { key: String::from_str(HEARTBEATS), field: String::from_str(id) });
    commands.push(Command::Del { key: worker_started_key(id) });
    commands
}

} // verus!
