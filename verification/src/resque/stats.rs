//! The figures the dashboard shows, and how they are read off the store's
//! replies.

use vstd::prelude::*;
use crate::resque::command::{
    Command, QUEUES, STAT_FAILED, STAT_PROCESSED, failure_count, get_queues, processed_count,
    queue_key,
};
use crate::resque::json::{readable_jobs, shown_jobs};

verus! {

/// The totals of an installation and the queues it has.
#[derive(Debug, PartialEq, Eq)]
pub struct ResqueStats {
    pub success_count: u64,
    pub failure_count: u64,
    pub available_queues: Vec<String>,
}

/// The three questions behind `ResqueStats`: the queue names, the number of
/// failed jobs and the number of processed jobs, in this order.
pub fn queue_stats() -> (commands: Vec<Command>)
    ensures
        commands@.len() == 3,
        commands@[0] matches Command::Smembers { key } && key@ == QUEUES@,
        commands@[1] matches Command::Get { key } && key@ == STAT_FAILED@,
        commands@[2] matches Command::Get { key } && key@ == STAT_PROCESSED@,
{
    let mut commands: Vec<Command> = Vec::new();
    commands.push(get_queues());
    commands.push(failure_count());
    commands.push(processed_count());
    commands
}

impl ResqueStats {
    /// Reads the statistics off the replies to `queue_stats`. A counter that
    /// the store does not have counts as zero.
    pub fn from_replies(queues: Vec<String>, failed: Option<u64>, processed: Option<u64>) -> (stats:
        ResqueStats)
        ensures
            stats.available_queues == queues,
            stats.failure_count == (match failed {
                Some(count) => count,
                None => 0,
            }),
            stats.success_count == (match processed {
                Some(count) => count,
                None => 0,
            }),
    {
        ResqueStats {
            success_count: match processed {
                Some(count) => count,
                None => 0,
            },
            failure_count: match failed {
                Some(count) => count,
                None => 0,
            },
            available_queues: queues,
        }
    }
}

/// A page of a queue: how many jobs the queue holds, and the jobs of the
/// page, each as its JSON text, or nothing where a job is not JSON.
#[derive(Debug, PartialEq, Eq)]
pub struct QueueDetails {
    pub total_jobs: u64,
    pub jobs: Vec<Option<String>>,
}

/// The number of jobs on a page of the dashboard.
pub const PAGE_SIZE: isize = 10;

/// The first and the last index of the page that starts at `from_job`, or at
/// the head of the list when no start is given. There is no such page when
/// its last index would not fit the index type.
pub fn page_window(from_job: Option<isize>) -> (window: Option<(isize, isize)>)
    ensures
        window == (match from_job {
            Some(start) => if start + PAGE_SIZE - 1 <= isize::MAX {
                Some((start, (start + PAGE_SIZE - 1) as isize))
            } else {
                None
            },
            None => Some((0isize, (PAGE_SIZE - 1) as isize)),
        }),
{
    let start: isize = match from_job {
        Some(start) => start,
        None => 0,
    };
    if start <= isize::MAX - (PAGE_SIZE - 1) {
        Some((start, start + (PAGE_SIZE - 1)))
    } else {
        None
    }
}

/// The two questions behind `QueueDetails`: the jobs of `queue_name` from
/// `start` to `end`, both included, and the length of the queue.
pub fn queue_details(queue_name: &str, start: isize, end: isize) -> (commands: Vec<Command>)
    ensures
        commands@.len() == 2,
        commands@[0] matches Command::Lrange { key, start: first, stop: last } && key@
            == "resque:queue:"@ + queue_name@ && first == start && last == end,
        commands@[1] matches Command::Llen { key } && key@ == "resque:queue:"@ + queue_name@,
{
    let mut commands: Vec<Command> = Vec::new();
    commands.push(Command::Lrange { key: queue_key(queue_name), start, stop: end });
    commands.push(Command::Llen { key: queue_key(queue_name) });
    commands
}

impl QueueDetails {
    /// Reads a page off the replies to `queue_details`.
    pub fn from_replies(jobs: Vec<String>, total_jobs: u64) -> (details: QueueDetails)
        ensures
            details.total_jobs == total_jobs,
            details.jobs@ == shown_jobs(jobs@),
    {
        QueueDetails { total_jobs, jobs: readable_jobs(jobs) }
    }
}

} // verus!
