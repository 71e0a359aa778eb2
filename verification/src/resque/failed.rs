//! Finding, removing and retrying failed jobs.
//!
//! The list of failed jobs is read in batches. The host sends the command a
//! search or a retry asks for, hands the batch that came back to it, and
//! learns what to do next.

use vstd::prelude::*;
use vstd::string::StringExecFns;
use crate::resque::command::{Command, DEFAULT_QUEUE, FAILED, clear_queue, range};

verus! {

/// A batch shorter than this is the last one.
pub const BATCH_SIZE: usize = 100;

/// How far the last index of a batch lies behind its first.
pub const BATCH_END: isize = 99;

/// Why a failed job could not be dealt with.
#[derive(Debug, PartialEq, Eq)]
pub enum ResqueError {
    /// No failed job contains the text that was asked for.
    JobNotFound,
    /// A failed job is not JSON with a payload.
    JobUnreadable,
}

impl ResqueError {
    pub fn message(&self) -> (text: String)
        ensures
            text@ == (match self {
                ResqueError::JobNotFound => "job not found"@,
                ResqueError::JobUnreadable => "failed to parse job json"@,
            }),
    {
        match self {
            ResqueError::JobNotFound => String::from_str("job not found"),
            ResqueError::JobUnreadable => String::from_str("failed to parse job json"),
        }
    }
}

/// `needle` stands somewhere in `text`, character for character.
pub open spec fn occurs_in(needle: Seq<char>, text: Seq<char>) -> bool {
    exists|at: int|
        0 <= at && at + needle.len() <= text.len() && #[trigger] text.subrange(
            at,
            at + needle.len(),
        ) == needle
}

/// `str::contains` with a string as the pattern: whether the pattern occurs
/// in the text as a contiguous run of characters.
#[verifier::external_body]
fn contains(text: &str, needle: &str) -> (found: bool)
    ensures
        found == occurs_in(needle@, text@),
{
    text.contains(needle)
}

/// The position of the first job of `batch` that contains `needle`.
pub open spec fn first_match(batch: Seq<String>, needle: Seq<char>) -> Option<int>
    decreases batch.len(),
{
    if batch.len() == 0 {
        None
    } else if occurs_in(needle, batch[0]@) {
        Some(0)
    } else {
        match first_match(batch.skip(1), needle) {
            Some(position) => Some(position + 1),
            None => None,
        }
    }
}

/// The first match is a job that contains the text, and no job before it
/// does; without a first match no job of the batch contains the text.
pub proof fn first_match_is_first(batch: Seq<String>, needle: Seq<char>)
    ensures
        match first_match(batch, needle) {
            Some(position) => {
                &&& 0 <= position < batch.len()
                &&& occurs_in(needle, batch[position]@)
                &&& forall|earlier: int|
                    0 <= earlier < position ==> !occurs_in(needle, (#[trigger] batch[earlier])@)
            },
            None => forall|any: int|
                0 <= any < batch.len() ==> !occurs_in(needle, (#[trigger] batch[any])@),
        },
    decreases batch.len(),
{
    if batch.len() > 0 && !occurs_in(needle, batch[0]@) {
        let rest = batch.skip(1);
        first_match_is_first(rest, needle);
        match first_match(rest, needle) {
            Some(position) => {
                assert(rest[position] == batch[position + 1]);
                assert forall|earlier: int| 0 <= earlier < position + 1 implies !occurs_in(
                    needle,
                    (#[trigger] batch[earlier])@,
                ) by {
                    if earlier > 0 {
                        assert(rest[earlier - 1] == batch[earlier]);
                    }
                }
            },
            None => {
                assert forall|any: int| 0 <= any < batch.len() implies !occurs_in(
                    needle,
                    (#[trigger] batch[any])@,
                ) by {
                    if any > 0 {
                        assert(rest[any - 1] == batch[any]);
                    }
                }
            },
        }
    }
}

/// What a list holds in the range of the batch that starts at `start`: up to
/// `BATCH_SIZE` of its items from `start` on.
pub open spec fn batch_at<T>(list: Seq<T>, start: int) -> Seq<T> {
    range(list, start, start + BATCH_END)
}

/// A whole search through a list that stays as it is, from the batch that
/// starts at `cursor` on: the index of the job that is found, if one is.
pub open spec fn searched(list: Seq<String>, needle: Seq<char>, cursor: int) -> Option<int>
    decreases list.len() - cursor,
{
    let batch = batch_at(list, cursor);
    match first_match(batch, needle) {
        Some(position) => Some(cursor + position),
        None => if batch.len() < BATCH_SIZE {
            None
        } else {
            searched(list, needle, cursor + batch.len())
        },
    }
}

/// A search finds the first job from the cursor on that contains the text,
/// in whichever batch it stands, and finds nothing only if no job from the
/// cursor on contains it.
pub proof fn search_finds_first_job(list: Seq<String>, needle: Seq<char>, cursor: int)
    requires
        0 <= cursor <= list.len(),
    ensures
        match searched(list, needle, cursor) {
            Some(found) => {
                &&& cursor <= found < list.len()
                &&& occurs_in(needle, list[found]@)
                &&& forall|earlier: int|
                    cursor <= earlier < found ==> !occurs_in(needle, (#[trigger] list[earlier])@)
            },
            None => forall|any: int|
                cursor <= any < list.len() ==> !occurs_in(needle, (#[trigger] list[any])@),
        },
    decreases list.len() - cursor,
{
    let batch = batch_at(list, cursor);
    first_match_is_first(batch, needle);
    assert forall|i: int| 0 <= i < batch.len() implies #[trigger] batch[i] == list[cursor + i] by {}
    match first_match(batch, needle) {
        Some(position) => {
            assert forall|earlier: int| cursor <= earlier < cursor + position implies !occurs_in(
                needle,
                (#[trigger] list[earlier])@,
            ) by {
                assert(batch[earlier - cursor] == list[earlier]);
            }
        },
        None => {
            if batch.len() >= BATCH_SIZE {
                search_finds_first_job(list, needle, cursor + batch.len());
            }
            match searched(list, needle, cursor) {
                Some(found) => {
                    assert forall|earlier: int| cursor <= earlier < found implies !occurs_in(
                        needle,
                        (#[trigger] list[earlier])@,
                    ) by {
                        if earlier < cursor + batch.len() {
                            assert(batch[earlier - cursor] == list[earlier]);
                        }
                    }
                },
                None => {
                    assert forall|any: int| cursor <= any < list.len() implies !occurs_in(
                        needle,
                        (#[trigger] list[any])@,
                    ) by {
                        if any < cursor + batch.len() {
                            assert(batch[any - cursor] == list[any]);
                        }
                    }
                },
            }
        },
    }
}

/// What a search is to do after it has looked at a batch.
#[derive(Debug, PartialEq, Eq)]
pub enum SearchStep {
    /// This job is the one: remove it.
    Found(String),
    /// The job was not in the batch: fetch the next one.
    Continue,
    /// The job is in no batch.
    NotFound,
}

/// A search through a list for the first job that contains a given text.
pub struct JobSearch {
    key: String,
    needle: String,
    cursor: isize,
}

impl JobSearch {
    /// The list that is searched.
    pub closed spec fn key(&self) -> Seq<char> {
        self.key@
    }

    /// The text that is looked for.
    pub closed spec fn needle(&self) -> Seq<char> {
        self.needle@
    }

    /// The number of jobs looked at so far.
    pub closed spec fn cursor(&self) -> int {
        self.cursor as int
    }

    /// Starts a search of the list `key` for a job that contains `job`.
    pub fn new(key: &str, job: &str) -> (search: JobSearch)
        ensures
            search.key() == key@,
            search.needle() == job@,
            search.cursor() == 0,
    {
        JobSearch { key: String::from_str(key), needle: String::from_str(job), cursor: 0 }
    }

    /// The number of jobs looked at so far.
    pub fn seen(&self) -> (count: isize)
        ensures
            count == self.cursor(),
    {
        self.cursor
    }

    /// Whether a batch of `length` jobs can still be counted.
    pub fn has_room(&self, length: usize) -> (room: bool)
        ensures
            room == (self.cursor() + length <= isize::MAX),
    {
        self.cursor as i128 + length as i128 <= isize::MAX as i128
    }

    /// Whether the last index of the next batch can be computed.
    pub fn can_fetch(&self) -> (room: bool)
        ensures
            room == (self.cursor() + BATCH_END <= isize::MAX),
    {
        self.cursor <= isize::MAX - BATCH_END
    }

    /// The command that fetches the next batch: `BATCH_SIZE` jobs, from the
    /// first job not yet looked at.
    pub fn fetch(&self) -> (command: Command)
        requires
            self.cursor() + BATCH_END <= isize::MAX,
        ensures
            command matches Command::Lrange { key, start, stop } && key@ == self.key() && start
                == self.cursor() && stop == self.cursor() + BATCH_END,
    {
        Command::Lrange {
            key: self.key.clone(),
            start: self.cursor,
            stop: self.cursor + BATCH_END,
        }
    }

    /// The command that removes a job that was found.
    pub fn removal(&self, job: &str) -> (command: Command)
        ensures
            command matches Command::Lrem { key, count, value } && key@ == self.key() && count == 0
                && value@ == job@,
    {
        Command::Lrem { key: self.key.clone(), count: 0, value: String::from_str(job) }
    }

    /// Looks through a batch, job by job, for the text. The first job that
    /// contains it ends the search. Without one, a batch of fewer than
    /// `BATCH_SIZE` jobs ends the search too; a full one asks for more.
    pub fn inspect(&mut self, batch: &Vec<String>) -> (step: SearchStep)
        requires
            old(self).cursor() + batch@.len() <= isize::MAX,
        ensures
            final(self).key() == old(self).key(),
            final(self).needle() == old(self).needle(),
            match first_match(batch@, old(self).needle()) {
                Some(position) => {
                    &&& step == SearchStep::Found(batch@[position])
                    &&& final(self).cursor() == old(self).cursor() + position + 1
                },
                None => {
                    &&& final(self).cursor() == old(self).cursor() + batch@.len()
                    &&& step == (if batch@.len() < BATCH_SIZE {
                        SearchStep::NotFound
                    } else {
                        SearchStep::Continue
                    })
                },
            },
    {
        let mut position: usize = 0;
        assert(batch@.skip(0) =~= batch@);
        while position < batch.len()
            invariant
                position <= batch@.len(),
                self.key == old(self).key,
                self.needle == old(self).needle,
                self.cursor == old(self).cursor + position,
                old(self).cursor + batch@.len() <= isize::MAX,
                first_match(batch@, self.needle@) == (match first_match(
                    batch@.skip(position as int),
                    self.needle@,
                ) {
                    Some(offset) => Some(offset + position),
                    None => None,
                }),
            decreases batch@.len() - position,
        {
            let ghost rest = batch@.skip(position as int);
            assert(rest[0] == batch@[position as int]);
            assert(rest.skip(1) =~= batch@.skip(position + 1));
            self.cursor = self.cursor + 1;
            if contains(batch[position].as_str(), self.needle.as_str()) {
                return SearchStep::Found(batch[position].clone());
            }
            position = position + 1;
        }
        if batch.len() < BATCH_SIZE {
            SearchStep::NotFound
        } else {
            SearchStep::Continue
        }
    }
}

/// Starts the search for the failed job to delete.
pub fn delete_failed_job(job: &str) -> (search: JobSearch)
    ensures
        search.key() == FAILED@,
        search.needle() == job@,
        search.cursor() == 0,
{
    JobSearch::new(FAILED, job)
}

/// Starts the search for the failed job to retry. Once it is found and
/// removed, `requeue` says how its payload gets back into a queue.
pub fn retry_failed_job(job: &str) -> (search: JobSearch)
    ensures
        search.key() == FAILED@,
        search.needle() == job@,
        search.cursor() == 0,
{
    JobSearch::new(FAILED, job)
}

/// The command that queues a payload again, or the error for a job that had
/// no readable payload.
pub fn requeue(payload: Option<String>) -> (queued: Result<Command, ResqueError>)
    ensures
        match payload {
            Some(text) => queued matches Ok(Command::Rpush { key, value }) && key@ == DEFAULT_QUEUE@
                && value == text,
            None => queued == Err::<Command, ResqueError>(ResqueError::JobUnreadable),
        },
{
    match payload {
        Some(text) => Ok(Command::Rpush { key: String::from_str(DEFAULT_QUEUE), value: text }),
        None => Err(ResqueError::JobUnreadable),
    }
}

/// The position of the first job of a batch that has no payload.
pub open spec fn first_unreadable(payloads: Seq<Option<String>>) -> Option<int>
    decreases payloads.len(),
{
    if payloads.len() == 0 {
        None
    } else if payloads[0].is_none() {
        Some(0)
    } else {
        match first_unreadable(payloads.skip(1)) {
            Some(position) => Some(position + 1),
            None => None,
        }
    }
}

/// The first unreadable job has no payload, and every job before it has one;
/// without a first unreadable job every job of the batch has a payload.
pub proof fn first_unreadable_is_first(payloads: Seq<Option<String>>)
    ensures
        match first_unreadable(payloads) {
            Some(position) => {
                &&& 0 <= position < payloads.len()
                &&& payloads[position].is_none()
                &&& forall|earlier: int|
                    0 <= earlier < position ==> (#[trigger] payloads[earlier]).is_some()
            },
            None => forall|any: int| 0 <= any < payloads.len() ==> (#[trigger] payloads[any]).is_some(),
        },
    decreases payloads.len(),
{
    if payloads.len() > 0 && payloads[0].is_some() {
        let rest = payloads.skip(1);
        first_unreadable_is_first(rest);
        match first_unreadable(rest) {
            Some(position) => {
                assert(rest[position] == payloads[position + 1]);
                assert forall|earlier: int| 0 <= earlier < position + 1 implies (
                #[trigger] payloads[earlier]).is_some() by {
                    if earlier > 0 {
                        assert(rest[earlier - 1] == payloads[earlier]);
                    }
                }
            },
            None => {
                assert forall|any: int| 0 <= any < payloads.len() implies (
                #[trigger] payloads[any]).is_some() by {
                    if any > 0 {
                        assert(rest[any - 1] == payloads[any]);
                    }
                }
            },
        }
    }
}

/// What a retry is to do once the commands of a batch are sent.
#[derive(Debug, PartialEq, Eq)]
pub enum RetryStep {
    /// A job had no payload: stop with this error.
    Fail(ResqueError),
    /// Fetch the next batch.
    Continue,
    /// Every job is queued again: clear the list of failed jobs.
    Clear,
}

/// How many jobs of a batch are queued again: those before the first one
/// without a payload.
pub open spec fn queued_count(payloads: Seq<Option<String>>) -> int {
    match first_unreadable(payloads) {
        Some(position) => position,
        None => payloads.len() as int,
    }
}

/// What follows a batch: failure if one of its jobs has no payload; if all
/// have one, the end for a batch of fewer than `BATCH_SIZE` jobs and the next
/// batch for a full one.
pub open spec fn batch_step(payloads: Seq<Option<String>>) -> RetryStep {
    if first_unreadable(payloads).is_some() {
        RetryStep::Fail(ResqueError::JobUnreadable)
    } else if payloads.len() < BATCH_SIZE {
        RetryStep::Clear
    } else {
        RetryStep::Continue
    }
}

/// A whole retry over a list of failed jobs that stays as it is, told by the
/// payloads of its jobs, from the batch that starts at `cursor` on: how many
/// jobs are queued again, which are those from `cursor` on in the order of
/// the list, and how the retry ends.
pub open spec fn retried(failed: Seq<Option<String>>, cursor: int) -> (int, RetryStep)
    decreases failed.len() - cursor,
{
    let batch = batch_at(failed, cursor);
    if batch_step(batch) == RetryStep::Continue {
        let later = retried(failed, cursor + batch.len());
        (queued_count(batch) + later.0, later.1)
    } else {
        (queued_count(batch), batch_step(batch))
    }
}

/// Over a list in which every job has a payload, a retry queues every job
/// from the cursor on again, however many batches that takes, and ends by
/// clearing the list.
pub proof fn retry_reaches_every_job(failed: Seq<Option<String>>, cursor: int)
    requires
        0 <= cursor <= failed.len(),
        forall|i: int| 0 <= i < failed.len() ==> (#[trigger] failed[i]).is_some(),
    ensures
        retried(failed, cursor) == (failed.len() - cursor, RetryStep::Clear),
    decreases failed.len() - cursor,
{
    let batch = batch_at(failed, cursor);
    first_unreadable_is_first(batch);
    if batch_step(batch) == RetryStep::Continue {
        retry_reaches_every_job(failed, cursor + batch.len());
    }
}

/// Over a list whose first job without a payload stands at `unreadable`, a
/// retry queues the jobs from the cursor up to that one again and then fails.
pub proof fn retry_stops_at_first_unreadable(
    failed: Seq<Option<String>>,
    cursor: int,
    unreadable: int,
)
    requires
        0 <= cursor <= unreadable < failed.len(),
        failed[unreadable].is_none(),
        forall|i: int| 0 <= i < unreadable ==> (#[trigger] failed[i]).is_some(),
    ensures
        retried(failed, cursor) == (
            unreadable - cursor,
            RetryStep::Fail(ResqueError::JobUnreadable),
        ),
    decreases failed.len() - cursor,
{
    let batch = batch_at(failed, cursor);
    first_unreadable_is_first(batch);
    if unreadable < cursor + batch.len() {
        assert(batch[unreadable - cursor] == failed[unreadable]);
        match first_unreadable(batch) {
            Some(position) => {
                assert(batch[position] == failed[cursor + position]);
            },
            None => {},
        }
    } else {
        assert forall|i: int| 0 <= i < batch.len() implies (#[trigger] batch[i]).is_some() by {
            assert(batch[i] == failed[cursor + i]);
        }
        retry_stops_at_first_unreadable(failed, cursor + batch.len(), unreadable);
    }
}

/// Queueing every failed job again.
pub struct RetryAll {
    cursor: isize,
}

impl RetryAll {
    /// The number of jobs dealt with so far.
    pub closed spec fn cursor(&self) -> int {
        self.cursor as int
    }

    pub fn new() -> (retry: RetryAll)
        ensures
            retry.cursor() == 0,
    {
        RetryAll { cursor: 0 }
    }

    /// The number of jobs dealt with so far.
    pub fn seen(&self) -> (count: isize)
        ensures
            count == self.cursor(),
    {
        self.cursor
    }

    /// Whether a batch of `length` jobs can still be counted.
    pub fn has_room(&self, length: usize) -> (room: bool)
        ensures
            room == (self.cursor() + length <= isize::MAX),
    {
        self.cursor as i128 + length as i128 <= isize::MAX as i128
    }

    /// Whether the last index of the next batch can be computed.
    pub fn can_fetch(&self) -> (room: bool)
        ensures
            room == (self.cursor() + BATCH_END <= isize::MAX),
    {
        self.cursor <= isize::MAX - BATCH_END
    }

    /// The command that fetches the next batch of failed jobs: `BATCH_SIZE`
    /// jobs, from the first job not yet dealt with.
    pub fn fetch(&self) -> (command: Command)
        requires
            self.cursor() + BATCH_END <= isize::MAX,
        ensures
            command matches Command::Lrange { key, start, stop } && key@ == FAILED@ && start
                == self.cursor() && stop == self.cursor() + BATCH_END,
    {
        Command::Lrange {
            key: String::from_str(FAILED),
            start: self.cursor,
            stop: self.cursor + BATCH_END,
        }
    }

    /// The command that clears the list of failed jobs.
    pub fn clear(&self) -> (command: Command)
        ensures
            command matches Command::Del { key } && key@ == "resque:"@ + "failed"@,
    {
        clear_queue("failed")
    }

    /// Takes the payloads of a batch, in the order of the batch and with
    /// nothing for a job that has none, and returns the commands that queue
    /// them again together with what is to follow.
    ///
    /// Jobs are queued up to the first one without a payload, which fails the
    /// retry. If all have one, a batch of fewer than `BATCH_SIZE` jobs was the
    /// last, and a full one asks for more.
    pub fn requeue_batch(&mut self, payloads: &Vec<Option<String>>) -> (outcome: (
        Vec<Command>,
        RetryStep,
    ))
        requires
            old(self).cursor() + payloads@.len() <= isize::MAX,
        ensures
            outcome.0@.len() == queued_count(payloads@),
            outcome.1 == batch_step(payloads@),
            final(self).cursor() == old(self).cursor() + (match first_unreadable(payloads@) {
                Some(position) => position + 1,
                None => payloads@.len() as int,
            }),
            forall|i: int|
                0 <= i < outcome.0@.len() ==> (#[trigger] outcome.0@[i] matches Command::Rpush {
                    key,
                    value,
                } && key@ == DEFAULT_QUEUE@ && Some(value) == payloads@[i]),
    {
        let mut pushes: Vec<Command> = Vec::new();
        let mut position: usize = 0;
        assert(payloads@.skip(0) =~= payloads@);
        while position < payloads.len()
            invariant
                position <= payloads@.len(),
                pushes@.len() == position,
                self.cursor == old(self).cursor + position,
                old(self).cursor + payloads@.len() <= isize::MAX,
                first_unreadable(payloads@) == (match first_unreadable(
                    payloads@.skip(position as int),
                ) {
                    Some(offset) => Some(offset + position),
                    None => None,
                }),
                forall|i: int|
                    0 <= i < pushes@.len() ==> (#[trigger] pushes@[i] matches Command::Rpush {
                        key,
                        value,
                    } && key@ == DEFAULT_QUEUE@ && Some(value) == payloads@[i]),
            decreases payloads@.len() - position,
        {
            let ghost rest = payloads@.skip(position as int);
            assert(rest[0] == payloads@[position as int]);
            assert(rest.skip(1) =~= payloads@.skip(position + 1));
            self.cursor = self.cursor + 1;
            match &payloads[position] {
                Some(text) => {
                    pushes.push(
                        Command::Rpush { key: String::from_str(DEFAULT_QUEUE), value: text.clone() },
                    );
                },
                None => {
                    return (pushes, RetryStep::Fail(ResqueError::JobUnreadable));
                },
            }
            position = position + 1;
        }
        if payloads.len() < BATCH_SIZE {
            (pushes, RetryStep::Clear)
        } else {
            (pushes, RetryStep::Continue)
        }
    }
}

/// Starts queueing every failed job again.
pub fn retry_all_jobs() -> (retry: RetryAll)
    ensures
        retry.cursor() == 0,
{
    RetryAll::new()
}

} // verus!
