use plugin_manager::resque::command::{
    clear_queue, current_failures, get_failed, namespaced, queue_key, remove_worker, worker_key,
    worker_started_key, Command,
};
use plugin_manager::resque::failed::{
    delete_failed_job, requeue, retry_all_jobs, retry_failed_job, JobSearch, ResqueError,
    RetryStep, SearchStep,
};
use plugin_manager::resque::json::{readable_jobs, shown};
use plugin_manager::resque::queue::{reversed, Iter, IterStep};
use plugin_manager::resque::stats::{
    page_window, queue_details, queue_stats, QueueDetails, ResqueStats,
};
use plugin_manager::resque::workers::{
    active_workers, find_heartbeat, worker_payload, Heartbeats, Worker,
};
use std::cell::RefCell;

fn strings(items: &[&str]) -> Vec<String> {
    items.iter().map(|item| item.to_string()).collect()
}

#[test]
fn test_get_failed() {
    assert_eq!(
        get_failed(1, 100),
        Command::Lrange { key: "resque:failed".to_string(), start: 1, stop: 100 }
    );
}

#[test]
fn delete_failed_job_succeeds() {
    let mut search = delete_failed_job("id2");
    assert_eq!(
        search.fetch(),
        Command::Lrange { key: "resque:failed".to_string(), start: 0, stop: 99 }
    );
    let batch = strings(&["id1", "id2", "id3"]);
    assert!(search.has_room(batch.len()));
    assert_eq!(search.inspect(&batch), SearchStep::Found("id2".to_string()));
    assert_eq!(search.seen(), 2);
    assert_eq!(
        search.removal("id2"),
        Command::Lrem { key: "resque:failed".to_string(), count: 0, value: "id2".to_string() }
    );
}

#[test]
fn delete_failed_job_queue_empties() {
    let mut search = delete_failed_job("id2");
    let batch = strings(&["id1"]);
    if let SearchStep::Found(_) = search.inspect(&batch) {
        panic!("should not have found a value")
    }
    let mut search = delete_failed_job("id2");
    assert_eq!(search.inspect(&batch), SearchStep::NotFound);
    assert_eq!(search.seen(), 1);
    assert_eq!(ResqueError::JobNotFound.message(), "job not found");
}

#[test]
fn queue_stats_populated() {
    let rslt = ResqueStats::from_replies(vec!["default".to_string()], Some(123), Some(456));
    let expected = ResqueStats {
        available_queues: vec!["default".to_string()],
        failure_count: 123,
        success_count: 456,
    };
    assert_eq!(rslt.available_queues, expected.available_queues);
    assert_eq!(rslt.failure_count, expected.failure_count);
    assert_eq!(rslt.success_count, expected.success_count);
}

#[test]
fn queue_stats_no_counts() {
    let rslt = ResqueStats::from_replies(vec!["default".to_string()], None, None);
    let expected = ResqueStats {
        available_queues: vec!["default".to_string()],
        failure_count: 0,
        success_count: 0,
    };
    assert_eq!(rslt.available_queues, expected.available_queues);
    assert_eq!(rslt.failure_count, expected.failure_count);
    assert_eq!(rslt.success_count, expected.success_count);
}

#[test]
fn queue_stats_commands() {
    assert_eq!(
        queue_stats(),
        vec![
            Command::Smembers { key: "resque:queues".to_string() },
            Command::Get { key: "resque:stat:failed".to_string() },
            Command::Get { key: "resque:stat:processed".to_string() },
        ]
    );
}

#[test]
fn keys_are_namespaced() {
    assert_eq!(namespaced("failed"), "resque:failed");
    assert_eq!(queue_key("mail"), "resque:queue:mail");
    assert_eq!(worker_key("host:1:mail"), "resque:worker:host:1:mail");
    assert_eq!(worker_started_key("w"), "resque:worker:w:started");
    assert_eq!(current_failures(), Command::Llen { key: "resque:failed".to_string() });
    assert_eq!(clear_queue("failed"), Command::Del { key: "resque:failed".to_string() });
    assert_eq!(clear_queue("queue:mail"), Command::Del { key: "resque:queue:mail".to_string() });
}

#[test]
fn remove_worker_commands() {
    assert_eq!(
        remove_worker("w1"),
        vec![
            Command::Del { key: "resque:stat:processed:w1".to_string() },
            Command::Del { key: "resque:stat:failed:w1".to_string() },
            Command::Srem { key: "resque:workers".to_string(), member: "w1".to_string() },
            Command::Hdel { key: "resque:workers:heartbeat".to_string(), field: "w1".to_string() },
            Command::Del { key: "resque:worker:w1:started".to_string() },
        ]
    );
}

#[test]
fn workers_are_put_together() {
    assert_eq!(
        active_workers(),
        vec![
            Command::Smembers { key: "resque:workers".to_string() },
            Command::Hgetall { key: "resque:workers:heartbeat".to_string() },
        ]
    );
    assert_eq!(worker_payload("w1"), Command::Get { key: "resque:worker:w1".to_string() });
    let heartbeats = Heartbeats::from_fields(&vec![
        ("w0".to_string(), "2020-01-01".to_string()),
        ("w1".to_string(), "2020-02-02".to_string()),
    ]);
    assert_eq!(find_heartbeat(&heartbeats, "w1"), Some("2020-02-02".to_string()));
    assert_eq!(find_heartbeat(&heartbeats, "w2"), None);
    assert_eq!(find_heartbeat(&Heartbeats::new(), "w1"), None);
    let mut later = Heartbeats::from_fields(&vec![
        ("w1".to_string(), "old".to_string()),
        ("w1".to_string(), "new".to_string()),
    ]);
    assert_eq!(find_heartbeat(&later, "w1"), Some("new".to_string()));
    later.insert("w1".to_string(), "newest".to_string());
    assert_eq!(find_heartbeat(&later, "w1"), Some("newest".to_string()));
    let busy: Result<Option<String>, ()> = Ok(Some("{\"queue\":\"mail\"}".to_string()));
    assert_eq!(
        Worker::from_replies("w1".to_string(), busy, &heartbeats),
        Worker {
            id: "w1".to_string(),
            payload: Some("{\"queue\":\"mail\"}".to_string()),
            heartbeat: Some("2020-02-02".to_string()),
        }
    );
    let idle: Result<Option<String>, ()> = Ok(None);
    assert_eq!(
        Worker::from_replies("w0".to_string(), idle, &heartbeats),
        Worker { id: "w0".to_string(), payload: None, heartbeat: Some("2020-01-01".to_string()) }
    );
    let broken: Result<Option<String>, String> = Err("wrong type".to_string());
    assert_eq!(
        Worker::from_replies("w2".to_string(), broken, &heartbeats),
        Worker { id: "w2".to_string(), payload: None, heartbeat: None }
    );
}

#[test]
fn page_is_ten_jobs() {
    assert_eq!(page_window(None), Some((0, 9)));
    assert_eq!(page_window(Some(20)), Some((20, 29)));
    assert_eq!(page_window(Some(-5)), Some((-5, 4)));
    assert_eq!(page_window(Some(isize::MAX - 9)), Some((isize::MAX - 9, isize::MAX)));
    assert_eq!(page_window(Some(isize::MAX - 8)), None);
    assert_eq!(page_window(Some(isize::MAX)), None);
}

#[test]
fn queue_details_commands_and_page() {
    assert_eq!(
        queue_details("mail", 10, 19),
        vec![
            Command::Lrange { key: "resque:queue:mail".to_string(), start: 10, stop: 19 },
            Command::Llen { key: "resque:queue:mail".to_string() },
        ]
    );
    let jobs = strings(&["{\"class\":\"Mailer\",\"args\":[1]}", "not json", "17", "{\"open\":"]);
    assert_eq!(
        QueueDetails::from_replies(jobs, 42),
        QueueDetails {
            total_jobs: 42,
            jobs: vec![
                Some("{\"class\":\"Mailer\",\"args\":[1]}".to_string()),
                None,
                Some("17".to_string()),
                None,
            ],
        }
    );
}

#[test]
fn jobs_that_are_not_json_are_dropped() {
    assert_eq!(readable_jobs(Vec::new()), Vec::<Option<String>>::new());
    assert_eq!(
        readable_jobs(strings(&["null", "", "[1, 2", "\"text\"", "{} {}"])),
        vec![Some("null".to_string()), None, None, Some("\"text\"".to_string()), None]
    );
    assert_eq!(shown("x".to_string(), true), Some("x".to_string()));
    assert_eq!(shown("x".to_string(), false), None);
}

#[test]
fn search_takes_the_first_job_that_contains_the_text() {
    let mut search = JobSearch::new("resque:failed", "b");
    let batch = strings(&["aaa", "abc", "b", "cab"]);
    assert_eq!(search.inspect(&batch), SearchStep::Found("abc".to_string()));
    assert_eq!(search.seen(), 2);
    let mut search = JobSearch::new("resque:failed", "");
    assert_eq!(search.inspect(&batch), SearchStep::Found("aaa".to_string()));
    assert_eq!(search.seen(), 1);
    let mut search = JobSearch::new("resque:failed", "abcd");
    assert_eq!(search.inspect(&batch), SearchStep::NotFound);
    assert_eq!(search.seen(), 4);
    let mut search = JobSearch::new("resque:failed", "x");
    assert_eq!(search.inspect(&Vec::new()), SearchStep::NotFound);
    assert_eq!(search.seen(), 0);
}

#[test]
fn search_goes_on_after_a_full_batch() {
    let mut search = retry_failed_job("needle");
    let full: Vec<String> = (0..100).map(|number| format!("job {}", number)).collect();
    assert_eq!(search.inspect(&full), SearchStep::Continue);
    assert_eq!(search.seen(), 100);
    assert!(search.can_fetch());
    assert_eq!(
        search.fetch(),
        Command::Lrange { key: "resque:failed".to_string(), start: 100, stop: 199 }
    );
    assert_eq!(search.inspect(&Vec::new()), SearchStep::NotFound);
    let mut search = retry_failed_job("job 99");
    assert_eq!(search.inspect(&full), SearchStep::Found("job 99".to_string()));
    assert_eq!(search.seen(), 100);
    let short: Vec<String> = (0..99).map(|number| format!("job {}", number)).collect();
    let mut search = retry_failed_job("needle");
    assert_eq!(search.inspect(&short), SearchStep::NotFound);
    assert!(search.has_room(usize::MAX / 2 - 99));
    assert!(!search.has_room(usize::MAX / 2 - 98));
    assert!(!search.has_room(usize::MAX));
}

#[test]
fn payload_is_queued_again() {
    assert_eq!(
        requeue(Some("{\"class\":\"Mailer\"}".to_string())),
        Ok(Command::Rpush {
            key: "resque:queue:default".to_string(),
            value: "{\"class\":\"Mailer\"}".to_string(),
        })
    );
    assert_eq!(requeue(None), Err(ResqueError::JobUnreadable));
    assert_eq!(ResqueError::JobUnreadable.message(), "failed to parse job json");
}

#[test]
fn retry_all_queues_every_payload() {
    let mut retry = retry_all_jobs();
    assert_eq!(
        retry.fetch(),
        Command::Lrange { key: "resque:failed".to_string(), start: 0, stop: 99 }
    );
    let payloads = vec![Some("{\"a\":1}".to_string()), Some("{\"b\":2}".to_string())];
    assert!(retry.has_room(payloads.len()));
    let (pushes, step) = retry.requeue_batch(&payloads);
    assert_eq!(
        pushes,
        vec![
            Command::Rpush { key: "resque:queue:default".to_string(), value: "{\"a\":1}".to_string() },
            Command::Rpush { key: "resque:queue:default".to_string(), value: "{\"b\":2}".to_string() },
        ]
    );
    assert_eq!(step, RetryStep::Clear);
    assert_eq!(retry.seen(), 2);
    assert_eq!(retry.clear(), Command::Del { key: "resque:failed".to_string() });
}

#[test]
fn retry_all_stops_at_the_first_unreadable_job() {
    let mut retry = retry_all_jobs();
    let payloads = vec![Some("1".to_string()), None, Some("3".to_string())];
    let (pushes, step) = retry.requeue_batch(&payloads);
    assert_eq!(
        pushes,
        vec![Command::Rpush { key: "resque:queue:default".to_string(), value: "1".to_string() }]
    );
    assert_eq!(step, RetryStep::Fail(ResqueError::JobUnreadable));
    assert_eq!(retry.seen(), 2);
}

#[test]
fn retry_all_goes_on_after_a_full_batch() {
    let mut retry = retry_all_jobs();
    let full: Vec<Option<String>> = (0..100).map(|number| Some(format!("{}", number))).collect();
    let (pushes, step) = retry.requeue_batch(&full);
    assert_eq!(pushes.len(), 100);
    assert_eq!(step, RetryStep::Continue);
    assert!(retry.can_fetch());
    assert_eq!(
        retry.fetch(),
        Command::Lrange { key: "resque:failed".to_string(), start: 100, stop: 199 }
    );
    let rest: Vec<Option<String>> = (100..130).map(|number| Some(format!("{}", number))).collect();
    let (pushes, step) = retry.requeue_batch(&rest);
    assert_eq!(pushes.len(), 30);
    assert_eq!(
        pushes[29],
        Command::Rpush { key: "resque:queue:default".to_string(), value: "129".to_string() }
    );
    assert_eq!(step, RetryStep::Clear);
    assert_eq!(retry.seen(), 130);
}

#[test]
fn batch_is_turned_around() {
    assert_eq!(reversed(strings(&["a", "b", "c"])), strings(&["c", "b", "a"]));
    assert!(reversed(Vec::new()).is_empty());
}

#[test]
fn walk_hands_out_jobs_in_queue_order() {
    let mut iter = Iter::load("resque:queue:mail", 3, 4);
    assert!(iter.can_fetch());
    assert_eq!(
        iter.next(),
        IterStep::Fetch(Command::Lrange { key: "resque:queue:mail".to_string(), start: 0, stop: 2 })
    );
    assert!(iter.has_room(3));
    assert!(iter.refill(Some(strings(&["j0", "j1", "j2"]))));
    assert_eq!(iter.next(), IterStep::Item("j0".to_string()));
    assert_eq!(iter.next(), IterStep::Item("j1".to_string()));
    assert_eq!(iter.next(), IterStep::Item("j2".to_string()));
    assert_eq!(
        iter.next(),
        IterStep::Fetch(Command::Lrange { key: "resque:queue:mail".to_string(), start: 3, stop: 5 })
    );
    assert!(iter.refill(Some(strings(&["j3"]))));
    assert_eq!(iter.next(), IterStep::Item("j3".to_string()));
    assert_eq!(iter.next(), IterStep::Done);
    assert_eq!(iter.next(), IterStep::Done);
}

#[test]
fn walk_with_batches_of_one_ends() {
    let mut iter = Iter::load("q", 1, 2);
    assert_eq!(
        iter.next(),
        IterStep::Fetch(Command::Lrange { key: "q".to_string(), start: 0, stop: 0 })
    );
    assert!(iter.refill(Some(strings(&["j0"]))));
    assert_eq!(iter.next(), IterStep::Item("j0".to_string()));
    assert_eq!(
        iter.next(),
        IterStep::Fetch(Command::Lrange { key: "q".to_string(), start: 1, stop: 1 })
    );
    assert!(iter.refill(Some(strings(&["j1"]))));
    assert_eq!(iter.next(), IterStep::Item("j1".to_string()));
    assert_eq!(iter.next(), IterStep::Done);
    let mut small = Iter::load("q", 0, 1);
    assert_eq!(
        small.next(),
        IterStep::Fetch(Command::Lrange { key: "q".to_string(), start: 0, stop: 0 })
    );
    let mut negative = Iter::load("q", isize::MIN, 1);
    assert!(negative.can_fetch());
    assert_eq!(
        negative.next(),
        IterStep::Fetch(Command::Lrange { key: "q".to_string(), start: 0, stop: 0 })
    );
}

#[test]
fn walk_ends_on_a_failed_fetch() {
    let mut iter = Iter::load("q", 10, 25);
    assert_eq!(
        iter.next(),
        IterStep::Fetch(Command::Lrange { key: "q".to_string(), start: 0, stop: 9 })
    );
    assert!(!iter.refill(None));
    assert!(!iter.refill(Some(Vec::new())));
    assert_eq!(
        iter.next(),
        IterStep::Fetch(Command::Lrange { key: "q".to_string(), start: 0, stop: 9 })
    );
    let mut empty = Iter::load("q", 10, 0);
    assert_eq!(empty.next(), IterStep::Done);
    let mut gone = Iter::load("q", 10, -1);
    assert_eq!(gone.next(), IterStep::Done);
    let edge = Iter::load("q", isize::MAX, 1);
    assert!(edge.can_fetch());
    assert!(edge.has_room(usize::MAX / 2));
    assert!(!edge.has_room(usize::MAX / 2 + 1));
}

#[test]
fn each_hands_out_the_buffered_jobs() {
    let mut iter = Iter::load("q", 3, 5);
    let seen = RefCell::new(Vec::new());
    let collect = |job: String| -> Result<bool, String> {
        seen.borrow_mut().push(job);
        Ok(false)
    };
    assert_eq!(iter.each(&collect), Ok(true));
    assert!(seen.borrow().is_empty());
    iter.next();
    assert!(iter.refill(Some(strings(&["j0", "j1", "j2"]))));
    assert_eq!(iter.each(&collect), Ok(true));
    assert_eq!(*seen.borrow(), strings(&["j0", "j1", "j2"]));
    assert_eq!(
        iter.next(),
        IterStep::Fetch(Command::Lrange { key: "q".to_string(), start: 3, stop: 5 })
    );
}

#[test]
fn each_stops_at_the_first_error() {
    let mut iter = Iter::load("q", 4, 4);
    iter.next();
    assert!(iter.refill(Some(strings(&["j0", "bad", "j2", "j3"]))));
    let seen = RefCell::new(Vec::new());
    let picky = |job: String| -> Result<bool, String> {
        if job == "bad" {
            return Err(format!("cannot take {}", job));
        }
        seen.borrow_mut().push(job);
        Ok(true)
    };
    assert_eq!(iter.each(&picky), Err("cannot take bad".to_string()));
    assert_eq!(*seen.borrow(), strings(&["j0"]));
    assert_eq!(iter.next(), IterStep::Item("j2".to_string()));
    assert_eq!(iter.each(&picky), Ok(true));
    assert_eq!(*seen.borrow(), strings(&["j0", "j3"]));
}

/// What a list answers to a range command.
fn answer<T: Clone>(list: &[T], command: &Command) -> Vec<T> {
    match command {
        Command::Lrange { start, stop, .. } if 0 <= *start && start <= stop => {
            let first = (*start as usize).min(list.len());
            let last = (*stop as usize + 1).min(list.len());
            list[first..last.max(first)].to_vec()
        }
        _ => Vec::new(),
    }
}

#[test]
fn retry_all_reaches_every_job_of_a_long_list() {
    let failed: Vec<Option<String>> = (0..250).map(|number| Some(format!("p{}", number))).collect();
    let mut retry = retry_all_jobs();
    let mut queued = Vec::new();
    let mut rounds = 0;
    loop {
        assert!(retry.can_fetch());
        let batch = answer(&failed, &retry.fetch());
        assert!(retry.has_room(batch.len()));
        let (pushes, step) = retry.requeue_batch(&batch);
        for push in pushes {
            match push {
                Command::Rpush { key, value } => {
                    assert_eq!(key, "resque:queue:default");
                    queued.push(value);
                }
                other => panic!("unexpected command {:?}", other),
            }
        }
        rounds += 1;
        match step {
            RetryStep::Continue => {}
            RetryStep::Clear => break,
            RetryStep::Fail(error) => panic!("{}", error.message()),
        }
    }
    assert_eq!(rounds, 3);
    assert_eq!(retry.seen(), 250);
    let expected: Vec<String> = (0..250).map(|number| format!("p{}", number)).collect();
    assert_eq!(queued, expected);
}

#[test]
fn retry_all_of_exactly_one_batch_fetches_once_more() {
    let failed: Vec<Option<String>> = (0..100).map(|number| Some(format!("p{}", number))).collect();
    let mut retry = retry_all_jobs();
    let (pushes, step) = retry.requeue_batch(&answer(&failed, &retry.fetch()));
    assert_eq!((pushes.len(), step), (100, RetryStep::Continue));
    let (pushes, step) = retry.requeue_batch(&answer(&failed, &retry.fetch()));
    assert_eq!((pushes.len(), step), (0, RetryStep::Clear));
}

#[test]
fn search_looks_beyond_the_first_batch() {
    let jobs: Vec<String> = (0..250).map(|number| format!("job-{:03}", number)).collect();
    let mut search = delete_failed_job("job-230");
    let mut rounds = 0;
    let found = loop {
        assert!(search.can_fetch());
        let batch = answer(&jobs, &search.fetch());
        rounds += 1;
        match search.inspect(&batch) {
            SearchStep::Found(job) => break Some(job),
            SearchStep::Continue => {}
            SearchStep::NotFound => break None,
        }
    };
    assert_eq!(found, Some("job-230".to_string()));
    assert_eq!(rounds, 3);
    assert_eq!(search.seen(), 231);
    let mut search = delete_failed_job("job-999");
    let missing = loop {
        match search.inspect(&answer(&jobs, &search.fetch())) {
            SearchStep::Found(job) => break Some(job),
            SearchStep::Continue => {}
            SearchStep::NotFound => break None,
        }
    };
    assert_eq!(missing, None);
    assert_eq!(search.seen(), 250);
}

#[test]
fn walk_hands_out_every_job_once() {
    let jobs: Vec<String> = (0..7).map(|number| format!("j{}", number)).collect();
    for batch_size in [1, 2, 3, 7, 10] {
        let mut iter = Iter::load("q", batch_size, jobs.len() as isize);
        let mut seen = Vec::new();
        loop {
            assert!(iter.can_fetch());
            match iter.next() {
                IterStep::Item(job) => seen.push(job),
                IterStep::Fetch(command) => {
                    let batch = answer(&jobs, &command);
                    assert!(batch.len() <= batch_size as usize);
                    assert!(iter.has_room(batch.len()));
                    if !iter.refill(Some(batch)) {
                        break;
                    }
                }
                IterStep::Done => break,
            }
        }
        assert_eq!(seen, jobs);
    }
}
