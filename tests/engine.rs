use oj_judge::models::{TestStatus, TestTask};
use oj_judge::queue::TestQueue;
use oj_judge::worker::{Action, Event, Phase, Worker, SUCCESS_MARKER};

fn task(id: i32, work_dir: &str) -> TestTask {
    TestTask { id, user_id: 7, username: "alice".to_string(), work_dir: work_dir.to_string() }
}

/// Every record written, in order, as (id, status, output, error).
type Writes = Vec<(i32, TestStatus, Option<String>, Option<String>)>;

fn record(a: &Action, writes: &mut Writes) {
    if let Action::Write { id, status, output, error } = a {
        writes.push((*id, *status, output.clone(), error.clone()));
    }
}

/// Drives one job from an idle worker to its final record, feeding `chunks`
/// and then `end` (the event that ends the output stream, if no marker does).
fn run_job(w: &mut Worker, dirs: (bool, bool), chunks: &[&[u8]], end: Event) -> Writes {
    let mut writes = Writes::new();
    let a = w.step(Event::Tick);
    record(&a, &mut writes);
    drive(w, &mut writes, dirs, chunks, end);
    writes
}

/// Drives the job whose `Running` record is being written to its final record.
fn drive(w: &mut Worker, writes: &mut Writes, dirs: (bool, bool), chunks: &[&[u8]], end: Event) {
    let a = w.step(Event::Written(true));
    assert!(matches!(a, Action::CheckDirs { .. }));
    let mut a = w.step(Event::Dirs { work_dir_exists: dirs.0, build_dir_exists: dirs.1 });
    record(&a, writes);
    if matches!(a, Action::Write { .. }) {
        return;
    }
    assert!(matches!(a, Action::Spawn { .. }));
    a = w.step(Event::Spawned);
    assert!(matches!(a, Action::Read));
    for c in chunks {
        a = w.step(Event::Chunk(c.to_vec()));
        record(&a, writes);
        a = w.step(Event::Written(true));
        if matches!(a, Action::Cleanup) {
            break;
        }
    }
    if matches!(a, Action::Read) {
        a = w.step(end);
    }
    assert!(matches!(a, Action::Cleanup));
    a = w.step(Event::CleanedUp);
    record(&a, writes);
}

#[test]
fn passing_job_is_recorded_passed() {
    let mut w = Worker::new();
    w.enqueue(task(1, "/t/ok"));
    let writes = run_job(&mut w, (true, true), &[b"booting\n", b"Usertests passed!\n"], Event::Eof);
    assert_eq!(writes[0], (1, TestStatus::Running, None, None));
    let last = writes.last().unwrap();
    assert_eq!(last.0, 1);
    assert_eq!(last.1, TestStatus::Passed);
    assert_eq!(last.2.as_deref(), Some("booting\nUsertests passed!\n"));
    assert_eq!(last.3, None);
}

#[test]
fn missing_work_dir_is_error_without_spawn() {
    let mut w = Worker::new();
    w.enqueue(task(2, "/t/missing"));
    let writes = run_job(&mut w, (false, false), &[], Event::Eof);
    assert_eq!(writes.len(), 2);
    let last = &writes[1];
    assert_eq!(last.0, 2);
    assert_eq!(last.1, TestStatus::Error);
    assert_eq!(last.3.as_deref(), Some("工作目录不存在: /t/missing"));
    assert!(matches!(w.phase, Phase::Saving { .. }));
}

#[test]
fn missing_build_dir_is_error() {
    let mut w = Worker::new();
    w.enqueue(task(3, "/t/nobuild"));
    let writes = run_job(&mut w, (true, false), &[], Event::Eof);
    assert_eq!(writes[1].1, TestStatus::Error);
    assert_eq!(writes[1].3.as_deref(), Some("OS目录不存在: /t/nobuild/os"));
}

#[test]
fn eof_without_marker_is_failed() {
    let mut w = Worker::new();
    w.enqueue(task(4, "/t/a"));
    let writes = run_job(&mut w, (true, true), &[b"some output"], Event::Eof);
    let last = writes.last().unwrap();
    assert_eq!(last.1, TestStatus::Failed);
    assert_eq!(last.2.as_deref(), Some("some output"));
    assert_eq!(last.3, None);
}

#[test]
fn failure_marker_ends_stream_as_failed() {
    let mut w = Worker::new();
    w.enqueue(task(5, "/t/a"));
    let writes = run_job(&mut w, (true, true), &[b"test x FAILED", b"never read"], Event::Eof);
    assert_eq!(writes.len(), 3);
    assert_eq!(writes[2].1, TestStatus::Failed);
    assert_eq!(writes[2].2.as_deref(), Some("test x FAILED"));
}

#[test]
fn timeout_is_error_after_cleanup() {
    let mut w = Worker::new();
    w.enqueue(task(6, "/t/a"));
    let writes = run_job(&mut w, (true, true), &[b"still going"], Event::TimedOut);
    let last = writes.last().unwrap();
    assert_eq!(last.1, TestStatus::Error);
    assert_eq!(last.2.as_deref(), Some("still going"));
    assert_eq!(last.3.as_deref(), Some("测试执行超时"));
}

#[test]
fn read_failure_is_error() {
    let mut w = Worker::new();
    w.enqueue(task(7, "/t/a"));
    let writes = run_job(&mut w, (true, true), &[], Event::ReadFailed("broken pipe".to_string()));
    let last = writes.last().unwrap();
    assert_eq!(last.1, TestStatus::Error);
    assert_eq!(last.3.as_deref(), Some("读取输出失败: broken pipe"));
}

#[test]
fn spawn_failure_is_error() {
    let mut w = Worker::new();
    w.enqueue(task(8, "/t/a"));
    w.step(Event::Tick);
    w.step(Event::Written(true));
    w.step(Event::Dirs { work_dir_exists: true, build_dir_exists: true });
    let a = w.step(Event::SpawnFailed("no make".to_string()));
    match a {
        Action::Write { id, status, error, .. } => {
            assert_eq!(id, 8);
            assert_eq!(status, TestStatus::Error);
            assert_eq!(error.as_deref(), Some("进程启动失败: no make"));
        }
        _ => panic!("expected a write"),
    }
}

#[test]
fn progress_writes_accumulate_output() {
    let mut w = Worker::new();
    w.enqueue(task(9, "/t/a"));
    let writes = run_job(&mut w, (true, true), &[b"A", b"B", b"C"], Event::Eof);
    let outputs: Vec<Option<&str>> = writes.iter().map(|x| x.2.as_deref()).collect();
    assert_eq!(outputs, vec![None, Some("A"), Some("AB"), Some("ABC"), Some("ABC")]);
    assert!(writes[1..4].iter().all(|x| x.1 == TestStatus::Running));
}

#[test]
fn invalid_utf8_is_replaced() {
    let mut w = Worker::new();
    w.enqueue(task(10, "/t/a"));
    let writes = run_job(&mut w, (true, true), &[&[0x41, 0xff, 0x42]], Event::Eof);
    assert_eq!(writes[1].2.as_deref(), Some("A\u{fffd}B"));
}

#[test]
fn marker_split_across_chunks_is_found() {
    let mut w = Worker::new();
    w.enqueue(task(11, "/t/a"));
    let writes = run_job(&mut w, (true, true), &[b"Usertests ", b"passed!"], Event::Eof);
    assert_eq!(writes.len(), 4);
    assert_eq!(writes[3].1, TestStatus::Passed);
    assert_eq!(SUCCESS_MARKER, "Usertests passed!");
}

#[test]
fn jobs_run_in_enqueue_order_one_at_a_time() {
    let mut w = Worker::new();
    w.enqueue(task(21, "/t/a"));
    w.enqueue(task(22, "/t/b"));
    w.enqueue(task(23, "/t/c"));
    let mut writes = Writes::new();
    let mut a = w.step(Event::Tick);
    let mut started = Vec::new();
    while let Action::Write { id, status, .. } = &a {
        assert_eq!(*status, TestStatus::Running);
        started.push(*id);
        // while a job is held, the others wait in the queue
        assert_eq!(w.queue.len(), 3 - started.len());
        writes.clear();
        drive(&mut w, &mut writes, (true, true), &[b"x"], Event::Eof);
        assert!(writes.iter().all(|x| x.0 == *started.last().unwrap()));
        assert_eq!(writes.last().unwrap().1, TestStatus::Failed);
        a = w.step(Event::Written(true));
    }
    assert!(matches!(a, Action::Sleep));
    assert_eq!(started, vec![21, 22, 23]);
}

#[test]
fn failed_running_write_abandons_job() {
    let mut w = Worker::new();
    w.enqueue(task(31, "/t/a"));
    w.enqueue(task(32, "/t/b"));
    w.step(Event::Tick);
    let a = w.step(Event::Written(false));
    match a {
        Action::Write { id, status, .. } => {
            assert_eq!(id, 32);
            assert_eq!(status, TestStatus::Running);
        }
        _ => panic!("expected the next job to start"),
    }
}

#[test]
fn empty_queue_sleeps() {
    let mut w = Worker::new();
    assert!(matches!(w.step(Event::Tick), Action::Sleep));
    assert!(matches!(w.phase, Phase::Idle));
}

#[test]
fn unexpected_event_is_ignored() {
    let mut w = Worker::new();
    w.enqueue(task(41, "/t/a"));
    assert!(matches!(w.step(Event::Eof), Action::Ignore));
    assert_eq!(w.queue.len(), 1);
    assert!(matches!(w.phase, Phase::Idle));
}

#[test]
fn queue_is_first_in_first_out() {
    let mut q = TestQueue::new();
    assert!(q.is_empty());
    for id in 1..=3 {
        q.add_task(task(id, "/t"));
    }
    assert_eq!(q.len(), 3);
    let ids: Vec<i32> = std::iter::from_fn(|| q.pop_task()).map(|t| t.id).collect();
    assert_eq!(ids, vec![1, 2, 3]);
    assert!(q.pop_task().is_none());
}
