use file_appender::codec::decompress;
use file_appender::{Action, Compressor, ErrorKind, Event, FileAppender, Poll};
use std::collections::HashMap;

/// An in-memory stand-in for the driver's side: files by path, one handle, a
/// clock, and the completion slot of the compression worker.
struct Disk {
    files: HashMap<Vec<u8>, Vec<u8>>,
    handle: Option<Vec<u8>>,
    now: u64,
    report: Poll,
    jobs: Vec<(Vec<u8>, Vec<u8>, Vec<u8>)>,
    log: Vec<Action>,
}

impl Disk {
    fn new() -> Disk {
        Disk {
            files: HashMap::new(),
            handle: None,
            now: 0,
            report: Poll::Running,
            jobs: Vec::new(),
            log: Vec::new(),
        }
    }

    fn with_file(path: &[u8], content: &[u8]) -> Disk {
        let mut disk = Disk::new();
        disk.files.insert(path.to_vec(), content.to_vec());
        disk
    }

    fn content(&self, path: &[u8]) -> Option<Vec<u8>> {
        self.files.get(path).cloned()
    }

    fn paths(&self) -> Vec<Vec<u8>> {
        let mut paths: Vec<Vec<u8>> = self.files.keys().cloned().collect();
        paths.sort();
        paths
    }

    fn perform(&mut self, action: &Action) -> Event {
        match action {
            Action::Idle => Event::Done,
            Action::Finished(_) => Event::Done,
            Action::Clock => Event::Time(self.now),
            Action::CheckExists(path) => Event::Exists(self.files.contains_key(path)),
            Action::Open { path, truncate } => {
                let content = if *truncate {
                    Vec::new()
                } else {
                    self.files.get(path).cloned().unwrap_or_default()
                };
                let len = content.len() as u64;
                self.files.insert(path.clone(), content);
                self.handle = Some(path.clone());
                Event::Opened(len)
            }
            Action::Write(data) => match &self.handle {
                Some(path) => {
                    if let Some(content) = self.files.get_mut(path) {
                        content.extend_from_slice(data);
                    }
                    Event::Written(data.len())
                }
                None => Event::Failed,
            },
            Action::Flush => match self.handle {
                Some(_) => Event::Done,
                None => Event::Failed,
            },
            Action::Close => {
                self.handle = None;
                Event::Done
            }
            Action::Rename { from, to } => match self.files.remove(from) {
                Some(content) => {
                    self.files.insert(to.clone(), content);
                    Event::Done
                }
                None => Event::Failed,
            },
            Action::Remove(path) => match self.files.remove(path) {
                Some(_) => Event::Done,
                None => Event::Failed,
            },
            Action::PollCompression => Event::Polled(self.report),
            Action::SpawnCompression { plain, temp, dest } => {
                self.jobs.push((plain.clone(), temp.clone(), dest.clone()));
                self.report = Poll::Running;
                Event::Done
            }
            Action::Read(path) => match self.files.get(path) {
                Some(content) => Event::Loaded(content.clone()),
                None => Event::Failed,
            },
            Action::Store { path, data } => {
                self.files.insert(path.clone(), data.clone());
                Event::Done
            }
        }
    }
}

fn play(appender: &mut FileAppender, disk: &mut Disk, first: Action) -> Result<usize, ErrorKind> {
    let mut action = first;
    for _ in 0..10_000 {
        if let Action::Finished(result) = action {
            return result;
        }
        assert_ne!(action, Action::Idle);
        let event = disk.perform(&action);
        disk.log.push(action);
        action = appender.resume(event);
    }
    panic!("the operation did not finish");
}

fn write(appender: &mut FileAppender, disk: &mut Disk, data: &[u8]) -> Result<usize, ErrorKind> {
    let first = appender.write(data.to_vec());
    play(appender, disk, first)
}

fn flush(appender: &mut FileAppender, disk: &mut Disk) -> Result<usize, ErrorKind> {
    let first = appender.flush();
    play(appender, disk, first)
}

fn work(disk: &mut Disk, job: (Vec<u8>, Vec<u8>, Vec<u8>)) -> Result<usize, ErrorKind> {
    let mut worker = Compressor::new(job.0, job.1, job.2);
    let mut action = worker.start();
    for _ in 0..100 {
        if let Action::Finished(result) = action {
            return result;
        }
        let event = disk.perform(&action);
        action = worker.resume(event);
    }
    panic!("the worker did not finish");
}

/// Answers every action from the disk until one matches `stop`, which is
/// answered with `answer` instead; then plays on from the disk.
fn play_with_fault(
    appender: &mut FileAppender,
    disk: &mut Disk,
    first: Action,
    stop: fn(&Action) -> bool,
    answer: Event,
) -> Result<usize, ErrorKind> {
    let mut action = first;
    let mut answer = Some(answer);
    for _ in 0..10_000 {
        if let Action::Finished(result) = action {
            return result;
        }
        let event = if answer.is_some() && stop(&action) {
            answer.take().unwrap()
        } else {
            disk.perform(&action)
        };
        disk.log.push(action);
        action = appender.resume(event);
    }
    panic!("the operation did not finish");
}

fn is_clock(action: &Action) -> bool {
    matches!(action, Action::Clock)
}

fn is_check(action: &Action) -> bool {
    matches!(action, Action::CheckExists(_))
}

fn is_open(action: &Action) -> bool {
    matches!(action, Action::Open { .. })
}

fn is_write(action: &Action) -> bool {
    matches!(action, Action::Write(_))
}

fn is_flush(action: &Action) -> bool {
    matches!(action, Action::Flush)
}

fn is_rename(action: &Action) -> bool {
    matches!(action, Action::Rename { .. })
}

fn is_remove(action: &Action) -> bool {
    matches!(action, Action::Remove(_))
}

fn is_poll(action: &Action) -> bool {
    matches!(action, Action::PollCompression)
}

fn is_spawn(action: &Action) -> bool {
    matches!(action, Action::SpawnCompression { .. })
}

fn checks(disk: &Disk) -> usize {
    disk.log.iter().filter(|a| is_check(a)).count()
}

#[test]
fn two_writes_then_a_flush_rotates_at_ten_bytes() {
    let mut disk = Disk::new();
    let mut appender = FileAppender::new(b"app.log".to_vec(), false, 10, 2, false);
    assert_eq!(write(&mut appender, &mut disk, b"hello"), Ok(5));
    assert_eq!(flush(&mut appender, &mut disk), Ok(0));
    assert_eq!(disk.content(b"app.log"), Some(b"hello".to_vec()));
    assert_eq!(disk.content(b"app.log.1"), None);
    assert_eq!(appender.written_size(), 5);
    assert_eq!(write(&mut appender, &mut disk, b"world!"), Ok(6));
    assert_eq!(appender.written_size(), 11);
    assert_eq!(flush(&mut appender, &mut disk), Ok(0));
    assert_eq!(disk.content(b"app.log"), Some(Vec::new()));
    assert_eq!(disk.content(b"app.log.1"), Some(b"helloworld!".to_vec()));
    assert_eq!(disk.paths(), vec![b"app.log".to_vec(), b"app.log.1".to_vec()]);
    assert_eq!(appender.written_size(), 0);
    assert!(appender.is_open());
    assert!(appender.is_idle());
}

#[test]
fn rotation_at_exactly_the_threshold() {
    let mut disk = Disk::new();
    let mut appender = FileAppender::new(b"app.log".to_vec(), false, 10, 2, false);
    assert_eq!(write(&mut appender, &mut disk, b"0123456789"), Ok(10));
    assert_eq!(flush(&mut appender, &mut disk), Ok(0));
    assert_eq!(disk.content(b"app.log"), Some(Vec::new()));
    assert_eq!(disk.content(b"app.log.1"), Some(b"0123456789".to_vec()));
}

#[test]
fn no_rotation_one_byte_below_the_threshold() {
    let mut disk = Disk::new();
    let mut appender = FileAppender::new(b"app.log".to_vec(), false, 10, 2, false);
    assert_eq!(write(&mut appender, &mut disk, b"012345678"), Ok(9));
    assert_eq!(flush(&mut appender, &mut disk), Ok(0));
    assert_eq!(disk.content(b"app.log"), Some(b"012345678".to_vec()));
    assert_eq!(disk.paths(), vec![b"app.log".to_vec()]);
    assert_eq!(appender.written_size(), 9);
}

#[test]
fn writes_alone_never_rotate() {
    let mut disk = Disk::new();
    let mut appender = FileAppender::new(b"app.log".to_vec(), false, 4, 2, false);
    for _ in 0..5 {
        assert_eq!(write(&mut appender, &mut disk, b"abcdef"), Ok(6));
    }
    assert_eq!(disk.paths(), vec![b"app.log".to_vec()]);
    assert_eq!(appender.written_size(), 30);
}

#[test]
fn rotation_retires_the_active_file_to_backup_one() {
    let mut disk = Disk::new();
    let mut appender = FileAppender::new(b"srv.log".to_vec(), false, 3, 4, false);
    assert_eq!(write(&mut appender, &mut disk, b"first batch"), Ok(11));
    let before = disk.content(b"srv.log").unwrap();
    assert_eq!(flush(&mut appender, &mut disk), Ok(0));
    assert_eq!(disk.content(b"srv.log.1"), Some(before));
    assert_eq!(disk.content(b"srv.log"), Some(Vec::new()));
    assert_eq!(disk.handle, Some(b"srv.log".to_vec()));
}

#[test]
fn rotation_follows_the_order_of_the_steps() {
    let mut disk = Disk::new();
    disk.files.insert(b"a.1".to_vec(), b"one".to_vec());
    disk.files.insert(b"a.2".to_vec(), b"two".to_vec());
    let mut appender = FileAppender::new(b"a".to_vec(), false, 1, 2, false);
    assert_eq!(write(&mut appender, &mut disk, b"now"), Ok(3));
    disk.log.clear();
    assert_eq!(flush(&mut appender, &mut disk), Ok(0));
    let expected = vec![
        Action::Flush,
        Action::Close,
        Action::CheckExists(b"a.2".to_vec()),
        Action::Rename { from: b"a.2".to_vec(), to: b"a.3".to_vec() },
        Action::CheckExists(b"a.1".to_vec()),
        Action::Rename { from: b"a.1".to_vec(), to: b"a.2".to_vec() },
        Action::CheckExists(b"a".to_vec()),
        Action::Rename { from: b"a".to_vec(), to: b"a.1".to_vec() },
        Action::CheckExists(b"a.3".to_vec()),
        Action::Remove(b"a.3".to_vec()),
        Action::Clock,
        Action::CheckExists(b"a".to_vec()),
        Action::Open { path: b"a".to_vec(), truncate: false },
    ];
    assert_eq!(disk.log, expected);
    assert_eq!(disk.content(b"a"), Some(Vec::new()));
    assert_eq!(disk.content(b"a.1"), Some(b"now".to_vec()));
    assert_eq!(disk.content(b"a.2"), Some(b"one".to_vec()));
    assert_eq!(disk.content(b"a.3"), None);
}

#[test]
fn backups_shift_up_with_each_rotation() {
    let mut disk = Disk::new();
    let mut appender = FileAppender::new(b"a".to_vec(), false, 1, 3, false);
    for batch in [&b"r1"[..], &b"r2"[..], &b"r3"[..]] {
        assert_eq!(write(&mut appender, &mut disk, batch), Ok(2));
        assert_eq!(flush(&mut appender, &mut disk), Ok(0));
    }
    assert_eq!(disk.content(b"a.1"), Some(b"r3".to_vec()));
    assert_eq!(disk.content(b"a.2"), Some(b"r2".to_vec()));
    assert_eq!(disk.content(b"a.3"), Some(b"r1".to_vec()));
    assert_eq!(disk.content(b"a"), Some(Vec::new()));
}

#[test]
fn pruning_leaves_exactly_rotate_keep_backups() {
    let keep = 2;
    for extra in 1..4 {
        let mut disk = Disk::new();
        let mut appender = FileAppender::new(b"a".to_vec(), false, 1, keep, false);
        for round in 0..keep + extra {
            let batch = format!("round {}", round).into_bytes();
            assert_eq!(write(&mut appender, &mut disk, &batch), Ok(batch.len()));
            assert_eq!(flush(&mut appender, &mut disk), Ok(0));
        }
        assert_eq!(disk.paths(), vec![b"a".to_vec(), b"a.1".to_vec(), b"a.2".to_vec()]);
        let last = keep + extra - 1;
        assert_eq!(disk.content(b"a.1"), Some(format!("round {}", last).into_bytes()));
        assert_eq!(disk.content(b"a.2"), Some(format!("round {}", last - 1).into_bytes()));
    }
}

#[test]
fn fewer_rotations_than_rotate_keep_leave_as_many_backups() {
    let mut disk = Disk::new();
    let mut appender = FileAppender::new(b"a".to_vec(), false, 1, 5, false);
    for _ in 0..2 {
        assert_eq!(write(&mut appender, &mut disk, b"x"), Ok(1));
        assert_eq!(flush(&mut appender, &mut disk), Ok(0));
    }
    assert_eq!(disk.paths(), vec![b"a".to_vec(), b"a.1".to_vec(), b"a.2".to_vec()]);
}

#[test]
fn keeping_no_backups_deletes_the_retired_file() {
    let mut disk = Disk::new();
    let mut appender = FileAppender::new(b"a".to_vec(), false, 1, 0, false);
    assert_eq!(write(&mut appender, &mut disk, b"gone soon"), Ok(9));
    assert_eq!(flush(&mut appender, &mut disk), Ok(0));
    assert_eq!(disk.paths(), vec![b"a".to_vec()]);
    assert_eq!(disk.content(b"a"), Some(Vec::new()));
}

#[test]
fn a_threshold_of_zero_rotates_at_every_flush() {
    let mut disk = Disk::new();
    let mut appender = FileAppender::new(b"a".to_vec(), false, 0, 2, false);
    assert_eq!(flush(&mut appender, &mut disk), Ok(0));
    assert_eq!(disk.paths(), vec![b"a".to_vec()]);
    assert_eq!(flush(&mut appender, &mut disk), Ok(0));
    assert_eq!(disk.paths(), vec![b"a".to_vec(), b"a.1".to_vec()]);
}

#[test]
fn an_unreachable_threshold_never_rotates() {
    let mut disk = Disk::new();
    let mut appender = FileAppender::new(b"a".to_vec(), false, u64::MAX, 2, false);
    assert_eq!(write(&mut appender, &mut disk, b"abc"), Ok(3));
    assert_eq!(flush(&mut appender, &mut disk), Ok(0));
    assert_eq!(disk.paths(), vec![b"a".to_vec()]);
}

#[test]
fn rotation_without_an_active_file_still_cascades_and_reopens() {
    let mut disk = Disk::new();
    disk.files.insert(b"a.1".to_vec(), b"older".to_vec());
    let mut appender = FileAppender::new(b"a".to_vec(), false, 1, 1, false);
    assert_eq!(write(&mut appender, &mut disk, b"x"), Ok(1));
    disk.files.remove(&b"a".to_vec());
    assert_eq!(flush(&mut appender, &mut disk), Ok(0));
    assert_eq!(disk.paths(), vec![b"a".to_vec()]);
    assert_eq!(disk.content(b"a"), Some(Vec::new()));
    assert!(appender.is_open());
}

#[test]
fn a_gap_in_the_backups_is_kept_by_the_cascade() {
    let mut disk = Disk::new();
    disk.files.insert(b"a.2".to_vec(), b"two".to_vec());
    let mut appender = FileAppender::new(b"a".to_vec(), false, 1, 3, false);
    assert_eq!(write(&mut appender, &mut disk, b"x"), Ok(1));
    assert_eq!(flush(&mut appender, &mut disk), Ok(0));
    assert_eq!(disk.paths(), vec![b"a".to_vec(), b"a.1".to_vec(), b"a.3".to_vec()]);
    assert_eq!(disk.content(b"a.3"), Some(b"two".to_vec()));
}

#[test]
fn first_write_of_a_fresh_appender_resumes_behind_the_file() {
    let mut disk = Disk::with_file(b"app.log", b"old!!");
    let mut appender = FileAppender::new(b"app.log".to_vec(), false, 100, 2, false);
    assert_eq!(appender.written_size(), 0);
    assert_eq!(write(&mut appender, &mut disk, b"new"), Ok(3));
    assert_eq!(disk.content(b"app.log"), Some(b"old!!new".to_vec()));
    assert_eq!(appender.written_size(), 8);
    assert_eq!(write(&mut appender, &mut disk, b"er"), Ok(2));
    assert_eq!(disk.content(b"app.log"), Some(b"old!!newer".to_vec()));
    assert_eq!(appender.written_size(), 10);
}

#[test]
fn resumed_length_counts_towards_the_threshold() {
    let mut disk = Disk::with_file(b"app.log", b"12345678");
    let mut appender = FileAppender::new(b"app.log".to_vec(), false, 10, 2, false);
    assert_eq!(write(&mut appender, &mut disk, b"90"), Ok(2));
    assert_eq!(flush(&mut appender, &mut disk), Ok(0));
    assert_eq!(disk.content(b"app.log.1"), Some(b"1234567890".to_vec()));
    assert_eq!(disk.content(b"app.log"), Some(Vec::new()));
}

#[test]
fn truncate_discards_what_the_file_held() {
    let mut disk = Disk::with_file(b"app.log", b"old!!");
    let mut appender = FileAppender::new(b"app.log".to_vec(), true, 100, 2, false);
    assert_eq!(write(&mut appender, &mut disk, b"new"), Ok(3));
    assert_eq!(disk.content(b"app.log"), Some(b"new".to_vec()));
    assert_eq!(appender.written_size(), 3);
}

#[test]
fn a_deleted_file_is_made_anew_once_the_interval_has_passed() {
    let mut disk = Disk::new();
    let mut appender = FileAppender::new(b"app.log".to_vec(), false, 100, 2, false);
    assert_eq!(write(&mut appender, &mut disk, b"before"), Ok(6));
    disk.files.remove(&b"app.log".to_vec());
    disk.now = 1001;
    assert_eq!(write(&mut appender, &mut disk, b"after"), Ok(5));
    assert_eq!(disk.content(b"app.log"), Some(b"after".to_vec()));
    assert_eq!(appender.written_size(), 5);
    assert_eq!(write(&mut appender, &mut disk, b"wards"), Ok(5));
    assert_eq!(disk.content(b"app.log"), Some(b"afterwards".to_vec()));
    assert_eq!(appender.written_size(), 10);
}

#[test]
fn the_look_at_the_path_comes_once_per_interval() {
    let mut disk = Disk::new();
    let mut appender = FileAppender::new(b"app.log".to_vec(), false, 100, 2, false);
    disk.now = 5;
    assert_eq!(write(&mut appender, &mut disk, b"a"), Ok(1));
    assert_eq!(checks(&disk), 1);
    disk.now = 1004;
    assert_eq!(write(&mut appender, &mut disk, b"b"), Ok(1));
    assert_eq!(checks(&disk), 1);
    disk.now = 1005;
    assert_eq!(write(&mut appender, &mut disk, b"c"), Ok(1));
    assert_eq!(checks(&disk), 2);
    disk.now = 2004;
    assert_eq!(write(&mut appender, &mut disk, b"d"), Ok(1));
    assert_eq!(checks(&disk), 2);
    disk.now = 2005;
    assert_eq!(write(&mut appender, &mut disk, b"e"), Ok(1));
    assert_eq!(checks(&disk), 3);
    assert_eq!(disk.content(b"app.log"), Some(b"abcde".to_vec()));
}

#[test]
fn a_deleted_file_goes_unnoticed_within_the_interval() {
    let mut disk = Disk::new();
    let mut appender = FileAppender::new(b"app.log".to_vec(), false, 100, 2, false);
    assert_eq!(write(&mut appender, &mut disk, b"before"), Ok(6));
    disk.files.remove(&b"app.log".to_vec());
    disk.now = 999;
    assert_eq!(write(&mut appender, &mut disk, b"lost"), Ok(4));
    assert_eq!(disk.content(b"app.log"), None);
    assert_eq!(appender.written_size(), 10);
}

#[test]
fn rotation_schedules_the_next_look_a_full_interval_off() {
    let mut disk = Disk::new();
    let mut appender = FileAppender::new(b"a".to_vec(), false, 1, 2, false);
    disk.now = 10;
    assert_eq!(write(&mut appender, &mut disk, b"x"), Ok(1));
    disk.now = 700;
    assert_eq!(flush(&mut appender, &mut disk), Ok(0));
    let after_rotation = checks(&disk);
    disk.now = 1699;
    assert_eq!(write(&mut appender, &mut disk, b"y"), Ok(1));
    assert_eq!(checks(&disk), after_rotation);
    disk.now = 1700;
    assert_eq!(write(&mut appender, &mut disk, b"z"), Ok(1));
    assert_eq!(checks(&disk), after_rotation + 1);
}

#[test]
fn rotation_with_compression_starts_one_worker() {
    let mut disk = Disk::new();
    let mut appender = FileAppender::new(b"a.log".to_vec(), false, 1, 2, true);
    assert_eq!(write(&mut appender, &mut disk, b"to be compressed"), Ok(16));
    assert_eq!(flush(&mut appender, &mut disk), Ok(0));
    assert_eq!(
        disk.jobs,
        vec![(b"a.log.1".to_vec(), b"a.log.1.gz.temp".to_vec(), b"a.log.1.gz".to_vec())]
    );
    assert!(appender.compression_pending());
    assert_eq!(disk.content(b"a.log.1"), Some(b"to be compressed".to_vec()));
    assert_eq!(disk.content(b"a.log"), Some(Vec::new()));
    assert_eq!(disk.paths(), vec![b"a.log".to_vec(), b"a.log.1".to_vec()]);
}

#[test]
fn the_worker_turns_the_plain_file_into_the_backup() {
    let mut disk = Disk::new();
    let mut appender = FileAppender::new(b"a.log".to_vec(), false, 1, 2, true);
    assert_eq!(write(&mut appender, &mut disk, b"to be compressed"), Ok(16));
    assert_eq!(flush(&mut appender, &mut disk), Ok(0));
    let job = disk.jobs[0].clone();
    assert_eq!(work(&mut disk, job), Ok(0));
    assert_eq!(disk.paths(), vec![b"a.log".to_vec(), b"a.log.1.gz".to_vec()]);
    let stream = disk.content(b"a.log.1.gz").unwrap();
    assert_eq!(decompress(&stream), Some(b"to be compressed".to_vec()));
}

#[test]
fn a_running_compression_blocks_the_next_rotation() {
    let mut disk = Disk::new();
    let mut appender = FileAppender::new(b"a.log".to_vec(), false, 1, 2, true);
    assert_eq!(write(&mut appender, &mut disk, b"first"), Ok(5));
    assert_eq!(flush(&mut appender, &mut disk), Ok(0));
    assert_eq!(write(&mut appender, &mut disk, b"second"), Ok(6));
    let files_before = disk.files.clone();
    disk.log.clear();
    assert_eq!(flush(&mut appender, &mut disk), Ok(0));
    assert_eq!(disk.log, vec![Action::Flush, Action::PollCompression]);
    assert_eq!(disk.files, files_before);
    assert_eq!(disk.jobs.len(), 1);
    assert!(appender.compression_pending());
    assert!(appender.is_open());
    assert_eq!(appender.written_size(), 6);
    assert_eq!(write(&mut appender, &mut disk, b"third"), Ok(5));
    assert_eq!(disk.content(b"a.log"), Some(b"secondthird".to_vec()));
}

#[test]
fn rotation_goes_on_once_the_compression_has_succeeded() {
    let mut disk = Disk::new();
    let mut appender = FileAppender::new(b"a.log".to_vec(), false, 1, 2, true);
    assert_eq!(write(&mut appender, &mut disk, b"first"), Ok(5));
    assert_eq!(flush(&mut appender, &mut disk), Ok(0));
    let job = disk.jobs[0].clone();
    assert_eq!(work(&mut disk, job), Ok(0));
    disk.report = Poll::Succeeded;
    assert_eq!(write(&mut appender, &mut disk, b"second"), Ok(6));
    assert_eq!(flush(&mut appender, &mut disk), Ok(0));
    assert_eq!(disk.jobs.len(), 2);
    let job = disk.jobs[1].clone();
    assert_eq!(work(&mut disk, job), Ok(0));
    assert_eq!(
        disk.paths(),
        vec![b"a.log".to_vec(), b"a.log.1.gz".to_vec(), b"a.log.2.gz".to_vec()]
    );
    assert_eq!(decompress(&disk.content(b"a.log.1.gz").unwrap()), Some(b"second".to_vec()));
    assert_eq!(decompress(&disk.content(b"a.log.2.gz").unwrap()), Some(b"first".to_vec()));
}

#[test]
fn compressed_backups_beyond_the_retention_count_are_deleted() {
    let mut disk = Disk::new();
    let mut appender = FileAppender::new(b"a.log".to_vec(), false, 1, 1, true);
    for batch in [&b"r1"[..], &b"r2"[..], &b"r3"[..]] {
        assert_eq!(write(&mut appender, &mut disk, batch), Ok(2));
        assert_eq!(flush(&mut appender, &mut disk), Ok(0));
        let job = disk.jobs.last().unwrap().clone();
        assert_eq!(work(&mut disk, job), Ok(0));
        disk.report = Poll::Succeeded;
    }
    assert_eq!(disk.paths(), vec![b"a.log".to_vec(), b"a.log.1.gz".to_vec()]);
    assert_eq!(decompress(&disk.content(b"a.log.1.gz").unwrap()), Some(b"r3".to_vec()));
}

#[test]
fn a_lost_worker_fails_the_flush_and_stays_pending() {
    let mut disk = Disk::new();
    let mut appender = FileAppender::new(b"a.log".to_vec(), false, 1, 2, true);
    assert_eq!(write(&mut appender, &mut disk, b"first"), Ok(5));
    assert_eq!(flush(&mut appender, &mut disk), Ok(0));
    assert_eq!(write(&mut appender, &mut disk, b"second"), Ok(6));
    disk.report = Poll::Lost;
    let files_before = disk.files.clone();
    assert_eq!(flush(&mut appender, &mut disk), Err(ErrorKind::CompressionWorkerLost));
    assert_eq!(disk.files, files_before);
    assert!(appender.compression_pending());
    assert!(appender.is_open());
    assert_eq!(flush(&mut appender, &mut disk), Err(ErrorKind::CompressionWorkerLost));
}

#[test]
fn a_failed_compression_fails_the_flush() {
    let mut disk = Disk::new();
    let mut appender = FileAppender::new(b"a.log".to_vec(), false, 1, 2, true);
    assert_eq!(write(&mut appender, &mut disk, b"first"), Ok(5));
    assert_eq!(flush(&mut appender, &mut disk), Ok(0));
    assert_eq!(write(&mut appender, &mut disk, b"second"), Ok(6));
    disk.report = Poll::Failed;
    let files_before = disk.files.clone();
    assert_eq!(flush(&mut appender, &mut disk), Err(ErrorKind::CompressionFailed));
    assert_eq!(disk.files, files_before);
    assert_eq!(disk.jobs.len(), 1);
    assert_eq!(appender.written_size(), 6);
    assert!(appender.is_open());
    assert!(!appender.compression_pending());
}

#[test]
fn the_flush_after_a_reported_failure_rotates() {
    let mut disk = Disk::new();
    let mut appender = FileAppender::new(b"a.log".to_vec(), false, 1, 2, true);
    assert_eq!(write(&mut appender, &mut disk, b"first"), Ok(5));
    assert_eq!(flush(&mut appender, &mut disk), Ok(0));
    assert_eq!(write(&mut appender, &mut disk, b"second"), Ok(6));
    disk.report = Poll::Failed;
    assert_eq!(flush(&mut appender, &mut disk), Err(ErrorKind::CompressionFailed));
    disk.log.clear();
    assert_eq!(flush(&mut appender, &mut disk), Ok(0));
    assert!(!disk.log.iter().any(is_poll));
    assert_eq!(disk.jobs.len(), 2);
    assert!(appender.compression_pending());
    assert_eq!(appender.written_size(), 0);
    assert_eq!(disk.content(b"a.log"), Some(Vec::new()));
    assert_eq!(disk.content(b"a.log.1"), Some(b"second".to_vec()));
    let job = disk.jobs[1].clone();
    assert_eq!(work(&mut disk, job), Ok(0));
    assert_eq!(decompress(&disk.content(b"a.log.1.gz").unwrap()), Some(b"second".to_vec()));
}

#[test]
fn a_worker_that_was_asked_for_is_remembered_when_the_flush_is_abandoned() {
    let mut disk = Disk::new();
    let mut appender = FileAppender::new(b"a.log".to_vec(), false, 1, 2, true);
    assert_eq!(write(&mut appender, &mut disk, b"first"), Ok(5));
    let mut action = appender.flush();
    while !is_spawn(&action) {
        let event = disk.perform(&action);
        action = appender.resume(event);
    }
    assert!(appender.compression_pending());
    assert_eq!(disk.perform(&action), Event::Done);
    assert_eq!(disk.jobs.len(), 1);
    disk.log.clear();
    assert_eq!(flush(&mut appender, &mut disk), Ok(0));
    assert_eq!(disk.log, vec![Action::PollCompression]);
    assert_eq!(disk.jobs.len(), 1);
    assert!(appender.compression_pending());
    assert_eq!(disk.content(b"a.log.1"), Some(b"first".to_vec()));
}

#[test]
fn beginning_a_write_keeps_a_compression_pending() {
    let mut disk = Disk::new();
    let mut appender = FileAppender::new(b"a.log".to_vec(), false, 1, 2, true);
    assert_eq!(write(&mut appender, &mut disk, b"first"), Ok(5));
    assert_eq!(flush(&mut appender, &mut disk), Ok(0));
    assert!(appender.compression_pending());
    assert_eq!(appender.write(b"x".to_vec()), Action::Clock);
    assert!(appender.compression_pending());
    assert_eq!(appender.flush(), Action::Flush);
    assert!(appender.compression_pending());
}

#[test]
fn a_poll_without_an_answer_counts_as_a_lost_worker() {
    let mut disk = Disk::new();
    let mut appender = FileAppender::new(b"a.log".to_vec(), false, 1, 2, true);
    assert_eq!(write(&mut appender, &mut disk, b"first"), Ok(5));
    assert_eq!(flush(&mut appender, &mut disk), Ok(0));
    assert_eq!(write(&mut appender, &mut disk, b"second"), Ok(6));
    let first = appender.flush();
    assert_eq!(
        play_with_fault(&mut appender, &mut disk, first, is_poll, Event::Failed),
        Err(ErrorKind::CompressionWorkerLost)
    );
}

#[test]
fn a_worker_that_cannot_be_started_fails_the_flush() {
    let mut disk = Disk::new();
    let mut appender = FileAppender::new(b"a.log".to_vec(), false, 1, 2, true);
    assert_eq!(write(&mut appender, &mut disk, b"first"), Ok(5));
    let first = appender.flush();
    assert_eq!(
        play_with_fault(&mut appender, &mut disk, first, is_spawn, Event::Failed),
        Err(ErrorKind::CompressionFailed)
    );
    assert!(!appender.compression_pending());
    assert_eq!(disk.content(b"a.log.1"), Some(b"first".to_vec()));
}

#[test]
fn a_failed_open_fails_the_write_and_leaves_no_handle() {
    let mut disk = Disk::new();
    let mut appender = FileAppender::new(b"app.log".to_vec(), false, 10, 2, false);
    let first = appender.write(b"hello".to_vec());
    assert_eq!(
        play_with_fault(&mut appender, &mut disk, first, is_open, Event::Failed),
        Err(ErrorKind::Open)
    );
    assert!(!appender.is_open());
    assert!(appender.is_idle());
    assert_eq!(write(&mut appender, &mut disk, b"hello"), Ok(5));
    assert!(appender.is_open());
    assert_eq!(disk.content(b"app.log"), Some(b"hello".to_vec()));
}

#[test]
fn a_supervisor_without_the_time_reports_not_open() {
    let mut disk = Disk::new();
    let mut appender = FileAppender::new(b"app.log".to_vec(), false, 10, 2, false);
    let first = appender.write(b"hello".to_vec());
    assert_eq!(
        play_with_fault(&mut appender, &mut disk, first, is_clock, Event::Failed),
        Err(ErrorKind::NotOpen)
    );
    assert_eq!(disk.paths(), Vec::<Vec<u8>>::new());
}

#[test]
fn a_supervisor_without_an_answer_on_the_path_reports_not_open() {
    let mut disk = Disk::new();
    let mut appender = FileAppender::new(b"app.log".to_vec(), false, 10, 2, false);
    let first = appender.write(b"hello".to_vec());
    assert_eq!(
        play_with_fault(&mut appender, &mut disk, first, is_check, Event::Done),
        Err(ErrorKind::NotOpen)
    );
    assert!(!appender.is_open());
}

#[test]
fn a_refused_write_leaves_the_count_and_the_handle() {
    let mut disk = Disk::new();
    let mut appender = FileAppender::new(b"app.log".to_vec(), false, 10, 2, false);
    assert_eq!(write(&mut appender, &mut disk, b"abc"), Ok(3));
    let first = appender.write(b"def".to_vec());
    assert_eq!(
        play_with_fault(&mut appender, &mut disk, first, is_write, Event::Failed),
        Err(ErrorKind::Write)
    );
    assert_eq!(appender.written_size(), 3);
    assert!(appender.is_open());
    assert_eq!(write(&mut appender, &mut disk, b"ghi"), Ok(3));
    assert_eq!(disk.content(b"app.log"), Some(b"abcghi".to_vec()));
}

#[test]
fn a_short_write_counts_what_was_written() {
    let mut disk = Disk::new();
    let mut appender = FileAppender::new(b"app.log".to_vec(), false, 10, 2, false);
    let first = appender.write(b"abcdef".to_vec());
    assert_eq!(
        play_with_fault(&mut appender, &mut disk, first, is_write, Event::Written(4)),
        Ok(4)
    );
    assert_eq!(appender.written_size(), 4);
}

#[test]
fn the_count_saturates() {
    let mut disk = Disk::with_file(b"app.log", b"");
    disk.handle = Some(b"app.log".to_vec());
    let mut appender = FileAppender::new(b"app.log".to_vec(), false, 10, 2, false);
    let first = appender.write(b"abcdef".to_vec());
    assert_eq!(
        play_with_fault(&mut appender, &mut disk, first, is_open, Event::Opened(u64::MAX - 2)),
        Ok(6)
    );
    assert_eq!(appender.written_size(), u64::MAX);
}

#[test]
fn a_failed_flush_does_not_rotate() {
    let mut disk = Disk::new();
    let mut appender = FileAppender::new(b"app.log".to_vec(), false, 1, 2, false);
    assert_eq!(write(&mut appender, &mut disk, b"abc"), Ok(3));
    let first = appender.flush();
    assert_eq!(
        play_with_fault(&mut appender, &mut disk, first, is_flush, Event::Failed),
        Err(ErrorKind::Flush)
    );
    assert_eq!(disk.paths(), vec![b"app.log".to_vec()]);
    assert!(appender.is_open());
    assert_eq!(appender.written_size(), 3);
}

#[test]
fn a_flush_with_no_handle_skips_the_flushing() {
    let mut disk = Disk::new();
    let mut appender = FileAppender::new(b"app.log".to_vec(), false, 1, 2, false);
    assert_eq!(appender.flush(), Action::Finished(Ok(0)));
    assert_eq!(flush(&mut appender, &mut disk), Ok(0));
    assert_eq!(disk.log, Vec::<Action>::new());
}

#[test]
fn a_failed_rename_stops_the_rotation_where_it_is() {
    let mut disk = Disk::new();
    disk.files.insert(b"a.1".to_vec(), b"one".to_vec());
    let mut appender = FileAppender::new(b"a".to_vec(), false, 1, 2, false);
    assert_eq!(write(&mut appender, &mut disk, b"now"), Ok(3));
    let first = appender.flush();
    assert_eq!(
        play_with_fault(&mut appender, &mut disk, first, is_rename, Event::Failed),
        Err(ErrorKind::Rename)
    );
    assert_eq!(disk.content(b"a.1"), Some(b"one".to_vec()));
    assert_eq!(disk.content(b"a"), Some(b"now".to_vec()));
    assert!(!appender.is_open());
    assert_eq!(appender.written_size(), 3);
    assert!(appender.is_idle());
}

#[test]
fn a_rotation_that_failed_is_tried_again_at_the_next_flush() {
    let mut disk = Disk::new();
    let mut appender = FileAppender::new(b"a".to_vec(), false, 1, 2, false);
    assert_eq!(write(&mut appender, &mut disk, b"now"), Ok(3));
    let first = appender.flush();
    assert_eq!(
        play_with_fault(&mut appender, &mut disk, first, is_rename, Event::Failed),
        Err(ErrorKind::Rename)
    );
    assert_eq!(flush(&mut appender, &mut disk), Ok(0));
    assert_eq!(disk.content(b"a.1"), Some(b"now".to_vec()));
    assert_eq!(disk.content(b"a"), Some(Vec::new()));
}

#[test]
fn a_failed_delete_fails_the_rotation() {
    let mut disk = Disk::new();
    disk.files.insert(b"a.1".to_vec(), b"one".to_vec());
    let mut appender = FileAppender::new(b"a".to_vec(), false, 1, 1, false);
    assert_eq!(write(&mut appender, &mut disk, b"now"), Ok(3));
    let first = appender.flush();
    assert_eq!(
        play_with_fault(&mut appender, &mut disk, first, is_remove, Event::Failed),
        Err(ErrorKind::Delete)
    );
    assert_eq!(disk.content(b"a.1"), Some(b"now".to_vec()));
    assert_eq!(disk.content(b"a.2"), Some(b"one".to_vec()));
    assert_eq!(appender.written_size(), 3);
}

#[test]
fn a_path_that_is_not_utf8_fails_the_rotation() {
    let path = vec![b'l', 0xff, b'g'];
    let mut disk = Disk::new();
    let mut appender = FileAppender::new(path.clone(), false, 1, 2, false);
    assert_eq!(write(&mut appender, &mut disk, b"abc"), Ok(3));
    disk.log.clear();
    assert_eq!(flush(&mut appender, &mut disk), Err(ErrorKind::InvalidPath));
    assert_eq!(disk.log, vec![Action::Flush, Action::Close]);
    assert_eq!(disk.paths(), vec![path.clone()]);
    assert!(!appender.is_open());
    assert_eq!(write(&mut appender, &mut disk, b"def"), Ok(3));
    assert_eq!(disk.content(&path), Some(b"abcdef".to_vec()));
}

#[test]
fn a_path_that_is_not_utf8_fails_the_rotation_when_nothing_is_kept() {
    let path = vec![0xc0, b'x'];
    let mut disk = Disk::new();
    let mut appender = FileAppender::new(path.clone(), false, 1, 0, false);
    assert_eq!(write(&mut appender, &mut disk, b"abc"), Ok(3));
    assert_eq!(flush(&mut appender, &mut disk), Err(ErrorKind::InvalidPath));
    assert_eq!(disk.content(&path), Some(b"abc".to_vec()));
}

#[test]
fn an_event_for_an_idle_appender_changes_nothing() {
    let mut appender = FileAppender::new(b"app.log".to_vec(), false, 10, 2, false);
    assert_eq!(appender.resume(Event::Done), Action::Idle);
    assert_eq!(appender.resume(Event::Opened(7)), Action::Idle);
    assert!(appender.is_idle());
    assert!(!appender.is_open());
    assert_eq!(appender.written_size(), 0);
}

#[test]
fn beginning_a_write_abandons_a_write_in_progress() {
    let mut disk = Disk::new();
    let mut appender = FileAppender::new(b"app.log".to_vec(), false, 10, 2, false);
    assert_eq!(appender.write(b"dropped".to_vec()), Action::Clock);
    assert!(!appender.is_idle());
    assert_eq!(write(&mut appender, &mut disk, b"kept"), Ok(4));
    assert_eq!(disk.content(b"app.log"), Some(b"kept".to_vec()));
}

#[test]
fn the_worker_follows_the_order_of_its_steps() {
    let mut disk = Disk::with_file(b"a.1", b"plain bytes");
    let mut worker = Compressor::new(b"a.1".to_vec(), b"a.1.gz.temp".to_vec(), b"a.1.gz".to_vec());
    let read = worker.start();
    assert_eq!(read, Action::Read(b"a.1".to_vec()));
    let loaded = disk.perform(&read);
    let store = worker.resume(loaded);
    match &store {
        Action::Store { path, data } => {
            assert_eq!(path, &b"a.1.gz.temp".to_vec());
            assert_eq!(decompress(data), Some(b"plain bytes".to_vec()));
        }
        other => panic!("expected a store, got {:?}", other),
    }
    assert_eq!(disk.perform(&store), Event::Done);
    assert_eq!(disk.content(b"a.1.gz"), None);
    let rename = worker.resume(Event::Done);
    assert_eq!(rename, Action::Rename { from: b"a.1.gz.temp".to_vec(), to: b"a.1.gz".to_vec() });
    assert_eq!(disk.perform(&rename), Event::Done);
    assert_eq!(disk.content(b"a.1"), Some(b"plain bytes".to_vec()));
    let remove = worker.resume(Event::Done);
    assert_eq!(remove, Action::Remove(b"a.1".to_vec()));
    assert_eq!(disk.perform(&remove), Event::Done);
    assert_eq!(worker.resume(Event::Done), Action::Finished(Ok(0)));
    assert_eq!(worker.resume(Event::Done), Action::Idle);
    assert_eq!(disk.paths(), vec![b"a.1.gz".to_vec()]);
}

#[test]
fn the_worker_fails_without_a_plain_file() {
    let mut disk = Disk::new();
    let job = (b"a.1".to_vec(), b"a.1.gz.temp".to_vec(), b"a.1.gz".to_vec());
    assert_eq!(work(&mut disk, job), Err(ErrorKind::CompressionFailed));
    assert_eq!(disk.paths(), Vec::<Vec<u8>>::new());
}

#[test]
fn the_worker_fails_where_a_step_fails() {
    for failing in 1..4 {
        let mut disk = Disk::with_file(b"a.1", b"plain bytes");
        let mut worker =
            Compressor::new(b"a.1".to_vec(), b"a.1.gz.temp".to_vec(), b"a.1.gz".to_vec());
        let mut action = worker.start();
        let mut step = 0;
        let result = loop {
            if let Action::Finished(result) = action {
                break result;
            }
            let event = if step == failing { Event::Failed } else { disk.perform(&action) };
            action = worker.resume(event);
            step += 1;
        };
        assert_eq!(result, Err(ErrorKind::CompressionFailed));
        assert_eq!(disk.content(b"a.1"), Some(b"plain bytes".to_vec()));
    }
}

#[test]
fn the_worker_takes_the_encoder_outcome_as_given() {
    let mut worker = Compressor::new(b"p".to_vec(), b"t".to_vec(), b"d".to_vec());
    assert_eq!(worker.start(), Action::Read(b"p".to_vec()));
    assert_eq!(
        worker.store(Ok(vec![1, 2, 3])),
        Action::Store { path: b"t".to_vec(), data: vec![1, 2, 3] }
    );
    let mut failing = Compressor::new(b"p".to_vec(), b"t".to_vec(), b"d".to_vec());
    assert_eq!(failing.start(), Action::Read(b"p".to_vec()));
    assert_eq!(
        failing.store(Err(ErrorKind::CompressionFailed)),
        Action::Finished(Err(ErrorKind::CompressionFailed))
    );
    assert_eq!(failing.resume(Event::Done), Action::Idle);
}
