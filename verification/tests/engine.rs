use nomi_core::batch::{Chunk, DownloadQueue, DownloadSet, Downloader};
use nomi_core::progress::{ProgressEvent, ProgressLog};
use nomi_core::task::{DownloadError, DownloadResult, DownloadStatus, FileDownloader};

fn ok_result() -> DownloadResult {
    DownloadResult(Ok(DownloadStatus::Success))
}

fn err_result(url: &str, path: &str) -> DownloadResult {
    DownloadResult(Err(DownloadError::Error {
        url: url.to_string(),
        path: path.to_string(),
        error: "connection reset".to_string(),
    }))
}

fn make_set(n: usize) -> DownloadSet {
    let mut set = DownloadSet::new();
    for i in 0..n {
        set.add(FileDownloader::new(
            format!("https://example.com/{i}"),
            format!("./downloads/{i}"),
        ));
    }
    set
}

#[test]
fn task_accessors() {
    let task = FileDownloader::new("https://example.com/a.jar".to_string(), "./a.jar".to_string());
    assert_eq!(task.url(), "https://example.com/a.jar");
    assert_eq!(task.path(), "./a.jar");
    assert!(task.expected_sha1().is_none());
    let task = task.with_sha1("aa00".to_string());
    let (url, path, sha1) = task.into_parts();
    assert_eq!(url, "https://example.com/a.jar");
    assert_eq!(path, "./a.jar");
    assert_eq!(sha1.as_deref(), Some("aa00"));
}

#[test]
fn empty_set_total_is_zero() {
    let set = DownloadSet::new();
    assert_eq!(set.total(), 0);
    let mut sink = ProgressLog::new();
    set.complete(Vec::new(), &mut sink);
    assert_eq!(sink.event_count(), 0);
}

#[test]
fn set_delivers_one_event_per_task() {
    let set = make_set(4);
    assert_eq!(set.total(), 4);
    let mut sink = ProgressLog::new();
    sink.set_total(set.total());
    let outcomes = vec![
        ok_result(),
        err_result("https://example.com/1", "./downloads/1"),
        ok_result(),
        ok_result(),
    ];
    set.complete(outcomes, &mut sink);
    assert_eq!(sink.total(), Some(4));
    assert_eq!(sink.event_count(), 4);
    for event in sink.events() {
        assert!(matches!(event, ProgressEvent::Finished(_)));
    }
}

#[test]
fn chunk_counts_partition_total() {
    let mut chunk = Chunk::new(make_set(10));
    assert_eq!(chunk.total(), 10);
    let mut outcomes = Vec::new();
    for i in 0..10 {
        if i == 2 {
            outcomes.push(err_result("https://example.com/2", "./downloads/2"));
        } else if i == 7 {
            outcomes.push(DownloadResult(Err(DownloadError::JoinError)));
        } else {
            outcomes.push(ok_result());
        }
    }
    let mut sink = ProgressLog::new();
    chunk.complete(outcomes, &mut sink);
    assert_eq!(chunk.ok_count(), 8);
    assert_eq!(chunk.err_count(), 2);
    assert_eq!(chunk.ok_count() + chunk.err_count(), chunk.total() as usize);
    assert_eq!(sink.event_count(), 10);
}

#[test]
fn queue_completion_delivers_members_in_order() {
    let mut queue = DownloadQueue::new();
    queue.add_downloader(Downloader::Group(make_set(2)));
    queue.add_downloader(Downloader::Single(FileDownloader::new(
        "https://example.com/solo".to_string(),
        "./downloads/solo".to_string(),
    )));
    queue.add_downloader(Downloader::Chunked(Chunk::new(make_set(1))));
    assert_eq!(queue.total(), 4);

    let first_err = err_result("https://example.com/0", "./downloads/0");
    let outcomes = vec![
        vec![first_err, ok_result()],
        vec![ok_result()],
        vec![err_result("https://example.com/0", "./downloads/0")],
    ];
    let mut sink = ProgressLog::new();
    queue.complete(outcomes, &mut sink);
    assert_eq!(sink.event_count(), 4);
    // Member order is preserved: the first member's failure leads.
    assert_eq!(
        sink.events()[0],
        ProgressEvent::Finished(err_result("https://example.com/0", "./downloads/0"))
    );
    assert_eq!(sink.events()[1], ProgressEvent::Finished(ok_result()));
}

#[test]
fn queue_total_is_member_sum_and_fixed() {
    let mut queue = DownloadQueue::new();
    assert_eq!(queue.total(), 0);
    queue.add_downloader(Downloader::Chunked(Chunk::new(make_set(2))));
    queue.add_downloader(Downloader::Group(make_set(3)));
    queue.add_downloader(Downloader::Single(FileDownloader::new(
        "https://example.com/one".to_string(),
        "./downloads/one".to_string(),
    )));
    assert_eq!(queue.member_count(), 3);
    assert_eq!(queue.total(), 6);

    // The denominator is fixed before execution: completing a member's
    // transfers never changes any total.
    let members = queue.into_members();
    let mut delivered = 0u32;
    let mut sink = ProgressLog::new();
    for member in members {
        match member {
            Downloader::Chunked(mut c) => {
                let n = c.total();
                c.complete(vec![ok_result(), ok_result()], &mut sink);
                assert_eq!(c.total(), n);
                delivered += n;
            }
            Downloader::Group(s) => {
                let n = s.total();
                s.complete(vec![ok_result(), ok_result(), ok_result()], &mut sink);
                delivered += n;
            }
            Downloader::Single(_) => {
                sink.send_result(ok_result());
                delivered += 1;
            }
        }
    }
    assert_eq!(delivered, 6);
    assert_eq!(sink.event_count(), 6);
}
