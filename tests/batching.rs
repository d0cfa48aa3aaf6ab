use curseforge_pack_downloader::error::DownloadError;
use curseforge_pack_downloader::orchestrator::{
    batch_ranges, batch_size, DownloadTally, ModDownloadProgressResponse,
};

fn assert_partition(n: usize, parallel: u8, size: usize) {
    let r = batch_ranges(n, parallel);
    let expected_count = if n == 0 { 0 } else { (n + size - 1) / size };
    assert_eq!(r.len(), expected_count);
    let mut next = 0;
    for (start, end) in &r {
        assert_eq!(*start, next);
        assert!(start < end);
        assert!(end - start <= size);
        next = *end;
    }
    assert_eq!(next, n);
}

#[test]
fn batching_parallelism_zero_is_one_batch() {
    assert_eq!(batch_size(0, 7), 7);
    assert_eq!(batch_ranges(7, 0), vec![(0, 7)]);
    assert_partition(7, 0, 7);
}

#[test]
fn batching_parallelism_one_is_one_entry_each() {
    assert_eq!(batch_size(1, 4), 1);
    assert_eq!(batch_ranges(4, 1), vec![(0, 1), (1, 2), (2, 3), (3, 4)]);
}

#[test]
fn batching_parallelism_n_splits_with_short_last() {
    assert_eq!(batch_size(3, 7), 3);
    assert_eq!(batch_ranges(7, 3), vec![(0, 3), (3, 6), (6, 7)]);
    assert_partition(7, 3, 3);
    assert_eq!(batch_ranges(6, 3), vec![(0, 3), (3, 6)]);
}

#[test]
fn batching_parallelism_above_count_is_one_batch() {
    assert_eq!(batch_size(200, 5), 5);
    assert_eq!(batch_ranges(5, 200), vec![(0, 5)]);
}

#[test]
fn batching_many_entries_beyond_byte_range() {
    // 300 entries with parallelism 16: the count is compared as a whole number.
    assert_eq!(batch_size(16, 300), 16);
    assert_partition(300, 16, 16);
    assert_eq!(batch_ranges(300, 16).len(), 19);
}

#[test]
fn batching_no_entries_gives_no_batches() {
    assert!(batch_ranges(0, 0).is_empty());
    assert!(batch_ranges(0, 5).is_empty());
}

#[test]
fn partial_failure_still_counts_whole_batch() {
    let mut tally = DownloadTally::new(5);
    let outcomes = vec![
        Ok(()),
        Ok(()),
        Err(DownloadError::TransportError),
        Ok(()),
        Ok(()),
    ];
    let progress = tally.record_batch(&outcomes);
    assert_eq!(progress, ModDownloadProgressResponse { downloaded: 5, total: 5 });
    assert_eq!(tally.attempted, 5);
    assert_eq!(tally.succeeded, 4);
    assert_eq!(tally.failed, 1);
}

#[test]
fn progress_is_cumulative_across_batches() {
    let mut tally = DownloadTally::new(5);
    let p1 = tally.record_batch(&vec![Ok(()), Err(DownloadError::InvalidIdentifier)]);
    assert_eq!(p1, ModDownloadProgressResponse { downloaded: 2, total: 5 });
    let p2 = tally.record_batch(&vec![Err(DownloadError::TransportError); 3]);
    assert_eq!(p2, ModDownloadProgressResponse { downloaded: 5, total: 5 });
    assert_eq!(tally.succeeded, 1);
    assert_eq!(tally.failed, 4);
}
