use network_observer::ranges::chunks_in_ranges;
use network_observer::ranges::total_chunks;
use network_observer::ranges::DatasetRanges;
use network_observer::ranges::StoredRange;

fn dataset(url: &str, ranges: Vec<(u32, u32)>) -> DatasetRanges {
    DatasetRanges {
        url: url.to_string(),
        ranges: ranges
            .into_iter()
            .map(|(begin, end)| StoredRange { begin, end })
            .collect(),
    }
}

#[test]
fn total_chunks_of_two_ranges() {
    let datasets = vec![dataset("s3://a", vec![(0, 9), (20, 25)])];
    assert_eq!(total_chunks(&datasets), 16);
}

#[test]
fn total_chunks_sums_across_datasets() {
    let datasets = vec![
        dataset("s3://a", vec![(0, 9)]),
        dataset("s3://b", vec![(20, 25), (100, 100)]),
    ];
    assert_eq!(total_chunks(&datasets), 17);
}

#[test]
fn total_chunks_of_nothing_is_zero() {
    assert_eq!(total_chunks(&Vec::new()), 0);
    assert_eq!(total_chunks(&vec![dataset("s3://a", vec![])]), 0);
}

#[test]
fn single_chunk_range_counts_one() {
    assert_eq!(StoredRange { begin: 7, end: 7 }.chunks(), 1);
}

#[test]
fn full_range_counts_every_chunk() {
    assert_eq!(
        StoredRange { begin: 0, end: u32::MAX }.chunks(),
        4_294_967_296
    );
}

#[test]
fn reversed_range_counts_nothing() {
    assert_eq!(StoredRange { begin: 5, end: 3 }.chunks(), 0);
    let ranges = vec![
        StoredRange { begin: 0, end: 9 },
        StoredRange { begin: 5, end: 3 },
    ];
    assert_eq!(chunks_in_ranges(&ranges), 10);
}
