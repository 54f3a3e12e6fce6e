use typix::event::{RawEvent, EV_KEY, KEY_A, KEY_PRESSED, KEY_RELEASED};
use typix::input::listen;
use typix::pixela::{baseline_of, Fetched, API};
use typix::reader::{ReadOutcome, ReaderState, Tick};
use typix::tally::Tally;

fn stroke(value: i32, dropped: bool) -> ReadOutcome {
    ReadOutcome::Event(RawEvent { kind: EV_KEY, code: KEY_A, value, dropped })
}

#[test]
fn presses_flow_from_reads_to_reports() {
    let mut reads = Vec::new();
    for _ in 0..52 {
        reads.push(stroke(KEY_PRESSED, false));
        reads.push(stroke(KEY_RELEASED, false));
    }
    let mut channel: Vec<Tick> = Vec::new();
    assert_eq!(listen(&reads, &mut channel), ReaderState::Synced);
    assert_eq!(channel.len(), 52);

    let api = API::new("alice".to_string(), "s3cr3t".to_string());
    let mut tally = Tally::new(baseline_of(Fetched::Quantity(48)));
    let reports: Vec<_> = tally
        .feed(&channel)
        .into_iter()
        .map(|count| api.post_pixel_on("typing", "20240131", count))
        .collect();
    assert_eq!(
        reports,
        vec![
            api.post_pixel_on("typing", "20240131", 50),
            api.post_pixel_on("typing", "20240131", 100),
        ]
    );
    assert_eq!(tally.count(), 100);
}

#[test]
fn presses_lost_to_a_resync_are_not_counted() {
    let mut reads = Vec::new();
    for _ in 0..30 {
        reads.push(stroke(KEY_PRESSED, false));
    }
    reads.push(stroke(KEY_RELEASED, true));
    for _ in 0..30 {
        reads.push(stroke(KEY_PRESSED, false));
    }
    reads.push(stroke(KEY_RELEASED, true));
    for _ in 0..30 {
        reads.push(stroke(KEY_PRESSED, false));
    }
    let mut channel: Vec<Tick> = Vec::new();
    assert_eq!(listen(&reads, &mut channel), ReaderState::Synced);
    assert_eq!(channel.len(), 60);

    let mut tally = Tally::new(baseline_of(Fetched::Unreadable));
    assert_eq!(tally.feed(&channel), vec![50]);
    assert_eq!(tally.count(), 60);
}
