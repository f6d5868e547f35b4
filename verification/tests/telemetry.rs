use gridpool_ckpool_adapter::difficulty::Difficulty;
use gridpool_ckpool_adapter::report::TelemetryBatch;
use gridpool_ckpool_adapter::telemetry::{
    ShareReport, TelemetryAccumulator, TelemetryBook, WorkSums,
};

fn number(value: f64) -> Difficulty {
    Difficulty {
        bits: value.to_bits(),
    }
}

fn share(name: &str, accepted: bool, fee_work: bool, difficulty: f64, at: i64) -> ShareReport {
    ShareReport {
        channel_id: "c".to_owned(),
        payout_address: "a".to_owned(),
        username: name.to_owned(),
        accepted,
        difficulty: number(difficulty),
        fee_work,
        observed_unix_ms: at,
    }
}

fn record(book: &mut TelemetryBook, share: ShareReport) {
    let sums = book.work_sums(&share.channel_id, &share.payout_address, &share.username);
    let added = f64::from_bits(share.difficulty.bits);
    assert!(book.has_room_for(&share));
    book.record(
        share,
        WorkSums {
            accepted: number(f64::from_bits(sums.accepted.bits) + added),
            fee: number(f64::from_bits(sums.fee.bits) + added),
        },
    );
}

fn restore(book: &mut TelemetryBook, pending: Vec<TelemetryAccumulator>) {
    let mut sums = Vec::new();
    for old in &pending {
        let now = book.work_sums(&old.channel_id, &old.payout_address, &old.username);
        let add = |x: Difficulty, y: Difficulty| number(f64::from_bits(x.bits) + f64::from_bits(y.bits));
        sums.push(WorkSums {
            accepted: add(now.accepted, old.accepted_difficulty),
            fee: add(now.fee, old.fee_difficulty),
        });
    }
    assert!(book.has_room_for_all(&pending));
    book.restore(pending, sums);
}

fn of<'a>(book: &'a TelemetryBook, name: &str) -> &'a TelemetryAccumulator {
    book.entries.iter().find(|entry| entry.username == name).unwrap()
}

#[test]
fn shares_are_gathered_per_miner() {
    let mut book = TelemetryBook::new();
    record(&mut book, share("x", true, false, 4.0, 100));
    record(&mut book, share("x", true, true, 8.0, 90));
    record(&mut book, share("x", false, true, 64.0, 150));
    record(&mut book, share("y", true, true, 2.0, 7));
    assert_eq!(book.entries.len(), 2);
    let x = of(&book, "x");
    assert_eq!((x.window_start_unix_ms, x.window_end_unix_ms), (100, 150));
    assert_eq!((x.accepted_shares, x.rejected_shares), (2, 1));
    assert_eq!(x.accepted_difficulty, number(12.0));
    assert_eq!(x.fee_difficulty, number(8.0));
    assert_eq!(x.best_difficulty, number(64.0));
    let y = of(&book, "y");
    assert_eq!((y.accepted_shares, y.rejected_shares), (1, 0));
    assert_eq!(y.fee_difficulty, number(2.0));
    assert_eq!((y.window_start_unix_ms, y.window_end_unix_ms), (7, 7));
}

#[test]
fn names_that_join_to_the_same_text_are_one_miner() {
    let mut book = TelemetryBook::new();
    let mut first = share("n", true, false, 1.0, 1);
    first.channel_id = "a\0b".to_owned();
    first.payout_address = "c".to_owned();
    let mut second = share("n", true, false, 1.0, 2);
    second.channel_id = "a".to_owned();
    second.payout_address = "b\0c".to_owned();
    record(&mut book, first);
    record(&mut book, second);
    assert_eq!(book.entries.len(), 1);
    assert_eq!(book.entries[0].accepted_shares, 2);
    assert_eq!(book.entries[0].channel_id, "a\0b");
}

#[test]
fn a_run_of_shares_adds_up() {
    let mut book = TelemetryBook::new();
    record(&mut book, share("x", false, true, 9.0, 50));
    record(&mut book, share("y", true, true, 100.0, 1));
    record(&mut book, share("x", true, false, 2.5, 70));
    record(&mut book, share("x", true, true, 4.0, 60));
    record(&mut book, share("x", true, true, 0.5, 65));
    let x = of(&book, "x");
    assert_eq!((x.accepted_shares, x.rejected_shares), (3, 1));
    assert_eq!(x.accepted_difficulty, number(7.0));
    assert_eq!(x.fee_difficulty, number(4.5));
    assert_eq!(x.best_difficulty, number(9.0));
    assert_eq!((x.window_start_unix_ms, x.window_end_unix_ms), (50, 70));
    let y = of(&book, "y");
    assert_eq!((y.accepted_shares, y.rejected_shares), (1, 0));
    assert_eq!(y.accepted_difficulty, number(100.0));
}

#[test]
fn miners_with_plain_names_are_told_apart() {
    let mut book = TelemetryBook::new();
    let mut first = share("n", true, false, 1.0, 1);
    first.channel_id = "ab".to_owned();
    first.payout_address = "c".to_owned();
    let mut second = share("n", true, false, 1.0, 2);
    second.channel_id = "a".to_owned();
    second.payout_address = "bc".to_owned();
    record(&mut book, first);
    record(&mut book, second);
    record(&mut book, share("n\0", true, false, 1.0, 3));
    record(&mut book, share("n", true, false, 1.0, 4));
    assert_eq!(book.entries.len(), 4);
}

#[test]
fn a_flush_hands_out_everything_once() {
    let mut book = TelemetryBook::new();
    assert!(book.flush().is_none());
    record(&mut book, share("x", true, false, 4.0, 100));
    record(&mut book, share("y", false, false, 4.0, 100));
    let pending = book.flush().unwrap();
    assert_eq!(pending.len(), 2);
    assert!(book.entries.is_empty());
    assert!(book.flush().is_none());
}

#[test]
fn a_failed_flush_loses_nothing() {
    let mut book = TelemetryBook::new();
    record(&mut book, share("x", true, true, 4.0, 100));
    record(&mut book, share("z", true, false, 1.0, 100));
    let pending = book.flush().unwrap();
    record(&mut book, share("x", true, false, 2.0, 50));
    record(&mut book, share("x", false, false, 16.0, 300));
    record(&mut book, share("y", true, false, 1.0, 9));
    restore(&mut book, pending);
    assert_eq!(book.entries.len(), 3);
    let x = of(&book, "x");
    assert_eq!((x.accepted_shares, x.rejected_shares), (2, 1));
    assert_eq!((x.window_start_unix_ms, x.window_end_unix_ms), (50, 300));
    assert_eq!(x.accepted_difficulty, number(6.0));
    assert_eq!(x.fee_difficulty, number(4.0));
    assert_eq!(x.best_difficulty, number(16.0));
    assert_eq!(of(&book, "y").accepted_shares, 1);
    assert_eq!(of(&book, "z").accepted_difficulty, number(1.0));
}

#[test]
fn an_undisturbed_restore_brings_the_book_back() {
    let mut book = TelemetryBook::new();
    record(&mut book, share("x", true, true, 4.0, 100));
    record(&mut book, share("y", true, false, 3.0, 200));
    let pending = book.flush().unwrap();
    restore(&mut book, pending);
    assert_eq!(book.entries.len(), 2);
    assert_eq!(of(&book, "x").fee_difficulty, number(4.0));
    assert_eq!(of(&book, "y").window_start_unix_ms, 200);
}

#[test]
fn full_counts_have_no_room() {
    let mut book = TelemetryBook::new();
    record(&mut book, share("x", true, false, 4.0, 100));
    let pending = book.flush().unwrap();
    record(&mut book, share("x", true, false, 4.0, 100));
    book.entries[0].accepted_shares = u64::MAX;
    assert!(!book.has_room_for(&share("x", true, false, 1.0, 1)));
    assert!(book.has_room_for(&share("x", false, false, 1.0, 1)));
    assert!(book.has_room_for(&share("y", true, false, 1.0, 1)));
    assert!(!book.has_room_for_all(&pending));
}

#[test]
fn reports_carry_the_window_as_text() {
    let mut book = TelemetryBook::new();
    record(&mut book, share("x", true, true, 4.0, 947_638_923_004));
    record(&mut book, share("x", false, true, 5.0, 947_638_924_000));
    let mut pending = book.flush().unwrap();
    pending[0].rejected_shares = 3;
    let batch = TelemetryBatch::assemble("atlas", &pending);
    assert_eq!(batch.source_instance, "atlas");
    let report = &batch.entries[0];
    assert_eq!(report.username, "x");
    assert_eq!(report.channel_id, "c");
    assert_eq!(report.payout_address, "a");
    assert_eq!(report.window_start_utc.as_deref(), Some("2000-01-12T01:02:03.004+00:00"));
    assert_eq!(report.window_end_utc.as_deref(), Some("2000-01-12T01:02:04+00:00"));
    assert_eq!((report.accepted_share_count, report.rejected_share_count), (1, 3));
    assert_eq!(report.accepted_work_difficulty, number(4.0));
    assert_eq!(report.fee_work_difficulty, number(4.0));
    assert_eq!(report.best_difficulty, number(5.0));
    pending[0].window_end_unix_ms = i64::MAX;
    assert_eq!(TelemetryBatch::assemble("atlas", &pending).entries[0].window_end_utc, None);
}
