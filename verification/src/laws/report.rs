//! What is sent of the shares.

use vstd::prelude::*;

use crate::difficulty::Difficulty;
use crate::history::{
    accepted_work, after_run, count_of, fee_work, run_adds_up_work, run_is_gathered, sent_by,
    sums_are_added, takes_part,
};
use crate::laws::telemetry::entries_are_found_by_their_miner;
use crate::report::{content, utc_text, TelemetryBatch, TelemetryReport};
use crate::telemetry::{ShareReport, TelemetryAccumulator, TelemetryBook, WorkSums};

verus! {

/// A report carries the names, counts, sums and best difficulty of an entry, each as what it is,
/// and the window as it was written.
pub proof fn reports_carry_the_entry(
    entry: &TelemetryAccumulator,
    start: Option<String>,
    end: Option<String>,
    report: TelemetryReport,
)
    requires
        call_ensures(TelemetryReport::assemble, (entry, start, end), report),
    ensures
        report.channel_id@ == entry.channel_id@,
        report.payout_address@ == entry.payout_address@,
        report.username@ == entry.username@,
        report.window_start_utc is Some <==> start is Some,
        report.window_start_utc is Some ==> report.window_start_utc->0@ == start->0@,
        report.window_end_utc is Some <==> end is Some,
        report.window_end_utc is Some ==> report.window_end_utc->0@ == end->0@,
        report.accepted_share_count == entry.accepted_shares,
        report.rejected_share_count == entry.rejected_shares,
        report.accepted_work_difficulty == entry.accepted_difficulty,
        report.fee_work_difficulty == entry.fee_difficulty,
        report.best_difficulty == entry.best_difficulty,
{
    assert(content(start) is Some <==> start is Some);
    assert(content(end) is Some <==> end is Some);
}

/// A batch names its source and holds one report for each entry, in their order, with the start
/// and the end of the window as text.
pub proof fn batches_hold_a_report_for_each_entry(
    source: &str,
    pending: &Vec<TelemetryAccumulator>,
    batch: TelemetryBatch,
    i: int,
)
    requires
        call_ensures(TelemetryBatch::assemble, (source, pending), batch),
        0 <= i < pending@.len(),
    ensures
        batch.source_instance@ == source@,
        batch.entries@.len() == pending@.len(),
        batch.entries@[i].channel_id@ == pending@[i].channel_id@,
        batch.entries@[i].payout_address@ == pending@[i].payout_address@,
        batch.entries@[i].username@ == pending@[i].username@,
        batch.entries@[i].accepted_share_count == pending@[i].accepted_shares,
        batch.entries@[i].rejected_share_count == pending@[i].rejected_shares,
        batch.entries@[i].accepted_work_difficulty == pending@[i].accepted_difficulty,
        batch.entries@[i].fee_work_difficulty == pending@[i].fee_difficulty,
        batch.entries@[i].best_difficulty == pending@[i].best_difficulty,
        match utc_text(pending@[i].window_start_unix_ms) {
            Some(text) => batch.entries@[i].window_start_utc is Some
                && batch.entries@[i].window_start_utc->0@ == text,
            None => batch.entries@[i].window_start_utc is None,
        },
        match utc_text(pending@[i].window_end_unix_ms) {
            Some(text) => batch.entries@[i].window_end_utc is Some
                && batch.entries@[i].window_end_utc->0@ == text,
            None => batch.entries@[i].window_end_utc is None,
        },
{
    let report = batch.entries@[i];
    assert(report.reports(
        pending@[i],
        utc_text(pending@[i].window_start_unix_ms),
        utc_text(pending@[i].window_end_unix_ms),
    ));
}

/// A batch names its source and holds as many reports as there are entries, also where there is
/// none.
pub proof fn batches_name_their_source(
    source: &str,
    pending: &Vec<TelemetryAccumulator>,
    batch: TelemetryBatch,
)
    requires
        call_ensures(TelemetryBatch::assemble, (source, pending), batch),
    ensures
        batch.source_instance@ == source@,
        batch.entries@.len() == pending@.len(),
{
}

/// Counting one more share makes a run longer by it.
pub proof fn a_recorded_share_extends_the_run(
    before: Map<Seq<char>, TelemetryAccumulator>,
    shares: Seq<ShareReport>,
    sums: Seq<WorkSums>,
    book: &mut TelemetryBook,
    share: ShareReport,
    more: WorkSums,
)
    requires
        old(book)@ == after_run(before, shares, sums),
        call_ensures(TelemetryBook::record, (book, share, more), ()),
    ensures
        final(book)@ == after_run(before, shares.push(share), sums.push(more)),
{
    assert(shares.push(share).drop_last() =~= shares);
    assert(sums.push(more).drop_last() =~= sums);
}

/// Work and counts of a run are those of the shares that are picked out of it.
pub proof fn work_is_that_of_the_picked_shares(
    shares: Seq<ShareReport>,
    key: Seq<char>,
    plus: spec_fn(Difficulty, Difficulty) -> Difficulty,
)
    ensures
        accepted_work(shares, key, plus) == shares.filter(
            |share: ShareReport| share.key() == key && share.accepted,
        ).fold_left(
            Difficulty { bits: 0 },
            |sum: Difficulty, share: ShareReport| plus(sum, share.difficulty),
        ),
        fee_work(shares, key, plus) == shares.filter(
            |share: ShareReport| share.key() == key && share.accepted && share.fee_work,
        ).fold_left(
            Difficulty { bits: 0 },
            |sum: Difficulty, share: ShareReport| plus(sum, share.difficulty),
        ),
        count_of(shares, key, true) == shares.filter(
            |share: ShareReport| share.key() == key && share.accepted,
        ).len(),
        count_of(shares, key, false) == shares.filter(
            |share: ShareReport| share.key() == key && !share.accepted,
        ).len(),
    decreases shares.len(),
{
    let accepted = |share: ShareReport| share.key() == key && share.accepted;
    let rejected = |share: ShareReport| share.key() == key && !share.accepted;
    let in_window = |share: ShareReport| share.key() == key && share.accepted && share.fee_work;
    reveal(Seq::filter);
    reveal_with_fuel(Seq::fold_left, 2);
    if shares.len() > 0 {
        let before = shares.drop_last();
        let last = shares.last();
        work_is_that_of_the_picked_shares(before, key, plus);
        assert(before.filter(accepted).push(last).drop_last() =~= before.filter(accepted));
        assert(before.filter(in_window).push(last).drop_last() =~= before.filter(in_window));
    }
}

proof fn lemma_every_share_has_an_entry(
    shares: Seq<ShareReport>,
    sums: Seq<WorkSums>,
    book: TelemetryBook,
    j: int,
) -> (i: int)
    requires
        shares.len() <= 0xffff_ffff_ffff_ffff,
        forall|k: int| 0 <= k < shares.len() ==> (#[trigger] shares[k]).difficulty.is_share(),
        book.wf(),
        book@ == after_run(Map::empty(), shares, sums),
        0 <= j < shares.len(),
    ensures
        0 <= i < book.entries@.len(),
        book.entries@[i].key() == shares[j].key(),
{
    let key = shares[j].key();
    assert(sent_by(shares, key, j));
    run_is_gathered(Map::empty(), shares, sums, key);
    assert(book@.contains_key(key));
    entries_are_found_by_their_miner(book);
    choose|i: int| 0 <= i < book.entries@.len() && (#[trigger] book.entries@[i]).key() == key
}

#[verifier::spinoff_prover]
proof fn lemma_report_of_an_entry(
    shares: Seq<ShareReport>,
    sums: Seq<WorkSums>,
    plus: spec_fn(Difficulty, Difficulty) -> Difficulty,
    book: TelemetryBook,
    pending: &Vec<TelemetryAccumulator>,
    source: &str,
    batch: TelemetryBatch,
    i: int,
)
    requires
        shares.len() <= 0xffff_ffff_ffff_ffff,
        forall|k: int| 0 <= k < shares.len() ==> (#[trigger] shares[k]).difficulty.is_share(),
        sums_are_added(Map::empty(), shares, sums, plus),
        book.wf(),
        book@ == after_run(Map::empty(), shares, sums),
        pending@ == book.entries@,
        call_ensures(TelemetryBatch::assemble, (source, pending), batch),
        0 <= i < pending@.len(),
    ensures
        batch.entries@.len() == pending@.len(),
        reported_key(batch.entries@[i]) == book.entries@[i].key(),
        reports_the_run(batch.entries@[i], shares, plus),
{
    let entry = book.entries@[i];
    let key = entry.key();
    batches_hold_a_report_for_each_entry(source, pending, batch, i);
    assert(reported_key(batch.entries@[i]) == key);
    entries_are_found_by_their_miner(book);
    assert(book@[key] == entry && book@.contains_key(key));
    run_is_gathered(Map::empty(), shares, sums, key);
    run_adds_up_work(Map::empty(), shares, sums, key, plus);
    work_is_that_of_the_picked_shares(shares, key, plus);
}

/// Calls in a row, from shares to what is sent of them. Where the book holds a run of shares from
/// the start on, a flush and a batch of what it handed out make one report for each miner that
/// took part. It counts the miner's accepted and rejected shares. Its accepted work is made up of
/// the difficulties of the accepted shares, and its fee work of those in fee windows.
pub proof fn batches_report_the_run(
    shares: Seq<ShareReport>,
    sums: Seq<WorkSums>,
    plus: spec_fn(Difficulty, Difficulty) -> Difficulty,
    book: &mut TelemetryBook,
    handed: Option<Vec<TelemetryAccumulator>>,
    source: &str,
    batch: TelemetryBatch,
)
    requires
        0 < shares.len() <= 0xffff_ffff_ffff_ffff,
        forall|i: int| 0 <= i < shares.len() ==> (#[trigger] shares[i]).difficulty.is_share(),
        sums_are_added(Map::empty(), shares, sums, plus),
        old(book).wf(),
        old(book)@ == after_run(Map::empty(), shares, sums),
        call_ensures(TelemetryBook::flush, (book,), handed),
        handed is Some ==> call_ensures(
            TelemetryBatch::assemble,
            (source, &handed->0),
            batch,
        ),
    ensures
        handed is Some,
        forall|j: int|
            0 <= j < shares.len() ==> exists|i: int|
                0 <= i < batch.entries@.len() && reported_key(#[trigger] batch.entries@[i]) == (
                #[trigger] shares[j]).key(),
        forall|i: int|
            0 <= i < batch.entries@.len() ==> reports_the_run(
                #[trigger] batch.entries@[i],
                shares,
                plus,
            ),
        forall|i: int, j: int|
            0 <= i < j < batch.entries@.len() ==> reported_key(#[trigger] batch.entries@[i])
                != reported_key(#[trigger] batch.entries@[j]),
{
    let held = *old(book);
    let first = lemma_every_share_has_an_entry(shares, sums, held, 0);
    let pending = handed->0;
    assert(pending@ == held.entries@);
    lemma_report_of_an_entry(shares, sums, plus, held, &pending, source, batch, first);
    assert forall|i: int| 0 <= i < batch.entries@.len() implies reports_the_run(
        #[trigger] batch.entries@[i],
        shares,
        plus,
    ) by {
        lemma_report_of_an_entry(shares, sums, plus, held, &pending, source, batch, i);
    }
    assert forall|j: int| 0 <= j < shares.len() implies exists|i: int|
        0 <= i < batch.entries@.len() && reported_key(#[trigger] batch.entries@[i]) == (
        #[trigger] shares[j]).key() by {
        let i = lemma_every_share_has_an_entry(shares, sums, held, j);
        lemma_report_of_an_entry(shares, sums, plus, held, &pending, source, batch, i);
        assert(reported_key(batch.entries@[i]) == shares[j].key());
    }
    assert forall|i: int, j: int| 0 <= i < j < batch.entries@.len() implies reported_key(
        #[trigger] batch.entries@[i],
    ) != reported_key(#[trigger] batch.entries@[j]) by {
        entries_are_found_by_their_miner(held);
        lemma_report_of_an_entry(shares, sums, plus, held, &pending, source, batch, i);
        lemma_report_of_an_entry(shares, sums, plus, held, &pending, source, batch, j);
    }
}

/// The text by which the miner of a report is known.
pub open spec fn reported_key(report: TelemetryReport) -> Seq<char> {
    report.channel_id@ + seq!['\0'] + report.payout_address@ + seq!['\0'] + report.username@
}

/// Whether a report tells its miner's part in a run.
pub open spec fn reports_the_run(
    report: TelemetryReport,
    shares: Seq<ShareReport>,
    plus: spec_fn(Difficulty, Difficulty) -> Difficulty,
) -> bool {
    let key = reported_key(report);
    let add_up = |sum: Difficulty, share: ShareReport| plus(sum, share.difficulty);
    &&& report.accepted_share_count == shares.filter(
        |share: ShareReport| share.key() == key && share.accepted,
    ).len()
    &&& report.rejected_share_count == shares.filter(
        |share: ShareReport| share.key() == key && !share.accepted,
    ).len()
    &&& report.accepted_work_difficulty == shares.filter(
        |share: ShareReport| share.key() == key && share.accepted,
    ).fold_left(Difficulty { bits: 0 }, add_up)
    &&& report.fee_work_difficulty == shares.filter(
        |share: ShareReport| share.key() == key && share.accepted && share.fee_work,
    ).fold_left(Difficulty { bits: 0 }, add_up)
    &&& takes_part(shares, key)
    &&& forall|i: int| #[trigger]
        sent_by(shares, key, i) ==> shares[i].difficulty.scaled()
            <= report.best_difficulty.scaled()
    &&& exists|i: int| #[trigger]
        sent_by(shares, key, i) && shares[i].difficulty.scaled() == report.best_difficulty.scaled()
}

} // verus!
