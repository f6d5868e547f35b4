//! Shares gathered per miner.

use vstd::prelude::*;

use crate::difficulty::Difficulty;
use crate::telemetry::{
    by_miner, is_at, lemma_by_miner_at, place_of, sums_by_miner, well_kept, ShareReport,
    TelemetryAccumulator, TelemetryBook, WorkSums, FLUSH_SECONDS,
};

verus! {

/// A miner is known by channel, address and name, with a zero character between each two.
pub proof fn miners_are_known_by_channel_address_and_name(
    share: ShareReport,
    entry: TelemetryAccumulator,
)
    ensures
        share.key() == share.channel_id@ + seq!['\0'] + share.payout_address@ + seq!['\0']
            + share.username@,
        entry.key() == entry.channel_id@ + seq!['\0'] + entry.payout_address@ + seq!['\0']
            + entry.username@,
{
}

/// Shares are gathered for ten seconds.
pub proof fn shares_are_gathered_for_ten_seconds()
    ensures
        FLUSH_SECONDS == 10,
{
}

/// The entries of a book are those of its miners: each is found under its miner's text, no text
/// belongs to two of them, and nothing else is found.
pub proof fn entries_are_found_by_their_miner(book: TelemetryBook)
    requires
        book.wf(),
    ensures
        forall|i: int|
            0 <= i < book.entries@.len() ==> book@.contains_key((#[trigger] book.entries@[i]).key())
                && book@[book.entries@[i].key()] == book.entries@[i],
        forall|i: int, j: int|
            0 <= i < j < book.entries@.len() ==> (#[trigger] book.entries@[i]).key() != (
            #[trigger] book.entries@[j]).key(),
        forall|key: Seq<char>| #[trigger]
            book@.contains_key(key) ==> exists|i: int|
                0 <= i < book.entries@.len() && (#[trigger] book.entries@[i]).key() == key,
{
    let entries = book.entries@;
    assert forall|i: int| 0 <= i < entries.len() implies book@.contains_key(
        (#[trigger] entries[i]).key(),
    ) && book@[entries[i].key()] == entries[i] by {
        lemma_by_miner_at(entries, i);
    }
    assert forall|key: Seq<char>| #[trigger] book@.contains_key(key) implies exists|i: int|
        0 <= i < entries.len() && (#[trigger] entries[i]).key() == key by {
        let i = choose|i: int| is_at(entries, key, i);
        assert(entries[i].key() == key);
    }
}

/// A new book holds nothing.
pub proof fn new_books_are_empty(book: TelemetryBook)
    requires
        call_ensures(TelemetryBook::new, (), book),
    ensures
        book.wf(),
        book.entries@.len() == 0,
        forall|key: Seq<char>| !#[trigger] book@.contains_key(key),
{
}

/// The sums of a miner are those of its entry, and zero where it has none.
pub proof fn sums_are_those_of_the_entry(
    book: &TelemetryBook,
    channel: &str,
    address: &str,
    name: &str,
    sums: WorkSums,
)
    requires
        call_ensures(TelemetryBook::work_sums, (book, channel, address, name), sums),
    ensures
        ({
            let key = channel@ + seq!['\0'] + address@ + seq!['\0'] + name@;
            &&& book@.contains_key(key) ==> sums.accepted == book@[key].accepted_difficulty
                && sums.fee == book@[key].fee_difficulty
            &&& !book@.contains_key(key) ==> sums.accepted.bits == 0 && sums.fee.bits == 0
        }),
{
}

/// There is room for a share unless the count that it belongs to is at its end.
pub proof fn there_is_room_until_a_count_is_full(
    book: &TelemetryBook,
    share: &ShareReport,
    room: bool,
)
    requires
        call_ensures(TelemetryBook::has_room_for, (book, share), room),
    ensures
        ({
            let key = share.channel_id@ + seq!['\0'] + share.payout_address@ + seq!['\0']
                + share.username@;
            room <==> (book@.contains_key(key) ==> if share.accepted {
                book@[key].accepted_shares < 0xffff_ffff_ffff_ffff
            } else {
                book@[key].rejected_shares < 0xffff_ffff_ffff_ffff
            })
        }),
{
}

/// A share changes its miner's entry and no other. The entry keeps its names and the start of its
/// window, and its end moves to a later time only. One of the two counts grows by one. The sums
/// that come with the share are taken over where they concern it: for accepted work, and for
/// accepted work of a fee window. The best difficulty gives way to a greater one only.
pub proof fn shares_are_added_to_their_miner(
    book: &mut TelemetryBook,
    share: ShareReport,
    sums: WorkSums,
    other: Seq<char>,
)
    requires
        old(book).wf(),
        call_ensures(TelemetryBook::record, (book, share, sums), ()),
        old(book)@.contains_key(share.key()) ==> if share.accepted {
            old(book)@[share.key()].accepted_shares < 0xffff_ffff_ffff_ffff
        } else {
            old(book)@[share.key()].rejected_shares < 0xffff_ffff_ffff_ffff
        },
    ensures
        ({
            let key = share.channel_id@ + seq!['\0'] + share.payout_address@ + seq!['\0']
                + share.username@;
            let before = old(book)@[key];
            let after = final(book)@[key];
            let known = old(book)@.contains_key(key);
            &&& final(book).wf()
            &&& final(book)@.contains_key(key)
            &&& other != key ==> final(book)@.contains_key(other) == old(book)@.contains_key(other)
                && (old(book)@.contains_key(other) ==> final(book)@[other] == old(book)@[other])
            &&& known ==> {
                &&& after.channel_id@ == before.channel_id@
                &&& after.payout_address@ == before.payout_address@
                &&& after.username@ == before.username@
                &&& after.window_start_unix_ms == before.window_start_unix_ms
                &&& after.window_end_unix_ms == if share.observed_unix_ms
                    > before.window_end_unix_ms {
                    share.observed_unix_ms
                } else {
                    before.window_end_unix_ms
                }
                &&& after.accepted_shares == before.accepted_shares + if share.accepted {
                    1int
                } else {
                    0
                }
                &&& after.rejected_shares == before.rejected_shares + if share.accepted {
                    0int
                } else {
                    1
                }
                &&& after.accepted_difficulty == if share.accepted {
                    sums.accepted
                } else {
                    before.accepted_difficulty
                }
                &&& after.fee_difficulty == if share.accepted && share.fee_work {
                    sums.fee
                } else {
                    before.fee_difficulty
                }
                &&& after.best_difficulty == if share.difficulty.scaled()
                    > before.best_difficulty.scaled() {
                    share.difficulty
                } else {
                    before.best_difficulty
                }
            }
            &&& !known ==> {
                &&& after.channel_id@ == share.channel_id@
                &&& after.payout_address@ == share.payout_address@
                &&& after.username@ == share.username@
                &&& after.window_start_unix_ms == share.observed_unix_ms
                &&& after.window_end_unix_ms == share.observed_unix_ms
                &&& after.accepted_shares == if share.accepted {
                    1int
                } else {
                    0
                }
                &&& after.rejected_shares == if share.accepted {
                    0int
                } else {
                    1
                }
                &&& after.accepted_difficulty.bits == if share.accepted {
                    sums.accepted.bits
                } else {
                    0
                }
                &&& after.fee_difficulty.bits == if share.accepted && share.fee_work {
                    sums.fee.bits
                } else {
                    0
                }
                &&& share.difficulty.scaled() > 0 ==> after.best_difficulty == share.difficulty
                &&& share.difficulty.scaled() <= 0 ==> after.best_difficulty.bits == 0
            }
        }),
{
    assert((Difficulty { bits: 0 }).scaled() == 0);
}

/// A flush hands out every entry and leaves nothing behind. It hands out nothing exactly where
/// nothing was gathered.
pub proof fn flushes_hand_out_everything(
    book: &mut TelemetryBook,
    handed: Option<Vec<TelemetryAccumulator>>,
)
    requires
        call_ensures(TelemetryBook::flush, (book,), handed),
    ensures
        final(book).wf(),
        final(book).entries@.len() == 0,
        forall|key: Seq<char>| !#[trigger] final(book)@.contains_key(key),
        handed is Some <==> old(book).entries@.len() > 0,
        handed is Some ==> handed->0@ == old(book).entries@,
{
}

/// There is room for what is to be put back unless one of its counts would run over.
pub proof fn there_is_room_until_counts_run_over(
    book: &TelemetryBook,
    pending: &Vec<TelemetryAccumulator>,
    room: bool,
)
    requires
        call_ensures(TelemetryBook::has_room_for_all, (book, pending), room),
    ensures
        room <==> forall|i: int|
            0 <= i < pending@.len() && book@.contains_key((#[trigger] pending@[i]).key())
                ==> book@[pending@[i].key()].accepted_shares + pending@[i].accepted_shares
                <= 0xffff_ffff_ffff_ffff && book@[pending@[i].key()].rejected_shares
                + pending@[i].rejected_shares <= 0xffff_ffff_ffff_ffff,
{
    let fits = |i: int|
        book@[pending@[i].key()].accepted_shares + pending@[i].accepted_shares
            <= 0xffff_ffff_ffff_ffff && book@[pending@[i].key()].rejected_shares
            + pending@[i].rejected_shares <= 0xffff_ffff_ffff_ffff;
    if room {
        assert forall|i: int|
            0 <= i < pending@.len() && book@.contains_key(
                (#[trigger] pending@[i]).key(),
            ) implies fits(i) by {
            assert(book@[pending@[i].key()].has_room_for_all_of(pending@[i]));
        }
    } else {
        let i = choose|i: int|
            0 <= i < pending@.len() && book@.contains_key((#[trigger] pending@[i]).key())
                && !book@[pending@[i].key()].has_room_for_all_of(pending@[i]);
        assert(!fits(i));
    }
}

/// What is put back of a miner of whom nothing came in since is its entry as it was. Of any other
/// miner the counts of both are added, the window covers both, the greater best difficulty stays,
/// and the sums are the given ones. The names stay.
pub proof fn entries_are_put_back(
    book: &mut TelemetryBook,
    pending: Vec<TelemetryAccumulator>,
    sums: Vec<WorkSums>,
    i: int,
)
    requires
        old(book).wf(),
        well_kept(pending@),
        sums@.len() == pending@.len(),
        old(book).has_room_for_pending(pending@),
        call_ensures(TelemetryBook::restore, (book, pending, sums), ()),
        0 <= i < pending@.len(),
    ensures
        ({
            let back = pending@[i];
            let key = back.channel_id@ + seq!['\0'] + back.payout_address@ + seq!['\0']
                + back.username@;
            let since = old(book)@[key];
            let after = final(book)@[key];
            &&& final(book).wf()
            &&& final(book)@.contains_key(key)
            &&& !old(book)@.contains_key(key) ==> after == back
            &&& old(book)@.contains_key(key) ==> {
                &&& after.channel_id@ == since.channel_id@
                &&& after.payout_address@ == since.payout_address@
                &&& after.username@ == since.username@
                &&& after.window_start_unix_ms == if back.window_start_unix_ms
                    < since.window_start_unix_ms {
                    back.window_start_unix_ms
                } else {
                    since.window_start_unix_ms
                }
                &&& after.window_end_unix_ms == if back.window_end_unix_ms
                    > since.window_end_unix_ms {
                    back.window_end_unix_ms
                } else {
                    since.window_end_unix_ms
                }
                &&& after.accepted_shares == since.accepted_shares + back.accepted_shares
                &&& after.rejected_shares == since.rejected_shares + back.rejected_shares
                &&& after.accepted_difficulty == sums@[i].accepted
                &&& after.fee_difficulty == sums@[i].fee
                &&& after.best_difficulty == if back.best_difficulty.scaled()
                    > since.best_difficulty.scaled() {
                    back.best_difficulty
                } else {
                    since.best_difficulty
                }
            }
        }),
{
    let key = pending@[i].key();
    lemma_by_miner_at(pending@, i);
    assert(is_at(pending@, key, i));
    assert(place_of(pending@, key) == i);
    assert(sums_by_miner(pending@, sums@)[key] == sums@[i]);
    if old(book)@.contains_key(key) {
        assert(old(book)@[key].has_room_for_all_of(pending@[i]));
    }
}

/// Miners of whom nothing is put back are left as they are.
pub proof fn other_entries_stay(
    book: &mut TelemetryBook,
    pending: Vec<TelemetryAccumulator>,
    sums: Vec<WorkSums>,
    key: Seq<char>,
)
    requires
        call_ensures(TelemetryBook::restore, (book, pending, sums), ()),
        forall|i: int| 0 <= i < pending@.len() ==> (#[trigger] pending@[i]).key() != key,
    ensures
        final(book)@.contains_key(key) == old(book)@.contains_key(key),
        old(book)@.contains_key(key) ==> final(book)@[key] == old(book)@[key],
{
    assert forall|i: int| !#[trigger] is_at(pending@, key, i) by {
        if 0 <= i < pending@.len() {
            assert(pending@[i].key() != key);
        }
    }
    assert(!by_miner(pending@).contains_key(key));
}

/// Calls in a row: what a flush handed out and a restore puts back at once is all there again,
/// miner by miner.
pub proof fn a_failed_flush_is_undone(
    book: &mut TelemetryBook,
    handed: Option<Vec<TelemetryAccumulator>>,
    emptied: &mut TelemetryBook,
    sums: Vec<WorkSums>,
)
    requires
        old(book).wf(),
        call_ensures(TelemetryBook::flush, (book,), handed),
        handed is Some,
        *old(emptied) == *final(book),
        call_ensures(TelemetryBook::restore, (emptied, handed->0, sums), ()),
    ensures
        final(emptied)@ == old(book)@,
{
    crate::telemetry::failed_flush_loses_nothing(
        by_miner(handed->0@),
        sums_by_miner(handed->0@, sums@),
    );
}

} // verus!
