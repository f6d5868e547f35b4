//! What a run of shares leaves in the book, whichever miners the shares come from.

use vstd::prelude::*;

use crate::difficulty::Difficulty;
use crate::telemetry::{
    gathered_in, miner_key, with_share, ShareReport, TelemetryAccumulator, WorkSums,
};

verus! {

/// What is gathered once a run of shares was counted, one after the other. With each share go
/// the sums of its miner with the share's difficulty added.
pub open spec fn after_run(
    book: Map<Seq<char>, TelemetryAccumulator>,
    shares: Seq<ShareReport>,
    sums: Seq<WorkSums>,
) -> Map<Seq<char>, TelemetryAccumulator>
    decreases shares.len(),
{
    if shares.len() == 0 {
        book
    } else {
        with_share(
            after_run(book, shares.drop_last(), sums.drop_last()),
            shares.last(),
            sums.last(),
        )
    }
}

/// Whether the share at a place comes from the miner with a key.
pub open spec fn sent_by(shares: Seq<ShareReport>, key: Seq<char>, i: int) -> bool {
    0 <= i < shares.len() && shares[i].key() == key
}

/// Whether a run holds a share of the miner with a key.
pub open spec fn takes_part(shares: Seq<ShareReport>, key: Seq<char>) -> bool {
    exists|i: int| sent_by(shares, key, i)
}

/// Whether the share at a place is the first one of the miner with a key.
pub open spec fn is_first_of(shares: Seq<ShareReport>, key: Seq<char>, i: int) -> bool {
    sent_by(shares, key, i) && forall|j: int| 0 <= j < i ==> !#[trigger] sent_by(shares, key, j)
}

/// How many shares of a miner are accepted, or how many are not.
pub open spec fn count_of(shares: Seq<ShareReport>, key: Seq<char>, accepted: bool) -> nat
    decreases shares.len(),
{
    if shares.len() == 0 {
        0
    } else {
        count_of(shares.drop_last(), key, accepted) + if shares.last().key() == key
            && shares.last().accepted == accepted {
            1nat
        } else {
            0nat
        }
    }
}

/// Whether an entry counts a miner's shares of a run: how many were accepted and how many not.
pub open spec fn counts_shares(
    entry: TelemetryAccumulator,
    shares: Seq<ShareReport>,
    key: Seq<char>,
) -> bool {
    &&& entry.accepted_shares == count_of(shares, key, true)
    &&& entry.rejected_shares == count_of(shares, key, false)
}

/// Whether an entry's best difficulty is the greatest of a miner's shares of a run.
pub open spec fn keeps_best(
    entry: TelemetryAccumulator,
    shares: Seq<ShareReport>,
    key: Seq<char>,
) -> bool {
    &&& entry.best_difficulty.is_share()
    &&& forall|i: int| #[trigger]
        sent_by(shares, key, i) ==> shares[i].difficulty.scaled() <= entry.best_difficulty.scaled()
    &&& exists|i: int| #[trigger]
        sent_by(shares, key, i) && shares[i].difficulty.scaled() == entry.best_difficulty.scaled()
}

/// Whether an entry names a miner as the first of its shares of a run does, and its window
/// starts with that share.
pub open spec fn starts_with_first(
    entry: TelemetryAccumulator,
    shares: Seq<ShareReport>,
    key: Seq<char>,
) -> bool {
    exists|i: int| #[trigger]
        is_first_of(shares, key, i) && {
            &&& entry.window_start_unix_ms == shares[i].observed_unix_ms
            &&& entry.channel_id == shares[i].channel_id
            &&& entry.payout_address == shares[i].payout_address
            &&& entry.username == shares[i].username
        }
}

/// Whether an entry's window ends with the latest of a miner's shares of a run.
pub open spec fn ends_with_latest(
    entry: TelemetryAccumulator,
    shares: Seq<ShareReport>,
    key: Seq<char>,
) -> bool {
    &&& forall|i: int| #[trigger]
        sent_by(shares, key, i) ==> shares[i].observed_unix_ms <= entry.window_end_unix_ms
    &&& exists|i: int| #[trigger]
        sent_by(shares, key, i) && shares[i].observed_unix_ms == entry.window_end_unix_ms
}

/// The sums of a share's miner with the share's difficulty added to each.
pub open spec fn added_sums(
    book: Map<Seq<char>, TelemetryAccumulator>,
    share: ShareReport,
    plus: spec_fn(Difficulty, Difficulty) -> Difficulty,
) -> WorkSums {
    let entry = gathered_in(book, share);
    WorkSums {
        accepted: plus(entry.accepted_difficulty, share.difficulty),
        fee: plus(entry.fee_difficulty, share.difficulty),
    }
}

/// Whether the sums that go with a run are made by an addition, share by share.
pub open spec fn sums_are_added(
    book: Map<Seq<char>, TelemetryAccumulator>,
    shares: Seq<ShareReport>,
    sums: Seq<WorkSums>,
    plus: spec_fn(Difficulty, Difficulty) -> Difficulty,
) -> bool {
    &&& sums.len() == shares.len()
    &&& forall|i: int|
        0 <= i < shares.len() ==> #[trigger] sums[i] == added_sums(
            after_run(book, shares.take(i), sums.take(i)),
            shares[i],
            plus,
        )
}

/// The difficulties of a miner's accepted shares, added up from zero in the order of the run.
pub open spec fn accepted_work(
    shares: Seq<ShareReport>,
    key: Seq<char>,
    plus: spec_fn(Difficulty, Difficulty) -> Difficulty,
) -> Difficulty
    decreases shares.len(),
{
    if shares.len() == 0 {
        Difficulty { bits: 0 }
    } else {
        let before = accepted_work(shares.drop_last(), key, plus);
        if shares.last().key() == key && shares.last().accepted {
            plus(before, shares.last().difficulty)
        } else {
            before
        }
    }
}

/// The difficulties of a miner's accepted shares in fee windows, added up in the same way.
pub open spec fn fee_work(
    shares: Seq<ShareReport>,
    key: Seq<char>,
    plus: spec_fn(Difficulty, Difficulty) -> Difficulty,
) -> Difficulty
    decreases shares.len(),
{
    if shares.len() == 0 {
        Difficulty { bits: 0 }
    } else {
        let before = fee_work(shares.drop_last(), key, plus);
        if shares.last().key() == key && shares.last().accepted && shares.last().fee_work {
            plus(before, shares.last().difficulty)
        } else {
            before
        }
    }
}

/// Whether a double-precision number is zero or more, infinity being the most.
pub open spec fn is_sum(sum: Difficulty) -> bool {
    sum.bits <= 0x7ff0_0000_0000_0000
}

/// Whether an addition never makes a sum smaller, and keeps the order of sums. The addition of
/// double-precision numbers, which rounds to the nearest one, does both.
pub open spec fn adds_in_order(plus: spec_fn(Difficulty, Difficulty) -> Difficulty) -> bool {
    &&& forall|sum: Difficulty, more: Difficulty|
        is_sum(sum) && more.is_share() ==> is_sum(#[trigger] plus(sum, more)) && sum.scaled() <= plus(
            sum,
            more,
        ).scaled()
    &&& forall|less: Difficulty, sum: Difficulty, more: Difficulty|
        is_sum(less) && is_sum(sum) && more.is_share() && less.scaled() <= sum.scaled() ==> (
        #[trigger] plus(less, more)).scaled() <= (#[trigger] plus(sum, more)).scaled()
}

proof fn lemma_last_share(shares: Seq<ShareReport>, key: Seq<char>)
    requires
        shares.len() > 0,
    ensures
        forall|i: int|
            i != shares.len() - 1 ==> #[trigger] sent_by(shares, key, i) == sent_by(
                shares.drop_last(),
                key,
                i,
            ),
        sent_by(shares, key, shares.len() - 1) == (shares.last().key() == key),
{
}

proof fn lemma_first_stays(shares: Seq<ShareReport>, key: Seq<char>, i: int)
    requires
        shares.len() > 0,
        is_first_of(shares.drop_last(), key, i),
    ensures
        is_first_of(shares, key, i),
{
    lemma_last_share(shares, key);
}

proof fn lemma_counts_are_bounded(shares: Seq<ShareReport>, key: Seq<char>)
    ensures
        count_of(shares, key, true) + count_of(shares, key, false) <= shares.len(),
        (forall|i: int| 0 <= i < shares.len() ==> #[trigger] sent_by(shares, key, i)) ==> count_of(
            shares,
            key,
            true,
        ) + count_of(shares, key, false) == shares.len(),
        !takes_part(shares, key) ==> count_of(shares, key, true) == 0 && count_of(
            shares,
            key,
            false,
        ) == 0,
    decreases shares.len(),
{
    if shares.len() > 0 {
        let before = shares.drop_last();
        lemma_last_share(shares, key);
        lemma_counts_are_bounded(before, key);
        if forall|i: int| 0 <= i < shares.len() ==> #[trigger] sent_by(shares, key, i) {
            assert forall|i: int| 0 <= i < before.len() implies #[trigger] sent_by(before, key, i) by {
                assert(sent_by(shares, key, i));
            }
            assert(sent_by(shares, key, shares.len() - 1));
        }
        if !takes_part(shares, key) {
            assert(!sent_by(shares, key, shares.len() - 1));
            if takes_part(before, key) {
                let i = choose|i: int| sent_by(before, key, i);
                assert(sent_by(shares, key, i));
            }
        }
    }
}

/// A run in which a miner takes no part leaves what was gathered of it as it is.
pub proof fn run_leaves_other_miners(
    book: Map<Seq<char>, TelemetryAccumulator>,
    shares: Seq<ShareReport>,
    sums: Seq<WorkSums>,
    key: Seq<char>,
)
    requires
        !takes_part(shares, key),
    ensures
        after_run(book, shares, sums).contains_key(key) == book.contains_key(key),
        book.contains_key(key) ==> after_run(book, shares, sums)[key] == book[key],
    decreases shares.len(),
{
    if shares.len() > 0 {
        let before = shares.drop_last();
        lemma_last_share(shares, key);
        assert(!sent_by(shares, key, shares.len() - 1));
        if takes_part(before, key) {
            let i = choose|i: int| sent_by(before, key, i);
            assert(sent_by(shares, key, i));
        }
        run_leaves_other_miners(book, before, sums.drop_last(), key);
    }
}

/// A miner of whom nothing was gathered is in the book after a run exactly when it took part.
/// Its entry then holds how many of its shares were accepted and how many were not, the
/// greatest of their difficulties, the time of the first share as the start of its window and
/// the latest time as the end.
pub proof fn run_is_gathered(
    book: Map<Seq<char>, TelemetryAccumulator>,
    shares: Seq<ShareReport>,
    sums: Seq<WorkSums>,
    key: Seq<char>,
)
    requires
        !book.contains_key(key),
        shares.len() <= u64::MAX,
        forall|i: int| 0 <= i < shares.len() ==> (#[trigger] shares[i]).difficulty.is_share(),
    ensures
        after_run(book, shares, sums).contains_key(key) <==> takes_part(shares, key),
        takes_part(shares, key) ==> {
            let entry = after_run(book, shares, sums)[key];
            &&& entry.key() == key
            &&& counts_shares(entry, shares, key)
            &&& keeps_best(entry, shares, key)
            &&& starts_with_first(entry, shares, key)
            &&& ends_with_latest(entry, shares, key)
        },
    decreases shares.len(),
{
    if shares.len() > 0 {
        let before = shares.drop_last();
        let share = shares.last();
        let last = shares.len() - 1;
        let held = after_run(book, before, sums.drop_last());
        let after = after_run(book, shares, sums);
        assert forall|i: int| 0 <= i < before.len() implies (
        #[trigger] before[i]).difficulty.is_share() by {
            assert(shares[i].difficulty.is_share());
        }
        run_is_gathered(book, before, sums.drop_last(), key);
        lemma_last_share(shares, key);
        lemma_counts_are_bounded(before, key);
        assert(shares[last].difficulty.is_share());
        if takes_part(before, key) {
            let first = choose|i: int| #[trigger]
                is_first_of(before, key, i) && {
                    &&& held[key].window_start_unix_ms == before[i].observed_unix_ms
                    &&& held[key].channel_id == before[i].channel_id
                    &&& held[key].payout_address == before[i].payout_address
                    &&& held[key].username == before[i].username
                };
            let best = choose|i: int| #[trigger]
                sent_by(before, key, i) && before[i].difficulty.scaled()
                    == held[key].best_difficulty.scaled();
            let latest = choose|i: int| #[trigger]
                sent_by(before, key, i) && before[i].observed_unix_ms
                    == held[key].window_end_unix_ms;
            lemma_first_stays(shares, key, first);
            assert(sent_by(shares, key, best));
            assert(sent_by(shares, key, latest));
            assert(shares[first] == before[first]);
            assert(starts_with_first(after[key], shares, key));
            assert(takes_part(shares, key));
        } else if share.key() == key {
            assert forall|i: int| 0 <= i < last implies !#[trigger] sent_by(shares, key, i) by {
                assert(!sent_by(before, key, i));
            }
            assert(is_first_of(shares, key, last));
            assert(sent_by(shares, key, last));
            assert(after[key] == share.fresh().recorded(share, sums.last()));
            assert(starts_with_first(after[key], shares, key));
        } else {
            assert forall|i: int| !#[trigger] sent_by(shares, key, i) by {
                assert(!sent_by(before, key, i));
            }
        }
    }
}

/// From an empty book, a run of shares of one miner leaves one entry, which names this miner.
/// All shares of the run are counted there as accepted or rejected.
pub proof fn run_of_one_miner_is_one_entry(
    shares: Seq<ShareReport>,
    sums: Seq<WorkSums>,
    channel: Seq<char>,
    address: Seq<char>,
    name: Seq<char>,
)
    requires
        0 < shares.len() <= u64::MAX,
        forall|i: int|
            0 <= i < shares.len() ==> {
                &&& (#[trigger] shares[i]).channel_id@ == channel
                &&& shares[i].payout_address@ == address
                &&& shares[i].username@ == name
                &&& shares[i].difficulty.is_share()
            },
    ensures
        ({
            let key = miner_key(channel, address, name);
            let after = after_run(Map::empty(), shares, sums);
            let entry = after[key];
            &&& after.dom() == set![key]
            &&& entry.channel_id@ == channel
            &&& entry.payout_address@ == address
            &&& entry.username@ == name
            &&& entry.accepted_shares + entry.rejected_shares == shares.len()
            &&& counts_shares(entry, shares, key)
            &&& keeps_best(entry, shares, key)
            &&& entry.window_start_unix_ms == shares[0].observed_unix_ms
            &&& ends_with_latest(entry, shares, key)
        }),
{
    let key = miner_key(channel, address, name);
    let book = Map::<Seq<char>, TelemetryAccumulator>::empty();
    let after = after_run(book, shares, sums);
    assert forall|i: int| 0 <= i < shares.len() implies #[trigger] sent_by(shares, key, i) by {
        assert(shares[i].channel_id@ == channel);
    }
    assert(sent_by(shares, key, 0));
    run_is_gathered(book, shares, sums, key);
    lemma_counts_are_bounded(shares, key);
    let first = choose|i: int| #[trigger]
        is_first_of(shares, key, i) && {
            &&& after[key].window_start_unix_ms == shares[i].observed_unix_ms
            &&& after[key].channel_id == shares[i].channel_id
            &&& after[key].payout_address == shares[i].payout_address
            &&& after[key].username == shares[i].username
        };
    assert(first == 0);
    assert forall|other: Seq<char>| other != key implies !#[trigger] after.contains_key(other) by {
        assert forall|i: int| !#[trigger] sent_by(shares, other, i) by {
            if 0 <= i < shares.len() {
                assert(sent_by(shares, key, i));
            }
        }
        run_leaves_other_miners(book, shares, sums, other);
    }
    assert(after.dom() =~= set![key]);
}

/// Where each share comes with its miner's sums and its own difficulty added to them, a miner's
/// entry holds the accepted work and the fee work of its shares of the run, whatever addition
/// is used.
pub proof fn run_adds_up_work(
    book: Map<Seq<char>, TelemetryAccumulator>,
    shares: Seq<ShareReport>,
    sums: Seq<WorkSums>,
    key: Seq<char>,
    plus: spec_fn(Difficulty, Difficulty) -> Difficulty,
)
    requires
        !book.contains_key(key),
        sums_are_added(book, shares, sums, plus),
        takes_part(shares, key),
    ensures
        after_run(book, shares, sums).contains_key(key),
        after_run(book, shares, sums)[key].accepted_difficulty == accepted_work(shares, key, plus),
        after_run(book, shares, sums)[key].fee_difficulty == fee_work(shares, key, plus),
    decreases shares.len(),
{
    let before = shares.drop_last();
    let fewer = sums.drop_last();
    let last = shares.len() - 1;
    lemma_last_share(shares, key);
    assert(shares.take(last) =~= before);
    assert(sums.take(last) =~= fewer);
    assert(sums[last] == added_sums(after_run(book, before, fewer), shares[last], plus));
    if takes_part(before, key) {
        assert forall|i: int| 0 <= i < before.len() implies #[trigger] fewer[i] == added_sums(
            after_run(book, before.take(i), fewer.take(i)),
            before[i],
            plus,
        ) by {
            assert(sums[i] == fewer[i]);
            assert(before.take(i) =~= shares.take(i));
            assert(fewer.take(i) =~= sums.take(i));
        }
        run_adds_up_work(book, before, fewer, key, plus);
    } else {
        let i = choose|i: int| sent_by(shares, key, i);
        assert(!sent_by(before, key, i));
        run_leaves_other_miners(book, before, fewer, key);
        lemma_no_work_without_shares(before, key, plus);
    }
}

proof fn lemma_no_work_without_shares(
    shares: Seq<ShareReport>,
    key: Seq<char>,
    plus: spec_fn(Difficulty, Difficulty) -> Difficulty,
)
    requires
        !takes_part(shares, key),
    ensures
        accepted_work(shares, key, plus).bits == 0,
        fee_work(shares, key, plus).bits == 0,
    decreases shares.len(),
{
    if shares.len() > 0 {
        let before = shares.drop_last();
        lemma_last_share(shares, key);
        assert(!sent_by(shares, key, shares.len() - 1));
        if takes_part(before, key) {
            let i = choose|i: int| sent_by(before, key, i);
            assert(sent_by(shares, key, i));
        }
        lemma_no_work_without_shares(before, key, plus);
    }
}

/// With an addition that keeps the order of sums, fee work is never below zero and never more
/// than accepted work.
pub proof fn fee_work_is_part_of_accepted_work(
    shares: Seq<ShareReport>,
    key: Seq<char>,
    plus: spec_fn(Difficulty, Difficulty) -> Difficulty,
)
    requires
        adds_in_order(plus),
        forall|i: int| 0 <= i < shares.len() ==> (#[trigger] shares[i]).difficulty.is_share(),
    ensures
        is_sum(accepted_work(shares, key, plus)),
        is_sum(fee_work(shares, key, plus)),
        0 <= fee_work(shares, key, plus).scaled() <= accepted_work(shares, key, plus).scaled(),
    decreases shares.len(),
{
    if shares.len() > 0 {
        let before = shares.drop_last();
        let more = shares.last().difficulty;
        assert forall|i: int| 0 <= i < before.len() implies (
        #[trigger] before[i]).difficulty.is_share() by {
            assert(shares[i].difficulty.is_share());
        }
        fee_work_is_part_of_accepted_work(before, key, plus);
        assert(shares[shares.len() - 1].difficulty.is_share());
        let fee = fee_work(before, key, plus);
        let accepted = accepted_work(before, key, plus);
        assert(accepted.scaled() <= plus(accepted, more).scaled());
        assert(fee.scaled() <= plus(fee, more).scaled());
        assert(plus(fee, more).scaled() <= plus(accepted, more).scaled());
    }
}

} // verus!
