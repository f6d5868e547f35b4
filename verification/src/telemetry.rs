//! Shares that CKPool reports, gathered per miner until they are sent on.
//!
//! A miner is known by the text that joins its channel, address and name. Sums of difficulties
//! are floating-point additions, which the caller makes: it passes what they come to, and the
//! book decides where that is kept.

use vstd::hash_map::StringHashMap;
use vstd::prelude::*;
use vstd::string::*;

use crate::difficulty::Difficulty;
use crate::text::lemma_split_at_first;

verus! {

/// The time for which shares are gathered before they are sent on, in seconds.
pub const FLUSH_SECONDS: u64 = 10;

/// A share that CKPool reports.
#[derive(Debug, Clone)]
pub struct ShareReport {
    pub channel_id: String,
    pub payout_address: String,
    pub username: String,
    pub accepted: bool,
    pub difficulty: Difficulty,
    pub fee_work: bool,
    pub observed_unix_ms: i64,
}

/// What was gathered of a miner's shares.
#[derive(Debug, Clone)]
pub struct TelemetryAccumulator {
    pub channel_id: String,
    pub payout_address: String,
    pub username: String,
    pub window_start_unix_ms: i64,
    pub window_end_unix_ms: i64,
    pub accepted_shares: u64,
    pub rejected_shares: u64,
    pub accepted_difficulty: Difficulty,
    pub fee_difficulty: Difficulty,
    pub best_difficulty: Difficulty,
}

/// The sums of difficulties of a miner's accepted shares.
#[derive(Debug, Clone, Copy, PartialEq, Eq, Structural)]
pub struct WorkSums {
    pub accepted: Difficulty,
    pub fee: Difficulty,
}

/// The shares that wait to be sent on: what was gathered, and the place of each miner in it.
pub struct TelemetryBook {
    pub entries: Vec<TelemetryAccumulator>,
    pub places: StringHashMap<usize>,
}

/// The text by which a miner is known.
pub open spec fn miner_key(channel: Seq<char>, address: Seq<char>, name: Seq<char>) -> Seq<char> {
    channel + seq!['\0'] + address + seq!['\0'] + name
}

/// The later of two times.
pub open spec fn later(first: i64, second: i64) -> i64 {
    if first < second {
        second
    } else {
        first
    }
}

/// The earlier of two times.
pub open spec fn earlier(first: i64, second: i64) -> i64 {
    if second < first {
        second
    } else {
        first
    }
}

/// The greater of two difficulties: the first where both are equal.
pub open spec fn greater(first: Difficulty, second: Difficulty) -> Difficulty {
    if first.scaled() < second.scaled() {
        second
    } else {
        first
    }
}

impl ShareReport {
    /// The text by which the miner is known.
    pub open spec fn key(self) -> Seq<char> {
        miner_key(self.channel_id@, self.payout_address@, self.username@)
    }

    /// What is gathered of a miner before its first share, which this is, counts.
    pub open spec fn fresh(self) -> TelemetryAccumulator {
        TelemetryAccumulator {
            channel_id: self.channel_id,
            payout_address: self.payout_address,
            username: self.username,
            window_start_unix_ms: self.observed_unix_ms,
            window_end_unix_ms: self.observed_unix_ms,
            accepted_shares: 0,
            rejected_shares: 0,
            accepted_difficulty: Difficulty { bits: 0 },
            fee_difficulty: Difficulty { bits: 0 },
            best_difficulty: Difficulty { bits: 0 },
        }
    }
}

impl TelemetryAccumulator {
    /// The text by which the miner is known.
    pub open spec fn key(self) -> Seq<char> {
        miner_key(self.channel_id@, self.payout_address@, self.username@)
    }

    /// Whether the counts have room for one more share.
    pub open spec fn has_room_for(self, share: ShareReport) -> bool {
        if share.accepted {
            self.accepted_shares < u64::MAX
        } else {
            self.rejected_shares < u64::MAX
        }
    }

    /// Whether the counts have room for those of another.
    pub open spec fn has_room_for_all_of(self, other: TelemetryAccumulator) -> bool {
        &&& self.accepted_shares + other.accepted_shares <= u64::MAX
        &&& self.rejected_shares + other.rejected_shares <= u64::MAX
    }

    /// With one more share counted: `sums` are the sums with the share's difficulty added.
    pub open spec fn recorded(self, share: ShareReport, sums: WorkSums) -> TelemetryAccumulator {
        TelemetryAccumulator {
            window_end_unix_ms: later(self.window_end_unix_ms, share.observed_unix_ms),
            best_difficulty: greater(self.best_difficulty, share.difficulty),
            accepted_shares: if share.accepted {
                (self.accepted_shares + 1) as u64
            } else {
                self.accepted_shares
            },
            rejected_shares: if share.accepted {
                self.rejected_shares
            } else {
                (self.rejected_shares + 1) as u64
            },
            accepted_difficulty: if share.accepted {
                sums.accepted
            } else {
                self.accepted_difficulty
            },
            fee_difficulty: if share.accepted && share.fee_work {
                sums.fee
            } else {
                self.fee_difficulty
            },
            ..self
        }
    }

    /// With what was gathered earlier put back: `sums` are the sums of both.
    pub open spec fn merged(self, old: TelemetryAccumulator, sums: WorkSums) -> TelemetryAccumulator {
        TelemetryAccumulator {
            window_start_unix_ms: earlier(self.window_start_unix_ms, old.window_start_unix_ms),
            window_end_unix_ms: later(self.window_end_unix_ms, old.window_end_unix_ms),
            accepted_shares: (self.accepted_shares + old.accepted_shares) as u64,
            rejected_shares: (self.rejected_shares + old.rejected_shares) as u64,
            accepted_difficulty: sums.accepted,
            fee_difficulty: sums.fee,
            best_difficulty: greater(self.best_difficulty, old.best_difficulty),
            ..self
        }
    }
}

/// Whether no miner occurs twice and every best difficulty is one of a share.
pub open spec fn well_kept(entries: Seq<TelemetryAccumulator>) -> bool {
    &&& forall|i: int, j: int|
        0 <= i < j < entries.len() ==> (#[trigger] entries[i]).key() != (
        #[trigger] entries[j]).key()
    &&& forall|i: int| 0 <= i < entries.len() ==> (#[trigger] entries[i]).best_difficulty.is_share()
}

/// Whether the miner with a key is at a place.
pub open spec fn is_at(entries: Seq<TelemetryAccumulator>, key: Seq<char>, i: int) -> bool {
    0 <= i < entries.len() && entries[i].key() == key
}

/// The place of the miner with a key.
pub open spec fn place_of(entries: Seq<TelemetryAccumulator>, key: Seq<char>) -> int {
    choose|i: int| is_at(entries, key, i)
}

/// Whether exactly the miners that occur are found, each at its place.
pub open spec fn finds_miners(
    places: Map<Seq<char>, usize>,
    entries: Seq<TelemetryAccumulator>,
) -> bool {
    &&& forall|key: Seq<char>| #[trigger]
        places.contains_key(key) ==> is_at(entries, key, places[key] as int)
    &&& forall|i: int| 0 <= i < entries.len() ==> places.contains_key((#[trigger] entries[i]).key())
}

/// What was gathered, by miner.
pub open spec fn by_miner(entries: Seq<TelemetryAccumulator>) -> Map<
    Seq<char>,
    TelemetryAccumulator,
> {
    Map::new(
        |key: Seq<char>| exists|i: int| is_at(entries, key, i),
        |key: Seq<char>| entries[place_of(entries, key)],
    )
}

/// The sums that go with what was gathered, by miner.
pub open spec fn sums_by_miner(entries: Seq<TelemetryAccumulator>, sums: Seq<WorkSums>) -> Map<
    Seq<char>,
    WorkSums,
> {
    Map::new(
        |key: Seq<char>| exists|i: int| is_at(entries, key, i),
        |key: Seq<char>| sums[place_of(entries, key)],
    )
}

/// What was gathered of the miner of a share.
pub open spec fn gathered_in(
    book: Map<Seq<char>, TelemetryAccumulator>,
    share: ShareReport,
) -> TelemetryAccumulator {
    if book.contains_key(share.key()) {
        book[share.key()]
    } else {
        share.fresh()
    }
}

/// What is gathered once a share was counted.
pub open spec fn with_share(
    book: Map<Seq<char>, TelemetryAccumulator>,
    share: ShareReport,
    sums: WorkSums,
) -> Map<Seq<char>, TelemetryAccumulator> {
    book.insert(share.key(), gathered_in(book, share).recorded(share, sums))
}

/// What is gathered once what could not be sent was put back.
pub open spec fn restored(
    book: Map<Seq<char>, TelemetryAccumulator>,
    pending: Map<Seq<char>, TelemetryAccumulator>,
    sums: Map<Seq<char>, WorkSums>,
) -> Map<Seq<char>, TelemetryAccumulator> {
    Map::new(
        |key: Seq<char>| book.contains_key(key) || pending.contains_key(key),
        |key: Seq<char>|
            if !pending.contains_key(key) {
                book[key]
            } else if !book.contains_key(key) {
                pending[key]
            } else {
                book[key].merged(pending[key], sums[key])
            },
    )
}

/// What was gathered at a place is what was gathered of the miner there.
pub proof fn lemma_by_miner_at(entries: Seq<TelemetryAccumulator>, i: int)
    requires
        well_kept(entries),
        0 <= i < entries.len(),
    ensures
        by_miner(entries).contains_key(entries[i].key()),
        by_miner(entries)[entries[i].key()] == entries[i],
        place_of(entries, entries[i].key()) == i,
{
    let key = entries[i].key();
    assert(is_at(entries, key, i));
    let at = place_of(entries, key);
    assert(is_at(entries, key, at));
    if at < i {
        assert(entries[at].key() != entries[i].key());
    } else if i < at {
        assert(entries[i].key() != entries[at].key());
    }
}

proof fn lemma_by_miner_update(
    entries: Seq<TelemetryAccumulator>,
    i: int,
    entry: TelemetryAccumulator,
)
    requires
        well_kept(entries),
        0 <= i < entries.len(),
        entry.key() == entries[i].key(),
        entry.best_difficulty.is_share(),
    ensures
        well_kept(entries.update(i, entry)),
        by_miner(entries.update(i, entry)) == by_miner(entries).insert(entry.key(), entry),
{
    let after = entries.update(i, entry);
    assert forall|a: int, b: int| 0 <= a < b < after.len() implies (#[trigger] after[a]).key() != (
    #[trigger] after[b]).key() by {
        assert(entries[a].key() != entries[b].key());
    }
    let old_map = by_miner(entries).insert(entry.key(), entry);
    let new_map = by_miner(after);
    assert forall|key: Seq<char>| #[trigger] old_map.contains_key(key) == new_map.contains_key(
        key,
    ) && (new_map.contains_key(key) ==> old_map[key] == new_map[key]) by {
        if by_miner(entries).contains_key(key) {
            let a = choose|a: int| is_at(entries, key, a);
            lemma_by_miner_at(entries, a);
            lemma_by_miner_at(after, a);
        }
        if new_map.contains_key(key) {
            let a = choose|a: int| is_at(after, key, a);
            lemma_by_miner_at(entries, a);
            lemma_by_miner_at(after, a);
        }
        lemma_by_miner_at(after, i);
    }
    assert(old_map =~= new_map);
}

proof fn lemma_by_miner_push(entries: Seq<TelemetryAccumulator>, entry: TelemetryAccumulator)
    requires
        well_kept(entries),
        !by_miner(entries).contains_key(entry.key()),
        entry.best_difficulty.is_share(),
    ensures
        well_kept(entries.push(entry)),
        by_miner(entries.push(entry)) == by_miner(entries).insert(entry.key(), entry),
{
    let after = entries.push(entry);
    let last = entries.len() as int;
    assert forall|a: int, b: int| 0 <= a < b < after.len() implies (#[trigger] after[a]).key() != (
    #[trigger] after[b]).key() by {
        if b == last {
            assert(!is_at(entries, entry.key(), a));
        } else {
            assert(entries[a].key() != entries[b].key());
        }
    }
    let old_map = by_miner(entries).insert(entry.key(), entry);
    let new_map = by_miner(after);
    assert forall|key: Seq<char>| #[trigger] old_map.contains_key(key) == new_map.contains_key(
        key,
    ) && (new_map.contains_key(key) ==> old_map[key] == new_map[key]) by {
        if by_miner(entries).contains_key(key) {
            let a = choose|a: int| is_at(entries, key, a);
            lemma_by_miner_at(entries, a);
            lemma_by_miner_at(after, a);
        }
        if new_map.contains_key(key) {
            let a = choose|a: int| is_at(after, key, a);
            if a < last {
                lemma_by_miner_at(entries, a);
            }
            lemma_by_miner_at(after, a);
        }
        lemma_by_miner_at(after, last);
    }
    assert(old_map =~= new_map);
}

proof fn lemma_places_update(
    places: Map<Seq<char>, usize>,
    entries: Seq<TelemetryAccumulator>,
    i: int,
    entry: TelemetryAccumulator,
)
    requires
        finds_miners(places, entries),
        0 <= i < entries.len(),
        entry.key() == entries[i].key(),
    ensures
        finds_miners(places, entries.update(i, entry)),
{
    let after = entries.update(i, entry);
    assert forall|j: int| 0 <= j < after.len() implies places.contains_key(
        (#[trigger] after[j]).key(),
    ) by {
        assert(entries[j].key() == after[j].key());
    }
}

proof fn lemma_places_push(
    places: Map<Seq<char>, usize>,
    entries: Seq<TelemetryAccumulator>,
    entry: TelemetryAccumulator,
)
    requires
        finds_miners(places, entries),
        entries.len() <= usize::MAX,
    ensures
        finds_miners(places.insert(entry.key(), entries.len() as usize), entries.push(entry)),
{
    let after = entries.push(entry);
    let known = places.insert(entry.key(), entries.len() as usize);
    assert forall|key: Seq<char>| #[trigger] known.contains_key(key) implies is_at(
        after,
        key,
        known[key] as int,
    ) by {
        if key != entry.key() {
            assert(places.contains_key(key));
        }
    }
    assert forall|j: int| 0 <= j < after.len() implies known.contains_key(
        (#[trigger] after[j]).key(),
    ) by {
        if j < entries.len() {
            assert(entries[j].key() == after[j].key());
        }
    }
}

fn key_text(channel: &str, address: &str, name: &str) -> (key: String)
    ensures
        key@ == miner_key(channel@, address@, name@),
{
    let mut key = channel.to_owned();
    key.append("\0");
    key.append(address);
    key.append("\0");
    key.append(name);
    proof {
        reveal_strlit("\0");
        assert("\0"@ =~= seq!['\0']);
    }
    key
}

impl View for TelemetryBook {
    type V = Map<Seq<char>, TelemetryAccumulator>;

    open spec fn view(&self) -> Map<Seq<char>, TelemetryAccumulator> {
        by_miner(self.entries@)
    }
}

impl TelemetryBook {
    /// Whether no miner occurs twice, every best difficulty is one of a share, and each miner is
    /// found at its place.
    pub open spec fn wf(self) -> bool {
        well_kept(self.entries@) && finds_miners(self.places@, self.entries@)
    }

    /// What was gathered of the miner of a share.
    pub open spec fn gathered(self, share: ShareReport) -> TelemetryAccumulator {
        gathered_in(self@, share)
    }

    /// Makes an empty book.
    pub fn new() -> (book: TelemetryBook)
        ensures
            book.wf(),
            book.entries@.len() == 0,
            book@ == Map::<Seq<char>, TelemetryAccumulator>::empty(),
    {
        let book = TelemetryBook { entries: Vec::new(), places: StringHashMap::new() };
        proof {
            assert(book@ =~= Map::empty());
        }
        book
    }

    fn position(&self, key: &String) -> (place: Option<usize>)
        requires
            self.wf(),
        ensures
            place is Some <==> self@.contains_key(key@),
            place is Some ==> is_at(self.entries@, key@, place->0 as int),
    {
        match self.places.get(key.as_str()) {
            Some(place) => Some(*place),
            None => None,
        }
    }

    /// Returns the sums of difficulties of a miner's accepted shares so far.
    pub fn work_sums(&self, channel: &str, address: &str, name: &str) -> (sums: WorkSums)
        requires
            self.wf(),
        ensures
            ({
                let key = miner_key(channel@, address@, name@);
                if self@.contains_key(key) {
                    sums.accepted == self@[key].accepted_difficulty && sums.fee
                        == self@[key].fee_difficulty
                } else {
                    sums.accepted.bits == 0 && sums.fee.bits == 0
                }
            }),
    {
        let key = key_text(channel, address, name);
        match self.position(&key) {
            Some(i) => {
                proof {
                    lemma_by_miner_at(self.entries@, i as int);
                }
                WorkSums {
                    accepted: self.entries[i].accepted_difficulty,
                    fee: self.entries[i].fee_difficulty,
                }
            },
            None => WorkSums { accepted: Difficulty::zero(), fee: Difficulty::zero() },
        }
    }

    /// Tells whether the miner's counts have room for a share.
    pub fn has_room_for(&self, share: &ShareReport) -> (room: bool)
        requires
            self.wf(),
        ensures
            room == self.gathered(*share).has_room_for(*share),
    {
        let key = key_text(
            share.channel_id.as_str(),
            share.payout_address.as_str(),
            share.username.as_str(),
        );
        match self.position(&key) {
            Some(i) => {
                proof {
                    lemma_by_miner_at(self.entries@, i as int);
                }
                if share.accepted {
                    self.entries[i].accepted_shares < u64::MAX
                } else {
                    self.entries[i].rejected_shares < u64::MAX
                }
            },
            None => true,
        }
    }

    /// Counts a share. `sums` are the miner's sums with the share's difficulty added to each.
    pub fn record(&mut self, share: ShareReport, sums: WorkSums)
        requires
            old(self).wf(),
            share.difficulty.is_share(),
            old(self).gathered(share).has_room_for(share),
        ensures
            final(self).wf(),
            final(self)@ == with_share(old(self)@, share, sums),
    {
        let key = key_text(
            share.channel_id.as_str(),
            share.payout_address.as_str(),
            share.username.as_str(),
        );
        match self.position(&key) {
            Some(i) => {
                proof {
                    lemma_by_miner_at(self.entries@, i as int);
                }
                let entry = recorded_entry(&self.entries[i], &share, sums);
                proof {
                    lemma_by_miner_update(self.entries@, i as int, entry);
                    lemma_places_update(self.places@, self.entries@, i as int, entry);
                }
                self.entries.set(i, entry);
            },
            None => {
                let first = TelemetryAccumulator {
                    channel_id: share.channel_id.clone(),
                    payout_address: share.payout_address.clone(),
                    username: share.username.clone(),
                    window_start_unix_ms: share.observed_unix_ms,
                    window_end_unix_ms: share.observed_unix_ms,
                    accepted_shares: 0,
                    rejected_shares: 0,
                    accepted_difficulty: Difficulty::zero(),
                    fee_difficulty: Difficulty::zero(),
                    best_difficulty: Difficulty::zero(),
                };
                let entry = recorded_entry(&first, &share, sums);
                let next: usize = self.entries.len();
                proof {
                    lemma_by_miner_push(self.entries@, entry);
                    lemma_places_push(self.places@, self.entries@, entry);
                }
                self.places.insert(key, next);
                self.entries.push(entry);
            },
        }
    }

    /// Hands out everything that was gathered and starts anew. Nothing is handed out where
    /// nothing was gathered.
    pub fn flush(&mut self) -> (pending: Option<Vec<TelemetryAccumulator>>)
        requires
            old(self).wf(),
        ensures
            final(self).wf(),
            final(self).entries@.len() == 0,
            final(self)@ == Map::<Seq<char>, TelemetryAccumulator>::empty(),
            pending is None <==> old(self).entries@.len() == 0,
            pending is Some ==> pending->0@ == old(self).entries@,
    {
        if self.entries.is_empty() {
            proof {
                assert(self@ =~= Map::empty());
            }
            return None;
        }
        let mut pending: Vec<TelemetryAccumulator> = Vec::new();
        std::mem::swap(&mut pending, &mut self.entries);
        self.places = StringHashMap::new();
        proof {
            assert(self@ =~= Map::empty());
        }
        Some(pending)
    }

    /// Tells whether the counts have room for everything that is to be put back.
    pub fn has_room_for_all(&self, pending: &Vec<TelemetryAccumulator>) -> (room: bool)
        requires
            self.wf(),
        ensures
            room <==> self.has_room_for_pending(pending@),
    {
        let mut i: usize = 0;
        while i < pending.len()
            invariant
                i <= pending@.len(),
                self.wf(),
                forall|j: int|
                    0 <= j < i && self@.contains_key((#[trigger] pending@[j]).key())
                        ==> self@[pending@[j].key()].has_room_for_all_of(pending@[j]),
            decreases pending@.len() - i,
        {
            let old = &pending[i];
            let key = key_text(
                old.channel_id.as_str(),
                old.payout_address.as_str(),
                old.username.as_str(),
            );
            if let Some(at) = self.position(&key) {
                proof {
                    lemma_by_miner_at(self.entries@, at as int);
                }
                let entry = &self.entries[at];
                if entry.accepted_shares > u64::MAX - old.accepted_shares || entry.rejected_shares
                    > u64::MAX - old.rejected_shares {
                    proof {
                        assert(!self@[pending@[i as int].key()].has_room_for_all_of(
                            pending@[i as int],
                        ));
                    }
                    return false;
                }
            }
            i = i + 1;
        }
        true
    }

    /// Whether the counts have room for everything that is to be put back.
    pub open spec fn has_room_for_pending(self, pending: Seq<TelemetryAccumulator>) -> bool {
        forall|i: int|
            0 <= i < pending.len() && self@.contains_key((#[trigger] pending[i]).key())
                ==> self@[pending[i].key()].has_room_for_all_of(pending[i])
    }

    /// Puts back what could not be sent. `sums` are, for each miner, the sums of what is put
    /// back and what was gathered since.
    pub fn restore(&mut self, pending: Vec<TelemetryAccumulator>, sums: Vec<WorkSums>)
        requires
            old(self).wf(),
            well_kept(pending@),
            sums@.len() == pending@.len(),
            old(self).has_room_for_pending(pending@),
        ensures
            final(self).wf(),
            final(self)@ == restored(
                old(self)@,
                by_miner(pending@),
                sums_by_miner(pending@, sums@),
            ),
    {
        let ghost all = pending@;
        let ghost before = self@;
        let ghost target = restored(before, by_miner(all), sums_by_miner(all, sums@));
        let mut pending = pending;
        while pending.len() > 0
            invariant
                self.wf(),
                well_kept(all),
                sums@.len() == all.len(),
                pending@.len() <= all.len(),
                pending@ == all.take(pending@.len() as int),
                target == restored(before, by_miner(all), sums_by_miner(all, sums@)),
                forall|i: int|
                    0 <= i < all.len() && before.contains_key((#[trigger] all[i]).key())
                        ==> before[all[i].key()].has_room_for_all_of(all[i]),
                forall|i: int|
                    pending@.len() <= i < all.len() ==> self@.contains_key(
                        (#[trigger] all[i]).key(),
                    ) && self@[all[i].key()] == target[all[i].key()],
                forall|key: Seq<char>|
                    (forall|i: int| pending@.len() <= i < all.len() ==> !#[trigger] is_at(all, key, i))
                        ==> #[trigger] self@.contains_key(key) == before.contains_key(key) && (
                    self@.contains_key(key) ==> self@[key] == before[key]),
            decreases pending@.len(),
        {
            let old = pending.pop().unwrap();
            let n: usize = pending.len();
            let ghost held = self@;
            let ghost place = n as int;
            proof {
                assert(old == all[place]);
                assert(pending@ =~= all.take(place));
                lemma_by_miner_at(all, place);
                assert forall|i: int| place + 1 <= i < all.len() implies !#[trigger] is_at(
                    all,
                    old.key(),
                    i,
                ) by {
                    assert(all[place].key() != all[i].key());
                }
                assert(held.contains_key(old.key()) == before.contains_key(old.key()));
            }
            let key = key_text(
                old.channel_id.as_str(),
                old.payout_address.as_str(),
                old.username.as_str(),
            );
            match self.position(&key) {
                Some(at) => {
                    proof {
                        lemma_by_miner_at(self.entries@, at as int);
                        assert(before[old.key()].has_room_for_all_of(all[place]));
                    }
                    let entry = merged_entry(&self.entries[at], &old, sums[n]);
                    proof {
                        lemma_by_miner_update(self.entries@, at as int, entry);
                        lemma_places_update(self.places@, self.entries@, at as int, entry);
                    }
                    self.entries.set(at, entry);
                },
                None => {
                    let next: usize = self.entries.len();
                    proof {
                        lemma_by_miner_push(self.entries@, old);
                        lemma_places_push(self.places@, self.entries@, old);
                    }
                    self.places.insert(key, next);
                    self.entries.push(old);
                },
            }
            proof {
                let key = all[place].key();
                assert(self@ == held.insert(key, target[key]));
                assert forall|i: int| place <= i < all.len() implies self@.contains_key(
                    (#[trigger] all[i]).key(),
                ) && self@[all[i].key()] == target[all[i].key()] by {
                    if i > place {
                        assert(all[place].key() != all[i].key());
                    }
                }
                assert forall|other: Seq<char>|
                    (forall|i: int| place <= i < all.len() ==> !#[trigger] is_at(all, other, i))
                    implies #[trigger] self@.contains_key(other) == before.contains_key(other) && (
                self@.contains_key(other) ==> self@[other] == before[other]) by {
                    assert(!is_at(all, other, place));
                    assert(held.contains_key(other) == before.contains_key(other));
                }
            }
        }
        proof {
            assert forall|key: Seq<char>| #[trigger] self@.contains_key(key) == target.contains_key(
                key,
            ) && (self@.contains_key(key) ==> self@[key] == target[key]) by {
                if by_miner(all).contains_key(key) {
                    let i = choose|i: int| is_at(all, key, i);
                    assert(self@.contains_key(all[i].key()));
                } else {
                    assert forall|i: int| 0 <= i < all.len() implies !#[trigger] is_at(all, key, i) by {
                        if is_at(all, key, i) {
                            assert(by_miner(all).contains_key(key));
                        }
                    }
                }
            }
            assert(self@ =~= target);
        }
    }
}

fn recorded_entry(
    entry: &TelemetryAccumulator,
    share: &ShareReport,
    sums: WorkSums,
) -> (after: TelemetryAccumulator)
    requires
        entry.best_difficulty.is_share(),
        share.difficulty.is_share(),
        entry.has_room_for(*share),
    ensures
        after == entry.recorded(*share, sums),
        after.key() == entry.key(),
        after.best_difficulty.is_share(),
{
    TelemetryAccumulator {
        channel_id: entry.channel_id.clone(),
        payout_address: entry.payout_address.clone(),
        username: entry.username.clone(),
        window_start_unix_ms: entry.window_start_unix_ms,
        window_end_unix_ms: later_of(entry.window_end_unix_ms, share.observed_unix_ms),
        accepted_shares: if share.accepted {
            entry.accepted_shares + 1
        } else {
            entry.accepted_shares
        },
        rejected_shares: if share.accepted {
            entry.rejected_shares
        } else {
            entry.rejected_shares + 1
        },
        accepted_difficulty: if share.accepted {
            sums.accepted
        } else {
            entry.accepted_difficulty
        },
        fee_difficulty: if share.accepted && share.fee_work {
            sums.fee
        } else {
            entry.fee_difficulty
        },
        best_difficulty: entry.best_difficulty.max(share.difficulty),
    }
}

fn merged_entry(
    entry: &TelemetryAccumulator,
    old: &TelemetryAccumulator,
    sums: WorkSums,
) -> (after: TelemetryAccumulator)
    requires
        entry.best_difficulty.is_share(),
        old.best_difficulty.is_share(),
        entry.has_room_for_all_of(*old),
    ensures
        after == entry.merged(*old, sums),
        after.key() == entry.key(),
        after.best_difficulty.is_share(),
{
    TelemetryAccumulator {
        channel_id: entry.channel_id.clone(),
        payout_address: entry.payout_address.clone(),
        username: entry.username.clone(),
        window_start_unix_ms: earlier_of(entry.window_start_unix_ms, old.window_start_unix_ms),
        window_end_unix_ms: later_of(entry.window_end_unix_ms, old.window_end_unix_ms),
        accepted_shares: entry.accepted_shares + old.accepted_shares,
        rejected_shares: entry.rejected_shares + old.rejected_shares,
        accepted_difficulty: sums.accepted,
        fee_difficulty: sums.fee,
        best_difficulty: entry.best_difficulty.max(old.best_difficulty),
    }
}

fn later_of(first: i64, second: i64) -> (time: i64)
    ensures
        time == later(first, second),
{
    if first < second {
        second
    } else {
        first
    }
}

fn earlier_of(first: i64, second: i64) -> (time: i64)
    ensures
        time == earlier(first, second),
{
    if second < first {
        second
    } else {
        first
    }
}

/// How many accepted shares were gathered of a miner.
pub open spec fn accepted_of(book: Map<Seq<char>, TelemetryAccumulator>, key: Seq<char>) -> nat {
    if book.contains_key(key) {
        book[key].accepted_shares as nat
    } else {
        0
    }
}

/// How many rejected shares were gathered of a miner.
pub open spec fn rejected_of(book: Map<Seq<char>, TelemetryAccumulator>, key: Seq<char>) -> nat {
    if book.contains_key(key) {
        book[key].rejected_shares as nat
    } else {
        0
    }
}

/// Miners whose channels and addresses hold no zero character are told apart: they share a text
/// only where they agree in channel, address and name.
pub proof fn miners_are_told_apart(
    channel1: Seq<char>,
    address1: Seq<char>,
    name1: Seq<char>,
    channel2: Seq<char>,
    address2: Seq<char>,
    name2: Seq<char>,
)
    requires
        !channel1.contains('\0'),
        !channel2.contains('\0'),
        !address1.contains('\0'),
        !address2.contains('\0'),
        miner_key(channel1, address1, name1) == miner_key(channel2, address2, name2),
    ensures
        channel1 == channel2,
        address1 == address2,
        name1 == name2,
{
    let rest1 = address1 + seq!['\0'] + name1;
    let rest2 = address2 + seq!['\0'] + name2;
    assert(miner_key(channel1, address1, name1) =~= channel1 + seq!['\0'] + rest1);
    assert(miner_key(channel2, address2, name2) =~= channel2 + seq!['\0'] + rest2);
    lemma_split_at_first(channel1, rest1, channel2, rest2, '\0');
    lemma_split_at_first(address1, name1, address2, name2, '\0');
}

/// A share is counted once, with its miner and as what it is, and no other count changes.
pub proof fn recorded_share_counts_once(
    book: TelemetryBook,
    share: ShareReport,
    sums: WorkSums,
    key: Seq<char>,
)
    requires
        book.gathered(share).has_room_for(share),
    ensures
        ({
            let after = with_share(book@, share, sums);
            let counted = key == share.key();
            &&& accepted_of(after, key) == accepted_of(book@, key) + if counted && share.accepted {
                1int
            } else {
                0
            }
            &&& rejected_of(after, key) == rejected_of(book@, key) + if counted && !share.accepted {
                1int
            } else {
                0
            }
            &&& !counted ==> after.contains_key(key) == book@.contains_key(key) && (
            book@.contains_key(key) ==> after[key] == book@[key])
        }),
{
}

/// Only work that was accepted counts, and only work of a fee window counts as fee. The miner
/// stays the one that sent the share.
pub proof fn only_accepted_fee_work_is_fee(
    entry: TelemetryAccumulator,
    share: ShareReport,
    sums: WorkSums,
)
    ensures
        !share.accepted ==> entry.recorded(share, sums).accepted_difficulty
            == entry.accepted_difficulty,
        !(share.accepted && share.fee_work) ==> entry.recorded(share, sums).fee_difficulty
            == entry.fee_difficulty,
        entry.recorded(share, sums).key() == entry.key(),
{
}

/// Where nothing came in since, putting back what could not be sent brings back the same book.
pub proof fn failed_flush_loses_nothing(
    pending: Map<Seq<char>, TelemetryAccumulator>,
    sums: Map<Seq<char>, WorkSums>,
)
    ensures
        restored(Map::empty(), pending, sums) == pending,
{
    assert(restored(Map::empty(), pending, sums) =~= pending);
}

/// Putting back what could not be sent adds its counts, miner by miner, to those of the shares
/// that came in since.
pub proof fn restored_counts_add_up(
    book: Map<Seq<char>, TelemetryAccumulator>,
    pending: Map<Seq<char>, TelemetryAccumulator>,
    sums: Map<Seq<char>, WorkSums>,
    key: Seq<char>,
)
    requires
        book.contains_key(key) && pending.contains_key(key) ==> book[key].has_room_for_all_of(
            pending[key],
        ),
    ensures
        accepted_of(restored(book, pending, sums), key) == accepted_of(book, key) + accepted_of(
            pending,
            key,
        ),
        rejected_of(restored(book, pending, sums), key) == rejected_of(book, key) + rejected_of(
            pending,
            key,
        ),
{
}

/// The window of what is put together covers the windows of both parts, and its best share is
/// the best of both.
pub proof fn merged_window_covers_both(
    entry: TelemetryAccumulator,
    old: TelemetryAccumulator,
    sums: WorkSums,
)
    ensures
        entry.merged(old, sums).window_start_unix_ms <= entry.window_start_unix_ms,
        entry.merged(old, sums).window_start_unix_ms <= old.window_start_unix_ms,
        entry.merged(old, sums).window_end_unix_ms >= entry.window_end_unix_ms,
        entry.merged(old, sums).window_end_unix_ms >= old.window_end_unix_ms,
        entry.merged(old, sums).best_difficulty.scaled() >= entry.best_difficulty.scaled(),
        entry.merged(old, sums).best_difficulty.scaled() >= old.best_difficulty.scaled(),
{
}

} // verus!
