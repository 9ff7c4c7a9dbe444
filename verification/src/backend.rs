//! A deterministic in-memory stand-in for the server and its store.
//!
//! The store offers two atomic operations: a conditional create with expiry
//! and a take that reads and removes in one step. [`StoreState`] is the
//! mathematical model of both, with an explicit clock; [`FakeBackend`] is an
//! executable store that is proved to follow the model. The laws at the end
//! are stated over the model: a record is handed out at most once, and not at
//! all once its time to live has passed.
use crate::protocol::Taken;
use vstd::prelude::*;

verus! {

/// A stored value and the time at which it expires.
pub struct Entry {
    pub secret: Seq<char>,
    pub expires_at: nat,
}

/// The state of a store: a clock, the time to live of new records, and the
/// records by identifier.
pub struct StoreState {
    pub now: nat,
    pub ttl: nat,
    pub records: Map<Seq<char>, Entry>,
}

/// Times are kept in 64 bits and stop at the largest value.
pub open spec fn saturate(time: nat) -> nat {
    if time > u64::MAX {
        u64::MAX as nat
    } else {
        time
    }
}

impl StoreState {
    /// A store without records, at time zero.
    pub open spec fn empty(ttl: nat) -> StoreState {
        StoreState { now: 0, ttl, records: Map::empty() }
    }

    /// `id` holds a record that has not expired.
    pub open spec fn live(self, id: Seq<char>) -> bool {
        self.records.dom().contains(id) && self.now < self.records[id].expires_at
    }

    /// The state after a create: nothing changes where `id` is live;
    /// otherwise `id` holds `secret` until the time to live has passed.
    pub open spec fn create(self, id: Seq<char>, secret: Seq<char>) -> StoreState {
        if self.live(id) {
            self
        } else {
            StoreState {
                records: self.records.insert(
                    id,
                    Entry { secret, expires_at: saturate(self.now + self.ttl) },
                ),
                ..self
            }
        }
    }

    /// What a take of `id` hands out.
    pub open spec fn taken(self, id: Seq<char>) -> Option<Seq<char>> {
        if self.live(id) {
            Some(self.records[id].secret)
        } else {
            None
        }
    }

    /// The state after a take of `id`: the record is gone, live or not.
    pub open spec fn take_once(self, id: Seq<char>) -> StoreState {
        StoreState { records: self.records.remove(id), ..self }
    }

    /// The state after `seconds` have passed.
    pub open spec fn advance(self, seconds: nat) -> StoreState {
        StoreState { now: saturate(self.now + seconds), ..self }
    }

    /// What each of `count` successive takes of `id` hands out, in order.
    pub open spec fn takes(self, id: Seq<char>, count: nat) -> Seq<Option<Seq<char>>>
        decreases count,
    {
        if count == 0 {
            Seq::empty()
        } else {
            seq![self.taken(id)] + self.take_once(id).takes(id, (count - 1) as nat)
        }
    }
}

/// How a create ended.
#[derive(Debug, Clone, Copy, PartialEq, Eq, Structural)]
pub enum CreateOutcome {
    /// The record was stored.
    Created,
    /// The identifier already holds a live record; nothing was changed.
    AlreadyExists,
}

struct Record {
    id: String,
    secret: String,
    expires_at: u64,
}

spec fn distinct_ids(records: Seq<Record>) -> bool {
    forall|i: int, j: int|
        0 <= i < j < records.len() ==> (#[trigger] records[i]).id@ != (#[trigger] records[j]).id@
}

spec fn holds(records: Seq<Record>, id: Seq<char>) -> bool {
    exists|i: int| 0 <= i < records.len() && (#[trigger] records[i]).id@ == id
}

spec fn index_of(records: Seq<Record>, id: Seq<char>) -> int {
    choose|i: int| 0 <= i < records.len() && (#[trigger] records[i]).id@ == id
}

spec fn entry_of(record: Record) -> Entry {
    Entry { secret: record.secret@, expires_at: record.expires_at as nat }
}

spec fn records_map(records: Seq<Record>) -> Map<Seq<char>, Entry> {
    Map::new(|id: Seq<char>| holds(records, id), |id: Seq<char>| entry_of(records[index_of(records, id)]))
}

proof fn lemma_entry_at(records: Seq<Record>, i: int)
    requires
        distinct_ids(records),
        0 <= i < records.len(),
    ensures
        records_map(records).dom().contains(records[i].id@),
        records_map(records)[records[i].id@] == entry_of(records[i]),
{
    let id = records[i].id@;
    assert(holds(records, id));
    let j = index_of(records, id);
    assert(0 <= j < records.len() && records[j].id@ == id);
    assert(j == i);
}

proof fn lemma_push(records: Seq<Record>, record: Record)
    requires
        distinct_ids(records),
        !holds(records, record.id@),
    ensures
        distinct_ids(records.push(record)),
        records_map(records.push(record)) == records_map(records).insert(
            record.id@,
            entry_of(record),
        ),
{
    let grown = records.push(record);
    assert(distinct_ids(grown)) by {
        assert forall|i: int, j: int| 0 <= i < j < grown.len() implies (#[trigger] grown[i]).id@
            != (#[trigger] grown[j]).id@ by {
            if j < records.len() {
                assert(grown[i] == records[i] && grown[j] == records[j]);
            } else {
                assert(grown[i] == records[i]);
                assert(grown[j] == record);
            }
        }
    }
    let goal = records_map(records).insert(record.id@, entry_of(record));
    assert forall|id: Seq<char>| records_map(grown).dom().contains(id) <==> goal.dom().contains(
        id,
    ) by {
        if holds(grown, id) {
            let i = index_of(grown, id);
            if i < records.len() {
                assert(records[i] == grown[i]);
            }
        }
        if holds(records, id) {
            let i = index_of(records, id);
            assert(grown[i] == records[i]);
        }
        if id == record.id@ {
            assert(grown[records.len() as int] == record);
        }
    }
    assert forall|id: Seq<char>| records_map(grown).dom().contains(id) implies records_map(
        grown,
    )[id] == goal[id] by {
        let i = index_of(grown, id);
        lemma_entry_at(grown, i);
        if i < records.len() {
            assert(grown[i] == records[i]);
            lemma_entry_at(records, i);
        } else {
            assert(grown[i] == record);
        }
    }
    assert(records_map(grown) =~= goal);
}

proof fn lemma_remove(records: Seq<Record>, at: int)
    requires
        distinct_ids(records),
        0 <= at < records.len(),
    ensures
        distinct_ids(records.remove(at)),
        !holds(records.remove(at), records[at].id@),
        records_map(records.remove(at)) == records_map(records).remove(records[at].id@),
{
    let rest = records.remove(at);
    let gone = records[at].id@;
    assert forall|i: int| 0 <= i < rest.len() implies (#[trigger] rest[i]) == records[if i < at {
        i
    } else {
        i + 1
    }] by {}
    assert(distinct_ids(rest)) by {
        assert forall|i: int, j: int| 0 <= i < j < rest.len() implies (#[trigger] rest[i]).id@ != (
        #[trigger] rest[j]).id@ by {
            let oi = if i < at { i } else { i + 1 };
            let oj = if j < at { j } else { j + 1 };
            assert(rest[i] == records[oi] && rest[j] == records[oj]);
        }
    }
    assert(!holds(rest, gone)) by {
        if holds(rest, gone) {
            let i = index_of(rest, gone);
            let oi = if i < at { i } else { i + 1 };
            assert(rest[i] == records[oi]);
            assert(records[oi].id@ == records[at].id@);
        }
    }
    let goal = records_map(records).remove(gone);
    assert forall|id: Seq<char>| records_map(rest).dom().contains(id) <==> goal.dom().contains(
        id,
    ) by {
        if holds(rest, id) {
            let i = index_of(rest, id);
            let oi = if i < at { i } else { i + 1 };
            assert(rest[i] == records[oi]);
            assert(holds(records, id));
        }
        if holds(records, id) && id != gone {
            let oi = index_of(records, id);
            let i = if oi < at { oi } else { oi - 1 };
            assert(rest[i] == records[oi]);
            assert(holds(rest, id));
        }
    }
    assert forall|id: Seq<char>| records_map(rest).dom().contains(id) implies records_map(rest)[id]
        == goal[id] by {
        let i = index_of(rest, id);
        let oi = if i < at { i } else { i + 1 };
        assert(rest[i] == records[oi]);
        lemma_entry_at(rest, i);
        lemma_entry_at(records, oi);
    }
    assert(records_map(rest) =~= goal);
}

/// An in-memory store of passphrases with expiry and take-once, driven by an
/// explicit clock.
pub struct FakeBackend {
    records: Vec<Record>,
    now: u64,
    ttl: u64,
}

impl View for FakeBackend {
    type V = StoreState;

    closed spec fn view(&self) -> StoreState {
        StoreState {
            now: self.now as nat,
            ttl: self.ttl as nat,
            records: records_map(self.records@),
        }
    }
}

impl FakeBackend {
    #[verifier::type_invariant]
    spec fn well_formed(self) -> bool {
        distinct_ids(self.records@)
    }

    /// An empty store at time zero whose records live `ttl` seconds.
    pub fn new(ttl: u64) -> (backend: FakeBackend)
        ensures
            backend@ == StoreState::empty(ttl as nat),
    {
        let backend = FakeBackend { records: Vec::new(), now: 0, ttl };
        assert(records_map(backend.records@) =~= Map::empty());
        backend
    }

    /// The current time of the store's clock, in seconds.
    pub fn now(&self) -> (now: u64)
        ensures
            now == self@.now,
    {
        self.now
    }

    /// Lets `seconds` pass.
    pub fn advance(&mut self, seconds: u64)
        ensures
            final(self)@ == old(self)@.advance(seconds as nat),
    {
        proof {
            use_type_invariant(&*self);
        }
        let now: u64 = if seconds > u64::MAX - self.now {
            u64::MAX
        } else {
            self.now + seconds
        };
        self.now = now;
    }

    fn find(&self, id: &String) -> (res: Option<usize>)
        ensures
            match res {
                Some(i) => i < self.records@.len() && self.records@[i as int].id@ == id@,
                None => !holds(self.records@, id@),
            },
    {
        let mut i: usize = 0;
        while i < self.records.len()
            invariant
                i <= self.records@.len(),
                forall|j: int| 0 <= j < i ==> (#[trigger] self.records@[j]).id@ != id@,
            decreases self.records@.len() - i,
        {
            if self.records[i].id == *id {
                return Some(i);
            }
            i = i + 1;
        }
        None
    }

    /// Creates a record: stores `secret` under `id` unless `id` already holds
    /// a live record. A new record lives for the store's time to live.
    pub fn post(&mut self, id: String, secret: String) -> (outcome: CreateOutcome)
        ensures
            final(self)@ == old(self)@.create(id@, secret@),
            outcome == if old(self)@.live(id@) {
                CreateOutcome::AlreadyExists
            } else {
                CreateOutcome::Created
            },
    {
        proof {
            use_type_invariant(&*self);
        }
        let expires_at: u64 = if self.ttl > u64::MAX - self.now {
            u64::MAX
        } else {
            self.now + self.ttl
        };
        let ghost before = self.records@;
        let found = self.find(&id);
        if let Some(i) = found {
            proof {
                lemma_entry_at(before, i as int);
            }
            if self.now < self.records[i].expires_at {
                return CreateOutcome::AlreadyExists;
            }
        }
        let mut records: Vec<Record> = Vec::new();
        std::mem::swap(&mut self.records, &mut records);
        if let Some(i) = found {
            let _ = records.remove(i);
            proof {
                lemma_remove(before, i as int);
            }
        }
        let record = Record { id, secret, expires_at };
        proof {
            lemma_push(records@, record);
            assert(records_map(records@.push(record)) =~= records_map(before).insert(
                record.id@,
                entry_of(record),
            ));
        }
        records.push(record);
        self.records = records;
        CreateOutcome::Created
    }

    /// Takes the record under `id`: hands out its value if it is live, and
    /// removes it in the same step, so that no later take sees it.
    pub fn get(&mut self, id: &str) -> (taken: Taken)
        ensures
            final(self)@ == old(self)@.take_once(id@),
            match old(self)@.taken(id@) {
                Some(secret) => taken matches Taken::Value(value) && value@ == secret,
                None => taken == Taken::Absent,
            },
    {
        proof {
            use_type_invariant(&*self);
        }
        let key = id.to_owned();
        let ghost before = self.records@;
        match self.find(&key) {
            Some(i) => {
                proof {
                    lemma_entry_at(before, i as int);
                    lemma_remove(before, i as int);
                }
                let mut records: Vec<Record> = Vec::new();
                std::mem::swap(&mut self.records, &mut records);
                let record = records.remove(i);
                self.records = records;
                if self.now < record.expires_at {
                    Taken::Value(record.secret)
                } else {
                    Taken::Absent
                }
            },
            None => {
                assert(records_map(before).remove(id@) =~= records_map(before));
                Taken::Absent
            },
        }
    }
}

/// A take is final: whatever the state, a second take of the same identifier
/// hands out nothing.
pub proof fn lemma_second_take_is_absent(state: StoreState, id: Seq<char>)
    ensures
        !state.take_once(id).live(id),
        state.take_once(id).taken(id) is None,
{
}

/// Of any number of successive takes of one identifier, only the first can
/// hand out a value: it does so exactly when the record is live, and every
/// later take finds the identifier absent.
pub proof fn lemma_taken_at_most_once(state: StoreState, id: Seq<char>, count: nat)
    ensures
        state.takes(id, count).len() == count,
        count > 0 ==> state.takes(id, count)[0] == state.taken(id),
        forall|k: int| 1 <= k < count ==> (#[trigger] state.takes(id, count)[k]) is None,
    decreases count,
{
    if count > 0 {
        let next = state.take_once(id);
        lemma_taken_at_most_once(next, id, (count - 1) as nat);
        lemma_second_take_is_absent(state, id);
        assert forall|k: int| 1 <= k < count implies (#[trigger] state.takes(id, count)[k]) is None by {
            assert(state.takes(id, count)[k] == next.takes(id, (count - 1) as nat)[k - 1]);
            if k == 1 {
                assert(next.takes(id, (count - 1) as nat)[0] == next.taken(id));
            }
        }
    }
}

/// A live record is handed out to exactly one of any number of takes: the
/// first gets the stored value, all others find it absent.
pub proof fn lemma_live_record_is_taken_once(state: StoreState, id: Seq<char>, count: nat)
    requires
        state.live(id),
        count > 0,
    ensures
        state.takes(id, count).len() == count,
        state.takes(id, count)[0] == Some(state.records[id].secret),
        forall|k: int| 1 <= k < count ==> (#[trigger] state.takes(id, count)[k]) is None,
{
    lemma_taken_at_most_once(state, id, count);
}

/// A create on an identifier that is not live stores the value, and the
/// record is live from then on unless its time to live is zero or the clock
/// has reached its end.
pub proof fn lemma_created_is_live(state: StoreState, id: Seq<char>, secret: Seq<char>)
    requires
        !state.live(id),
    ensures
        state.create(id, secret).records[id].secret == secret,
        state.ttl > 0 && state.now < u64::MAX ==> state.create(id, secret).live(id),
        state.ttl > 0 && state.now < u64::MAX ==> state.create(id, secret).taken(id) == Some(
            secret,
        ),
{
}

/// A record whose time to live has passed is absent, though it was never
/// taken; until then it is handed out.
pub proof fn lemma_expired_is_absent(
    state: StoreState,
    id: Seq<char>,
    secret: Seq<char>,
    seconds: nat,
)
    requires
        !state.live(id),
    ensures
        seconds >= state.ttl ==> state.create(id, secret).advance(seconds).taken(id) is None,
        seconds < state.ttl && state.now + seconds < u64::MAX ==> state.create(id, secret).advance(
            seconds,
        ).taken(id) == Some(secret),
{
}

} // verus!
