use crate::error::{AdsError, ADSERR_CLIENT_DUPLINVOKEID, ADSERR_CLIENT_SYNCTIMEOUT};
use crate::response::HandleData;
use crate::types::AdsCommand;
use bytes::Bytes;
use vstd::prelude::*;

verus! {

/// Milliseconds between `from` and `to` on a monotonic clock; zero if `to`
/// is not later.
pub open spec fn age_ms(from: u64, to: u64) -> int {
    if to >= from {
        to - from
    } else {
        0
    }
}

/// One request in flight: its command, its invoke-id, the reply once the
/// reader has delivered it, and when it was registered (milliseconds on a
/// monotonic clock).
#[derive(Debug)]
pub struct Handle {
    pub cmd_type: AdsCommand,
    pub invoke_id: u32,
    pub data: Option<HandleData>,
    pub timestamp: u64,
}

/// The position of the first entry of `s` at or after `i` with invoke-id
/// `id`, or -1.
pub open spec fn index_from(s: Seq<Handle>, id: u32, i: int) -> int
    decreases s.len() - i,
{
    if i < 0 || i >= s.len() {
        -1
    } else if s[i].invoke_id == id {
        i
    } else {
        index_from(s, id, i + 1)
    }
}

/// The position of the entry of `s` with invoke-id `id`, or -1.
pub open spec fn index_of(s: Seq<Handle>, id: u32) -> int {
    index_from(s, id, 0)
}

/// No two entries share an invoke-id.
pub open spec fn unique_ids(s: Seq<Handle>) -> bool {
    forall|i: int, j: int|
        0 <= i < s.len() && 0 <= j < s.len() && i != j ==> s[i].invoke_id != s[j].invoke_id
}

/// The table after registering `id`: a new entry without reply, unless the
/// id is already in use.
pub open spec fn register_spec(s: Seq<Handle>, cmd: AdsCommand, id: u32, now: u64) -> Seq<Handle> {
    if index_of(s, id) >= 0 {
        s
    } else {
        s.push(Handle { cmd_type: cmd, invoke_id: id, data: None, timestamp: now })
    }
}

/// Whether a reply for `id` lands: there is an entry for it and it has no
/// reply yet.
pub open spec fn completes(s: Seq<Handle>, id: u32) -> bool {
    index_of(s, id) >= 0 && s[index_of(s, id)].data is None
}

/// The table after the reply (`ams_err`, `payload`) for `id` arrived.
pub open spec fn complete_spec(s: Seq<Handle>, id: u32, ams_err: u32, payload: Bytes) -> Seq<Handle> {
    if completes(s, id) {
        let h = s[index_of(s, id)];
        s.update(
            index_of(s, id),
            Handle {
                cmd_type: h.cmd_type,
                invoke_id: h.invoke_id,
                data: Some(HandleData { ams_err, payload }),
                timestamp: h.timestamp,
            },
        )
    } else {
        s
    }
}

/// Whether the reply for `id` can be taken: its entry has one.
pub open spec fn takes(s: Seq<Handle>, id: u32) -> bool {
    index_of(s, id) >= 0 && s[index_of(s, id)].data is Some
}

/// The table after taking the reply for `id`.
pub open spec fn take_spec(s: Seq<Handle>, id: u32) -> Seq<Handle> {
    if takes(s, id) {
        s.remove(index_of(s, id))
    } else {
        s
    }
}

/// Whether an entry is younger than `timeout_secs` at `now`.
pub open spec fn is_fresh(h: Handle, now: u64, timeout_secs: u64) -> bool {
    age_ms(h.timestamp, now) < timeout_secs * 1000
}

/// The table after evicting every entry at least `timeout_secs` old.
pub open spec fn reap_spec(s: Seq<Handle>, now: u64, timeout_secs: u64) -> Seq<Handle> {
    s.filter(|h: Handle| is_fresh(h, now, timeout_secs))
}

/// The requests in flight, keyed by invoke-id.
pub struct PendingTable {
    entries: Vec<Handle>,
}

impl View for PendingTable {
    type V = Seq<Handle>;

    closed spec fn view(&self) -> Seq<Handle> {
        self.entries@
    }
}

/// `index_from` finds an entry with the id, and none before it.
proof fn lemma_index_from(s: Seq<Handle>, id: u32, i: int)
    requires
        0 <= i,
    ensures
        index_from(s, id, i) == -1 || (i <= index_from(s, id, i) < s.len() && s[index_from(s, id, i)].invoke_id == id),
        forall|k: int| i <= k < s.len() && s[k].invoke_id == id ==> index_from(s, id, i) != -1 && index_from(s, id, i) <= k,
    decreases s.len() - i,
{
    if i < s.len() && s[i].invoke_id != id {
        lemma_index_from(s, id, i + 1);
    }
}

/// The entry for `id`, if there is one, is where `index_of` points.
pub proof fn lemma_index_of(s: Seq<Handle>, id: u32)
    ensures
        index_of(s, id) == -1 || (0 <= index_of(s, id) < s.len() && s[index_of(s, id)].invoke_id == id),
        index_of(s, id) == -1 <==> forall|k: int| 0 <= k < s.len() ==> s[k].invoke_id != id,
{
    lemma_index_from(s, id, 0);
}

/// Evicting entries keeps invoke-ids unique.
proof fn lemma_filter_unique(s: Seq<Handle>, pred: spec_fn(Handle) -> bool)
    requires
        unique_ids(s),
    ensures
        unique_ids(s.filter(pred)),
    decreases s.len(),
{
    reveal(Seq::filter);
    if s.len() > 0 {
        let rest = s.drop_last();
        assert(unique_ids(rest));
        lemma_filter_unique(rest, pred);
        let f = rest.filter(pred);
        if pred(s.last()) {
            assert forall|k: int| 0 <= k < f.len() implies f[k].invoke_id != s.last().invoke_id by {
                assert(f.contains(f[k]));
                rest.lemma_filter_contains_rev(pred, f[k]);
                let m = choose|m: int| 0 <= m < rest.len() && rest[m] == f[k];
                assert(s[m] == rest[m]);
            }
            assert(unique_ids(f.push(s.last())));
        }
    }
}

impl PendingTable {
    pub open spec fn wf(&self) -> bool {
        unique_ids(self@)
    }

    /// An empty table.
    pub fn new() -> (r: PendingTable)
        ensures
            r@ == Seq::<Handle>::empty(),
            r.wf(),
    {
        PendingTable { entries: Vec::new() }
    }

    /// The number of requests in flight.
    pub fn len(&self) -> (r: usize)
        ensures
            r == self@.len(),
    {
        self.entries.len()
    }

    /// The position of the entry for `invoke_id`, if there is one.
    fn position(&self, invoke_id: u32) -> (r: Option<usize>)
        ensures
            match r {
                Some(i) => i as int == index_of(self@, invoke_id),
                None => index_of(self@, invoke_id) == -1,
            },
    {
        let mut i: usize = 0;
        while i < self.entries.len()
            invariant
                i <= self@.len(),
                index_of(self@, invoke_id) == index_from(self@, invoke_id, i as int),
            decreases self@.len() - i,
        {
            if self.entries[i].invoke_id == invoke_id {
                return Some(i);
            }
            i = i + 1;
        }
        None
    }

    /// Registers a request sent at `now` under `invoke_id`.
    ///
    /// Fails with `ADSERR_CLIENT_DUPLINVOKEID`, leaving the table as it was,
    /// when the id is already in use.
    pub fn register_command_handle(&mut self, invoke_id: u32, cmd: AdsCommand, now: u64) -> (r: Result<(), AdsError>)
        requires
            old(self).wf(),
        ensures
            final(self).wf(),
            final(self)@ == register_spec(old(self)@, cmd, invoke_id, now),
            r is Ok <==> index_of(old(self)@, invoke_id) == -1,
            r matches Err(e) ==> e.n_error == ADSERR_CLIENT_DUPLINVOKEID,
    {
        proof {
            lemma_index_of(self@, invoke_id);
        }
        match self.position(invoke_id) {
            Some(_) => Err(AdsError::new(ADSERR_CLIENT_DUPLINVOKEID, "The called ID is already in use.")),
            None => {
                self.entries.push(Handle { cmd_type: cmd, invoke_id, data: None, timestamp: now });
                Ok(())
            },
        }
    }

    /// Stores the reply for `invoke_id`. Returns `false`, and drops the
    /// reply, when no request waits for it: the id was never registered,
    /// was taken or evicted, or already has its reply.
    pub fn process_command(&mut self, ams_err: u32, invoke_id: u32, payload: Bytes) -> (r: bool)
        requires
            old(self).wf(),
        ensures
            final(self).wf(),
            r == completes(old(self)@, invoke_id),
            final(self)@ == complete_spec(old(self)@, invoke_id, ams_err, payload),
    {
        proof {
            lemma_index_of(self@, invoke_id);
        }
        match self.position(invoke_id) {
            Some(i) => {
                if self.entries[i].data.is_some() {
                    return false;
                }
                let h = Handle {
                    cmd_type: self.entries[i].cmd_type,
                    invoke_id: self.entries[i].invoke_id,
                    data: Some(HandleData { ams_err, payload }),
                    timestamp: self.entries[i].timestamp,
                };
                self.entries[i] = h;
                true
            },
            None => false,
        }
    }

    /// Removes and returns the reply for `invoke_id`, if it has arrived.
    pub fn take(&mut self, invoke_id: u32) -> (r: Option<HandleData>)
        requires
            old(self).wf(),
        ensures
            final(self).wf(),
            final(self)@ == take_spec(old(self)@, invoke_id),
            r is Some <==> takes(old(self)@, invoke_id),
            r matches Some(d) ==> Some(d) == old(self)@[index_of(old(self)@, invoke_id)].data,
    {
        proof {
            lemma_index_of(self@, invoke_id);
        }
        match self.position(invoke_id) {
            Some(i) => {
                if self.entries[i].data.is_none() {
                    return None;
                }
                let h = self.entries.remove(i);
                h.data
            },
            None => None,
        }
    }

    /// Evicts every request that is at least `timeout_secs` old at `now`.
    pub fn reap(&mut self, now: u64, timeout_secs: u64)
        requires
            old(self).wf(),
        ensures
            final(self).wf(),
            final(self)@ == reap_spec(old(self)@, now, timeout_secs),
    {
        let ghost s = self@;
        let ghost pred = |h: Handle| is_fresh(h, now, timeout_secs);
        let ghost mut j: int = 0;
        let mut i: usize = 0;
        while i < self.entries.len()
            invariant
                0 <= j <= s.len(),
                i <= self@.len(),
                self@ == s.subrange(0, j).filter(pred) + s.subrange(j, s.len() as int),
                i == s.subrange(0, j).filter(pred).len(),
                pred == (|h: Handle| is_fresh(h, now, timeout_secs)),
            decreases self@.len() - i,
        {
            let ghost kept = s.subrange(0, j).filter(pred);
            assert(self@[i as int] == s[j]);
            assert(s.subrange(0, j + 1).drop_last() =~= s.subrange(0, j));
            assert(s.subrange(0, j + 1).last() == s[j]);
            reveal(Seq::filter);
            let ts = self.entries[i].timestamp;
            let age: u64 = if now >= ts { now - ts } else { 0 };
            assert((age / 1000 < timeout_secs) == (age < timeout_secs * 1000)) by (nonlinear_arith);
            if age / 1000 < timeout_secs {
                assert(pred(s[j]));
                i = i + 1;
                proof {
                    j = j + 1;
                }
                assert(self@ =~= s.subrange(0, j).filter(pred) + s.subrange(j, s.len() as int));
            } else {
                assert(!pred(s[j]));
                self.entries.remove(i);
                proof {
                    j = j + 1;
                }
                assert(self@ =~= s.subrange(0, j).filter(pred) + s.subrange(j, s.len() as int));
            }
        }
        assert(s.subrange(0, j) =~= s) by {
            assert(self@.len() == i);
        }
        assert(self@ =~= reap_spec(s, now, timeout_secs));
        proof {
            lemma_filter_unique(s, pred);
        }
    }
}


/// Two tables with the same invoke-ids at the same positions find an id at
/// the same position.
proof fn lemma_index_from_same_ids(s: Seq<Handle>, t: Seq<Handle>, id: u32, i: int)
    requires
        s.len() == t.len(),
        forall|k: int| 0 <= k < s.len() ==> s[k].invoke_id == t[k].invoke_id,
    ensures
        index_from(s, id, i) == index_from(t, id, i),
    decreases s.len() - i,
{
    if 0 <= i < s.len() && s[i].invoke_id != id {
        lemma_index_from_same_ids(s, t, id, i + 1);
    }
}

/// A reply for an invoke-id that no request registered, or whose request
/// was already taken or evicted, is dropped and changes nothing.
pub proof fn lemma_unknown_reply_dropped(s: Seq<Handle>, id: u32, ams_err: u32, payload: Bytes)
    requires
        index_of(s, id) == -1,
    ensures
        !completes(s, id),
        complete_spec(s, id, ams_err, payload) == s,
{
}

/// Nothing can be taken for a registered request before its reply arrived.
pub proof fn lemma_take_waits_for_reply(s: Seq<Handle>, cmd: AdsCommand, id: u32, now: u64)
    requires
        index_of(s, id) == -1,
    ensures
        !takes(register_spec(s, cmd, id, now), id),
        take_spec(register_spec(s, cmd, id, now), id) == register_spec(s, cmd, id, now),
        completes(register_spec(s, cmd, id, now), id),
{
    let t = register_spec(s, cmd, id, now);
    lemma_index_of(s, id);
    lemma_index_of(t, id);
    assert(t[s.len() as int].invoke_id == id);
}

/// A request takes at most one reply: once a reply landed, a second reply
/// for the same invoke-id is dropped.
pub proof fn lemma_complete_at_most_once(
    s: Seq<Handle>,
    id: u32,
    err1: u32,
    payload1: Bytes,
    err2: u32,
    payload2: Bytes,
)
    ensures
        !completes(complete_spec(s, id, err1, payload1), id),
        complete_spec(complete_spec(s, id, err1, payload1), id, err2, payload2) == complete_spec(s, id, err1, payload1),
{
    let t = complete_spec(s, id, err1, payload1);
    lemma_index_of(s, id);
    lemma_index_from_same_ids(s, t, id, 0);
}

/// Once its reply is taken, a request is gone: neither a second take nor a
/// late reply finds it.
pub proof fn lemma_taken_once(s: Seq<Handle>, id: u32)
    requires
        unique_ids(s),
        takes(s, id),
    ensures
        index_of(take_spec(s, id), id) == -1,
        !takes(take_spec(s, id), id),
        !completes(take_spec(s, id), id),
{
    let t = take_spec(s, id);
    let i = index_of(s, id);
    lemma_index_of(s, id);
    lemma_index_of(t, id);
    assert forall|k: int| 0 <= k < t.len() implies t[k].invoke_id != id by {
        if k < i {
            assert(t[k] == s[k]);
        } else {
            assert(t[k] == s[k + 1]);
        }
    }
}

/// Entries that survive a sweep at `now` with timeout `timeout_secs` are,
/// until the next sweep `interval_secs` later, younger than the timeout plus
/// the interval.
pub proof fn lemma_reaped_age_bound(s: Seq<Handle>, now: u64, timeout_secs: u64, interval_secs: u64, later: u64)
    requires
        now <= later <= now + interval_secs * 1000,
    ensures
        forall|i: int|
            0 <= i < reap_spec(s, now, timeout_secs).len() ==> age_ms(
                #[trigger] reap_spec(s, now, timeout_secs)[i].timestamp,
                later,
            ) < (timeout_secs + interval_secs) * 1000,
{
    let pred = |h: Handle| is_fresh(h, now, timeout_secs);
    let r = reap_spec(s, now, timeout_secs);
    assert forall|i: int| 0 <= i < r.len() implies age_ms(#[trigger] r[i].timestamp, later) < (timeout_secs
        + interval_secs) * 1000 by {
        s.lemma_filter_pred(pred, i);
        assert(is_fresh(r[i], now, timeout_secs));
        assert((timeout_secs + interval_secs) * 1000 == timeout_secs * 1000 + interval_secs * 1000) by (nonlinear_arith);
    }
}

/// What a poll of a request decided.
#[derive(Debug)]
pub enum RequestPoll {
    /// The request is over: its reply, or the timeout error.
    Ready(Result<HandleData, AdsError>),
    /// Neither reply nor timeout yet: poll again later.
    Pending,
}

/// Whether a request started at `started_at` has timed out at `now`: more
/// than `timeout_secs` whole seconds have passed.
pub open spec fn timed_out(started_at: u64, now: u64, timeout_secs: u64) -> bool {
    age_ms(started_at, now) / 1000 > timeout_secs
}

/// A timeout is final: a request that has timed out at `now` has timed out
/// at every later time, so its waiter never reports anything else.
pub proof fn lemma_timeout_is_final(started_at: u64, now: u64, later: u64, timeout_secs: u64)
    requires
        timed_out(started_at, now, timeout_secs),
        now <= later,
    ensures
        timed_out(started_at, later, timeout_secs),
{
    assert(age_ms(started_at, now) <= age_ms(started_at, later));
    vstd::arithmetic::div_mod::lemma_div_is_ordered(age_ms(started_at, now), age_ms(started_at, later), 1000);
}

/// The waiting side of one request: resolves when the reply for its
/// invoke-id is in the table, or fails once its timeout has passed.
#[derive(Debug, Clone, Copy)]
pub struct CommandManager {
    /// When the request started, in milliseconds on the table's clock.
    pub now: u64,
    /// Seconds the request may wait.
    pub timeout: u64,
    pub invoke_id: u32,
}

impl CommandManager {
    /// The waiter of request `invoke_id`, started at `now`.
    pub fn new(timeout: u64, invoke_id: u32, now: u64) -> (r: CommandManager)
        ensures
            r.now == now,
            r.timeout == timeout,
            r.invoke_id == invoke_id,
    {
        CommandManager { now, timeout, invoke_id }
    }

    /// Decides the request at time `now`: the timeout error once it has
    /// passed, else the reply if it has arrived (taking it from the table),
    /// else `Pending`.
    pub fn poll(&self, handle_register: &mut PendingTable, now: u64) -> (r: RequestPoll)
        requires
            old(handle_register).wf(),
        ensures
            final(handle_register).wf(),
            timed_out(self.now, now, self.timeout) ==> {
                &&& r matches RequestPoll::Ready(Err(e))
                &&& e.n_error == ADSERR_CLIENT_SYNCTIMEOUT
                &&& e.s_msg@ == "Timeout has occurred - the target is not responding in the specified ADS timeout."@
                &&& final(handle_register)@ == old(handle_register)@
            },
            !timed_out(self.now, now, self.timeout) ==> {
                &&& final(handle_register)@ == take_spec(old(handle_register)@, self.invoke_id)
                &&& (r is Pending <==> !takes(old(handle_register)@, self.invoke_id))
                &&& r matches RequestPoll::Ready(x) ==> (x matches Ok(d) && Some(d)
                    == old(handle_register)@[index_of(old(handle_register)@, self.invoke_id)].data)
            },
    {
        let elapsed: u64 = if now >= self.now { now - self.now } else { 0 };
        if elapsed / 1000 > self.timeout {
            return RequestPoll::Ready(
                Err(
                    AdsError::new(
                        ADSERR_CLIENT_SYNCTIMEOUT,
                        "Timeout has occurred - the target is not responding in the specified ADS timeout.",
                    ),
                ),
            );
        }
        match handle_register.take(self.invoke_id) {
            Some(d) => RequestPoll::Ready(Ok(d)),
            None => RequestPoll::Pending,
        }
    }
}

/// The periodic sweep that evicts requests whose waiter has given up.
#[derive(Debug, Clone, Copy)]
pub struct CommandCleaner {
    /// Seconds between two sweeps.
    pub interval: u64,
    /// Age in seconds from which a request is evicted.
    pub timeout: u64,
}

impl CommandCleaner {
    /// A sweeper that runs every `interval` seconds and evicts requests at
    /// least `timeout` seconds old.
    pub fn new(interval: u64, timeout: u64) -> (r: CommandCleaner)
        ensures
            r.interval == interval,
            r.timeout == timeout,
    {
        CommandCleaner { interval, timeout }
    }

    /// One sweep at time `now`.
    pub fn sweep(&self, handle_register: &mut PendingTable, now: u64)
        requires
            old(handle_register).wf(),
        ensures
            final(handle_register).wf(),
            final(handle_register)@ == reap_spec(old(handle_register)@, now, self.timeout),
    {
        handle_register.reap(now, self.timeout);
    }
}

} // verus!
