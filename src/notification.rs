use crate::buffer::{bytes_content, bytes_data, bytes_slice};
use crate::endian::{get_u32_le, get_u64_le, read_le32, read_le64};
use crate::error::{AdsError, ERR_INVALIDAMSLENGTH};
use crate::response::{agrees, eval_reply, plain_outcome, reply_error, HandleData};
use bytes::Bytes;
use vstd::prelude::*;

verus! {

/// Size of a stamp header: timestamp and sample count.
pub const LEN_STAMP_HEADER_MIN: usize = 12;

/// Size of a sample header: notification handle and sample size.
pub const LEN_NOT_SAMPLE_MIN: usize = 8;

/// The header of one stamp of a notification frame.
#[derive(Debug, Clone, Copy, PartialEq, Eq)]
pub struct AdsStampHeader {
    pub timestamp: u64,
    pub samples: u32,
}

/// The header of one sample of a notification frame.
#[derive(Debug, Clone, Copy, PartialEq, Eq)]
pub struct AdsNotificationSample {
    pub not_hdl: u32,
    pub sample_size: u32,
}

/// One sample of a notification frame, as its subscriber receives it.
#[derive(Debug)]
pub struct NotificationData {
    pub not_hdl: u32,
    /// Windows FILETIME of the stamp: 100 ns units since 1601-01-01 UTC.
    pub timestamp: u64,
    pub payload: Bytes,
}

/// A sample as the frame describes it.
pub struct SampleSpec {
    pub not_hdl: u32,
    pub timestamp: u64,
    pub payload: Seq<u8>,
}

pub open spec fn sample_view(x: NotificationData) -> SampleSpec {
    SampleSpec { not_hdl: x.not_hdl, timestamp: x.timestamp, payload: bytes_content(x.payload) }
}

/// The `n` samples of the stamp with timestamp `ts` that start at `off`,
/// and where the next stamp starts; `None` if a sample reaches past `limit`.
pub open spec fn parse_samples(d: Seq<u8>, off: int, n: nat, limit: int, ts: u64) -> Option<(Seq<SampleSpec>, int)>
    decreases n,
{
    if n == 0 {
        Some((Seq::empty(), off))
    } else if off + LEN_NOT_SAMPLE_MIN > limit {
        None
    } else {
        let start = off + LEN_NOT_SAMPLE_MIN;
        let end = start + read_le32(d, off + 4);
        if end > limit {
            None
        } else {
            match parse_samples(d, end, (n - 1) as nat, limit, ts) {
                None => None,
                Some((rest, next)) => Some((
                    seq![SampleSpec { not_hdl: read_le32(d, off), timestamp: ts, payload: d.subrange(start, end) }]
                        + rest,
                    next,
                )),
            }
        }
    }
}

/// The samples of the `n` stamps that start at `off`; `None` if a stamp or
/// sample reaches past `limit`.
pub open spec fn parse_stamps(d: Seq<u8>, off: int, n: nat, limit: int) -> Option<Seq<SampleSpec>>
    decreases n,
{
    if n == 0 {
        Some(Seq::empty())
    } else if off + LEN_STAMP_HEADER_MIN > limit {
        None
    } else {
        match parse_samples(d, off + LEN_STAMP_HEADER_MIN, read_le32(d, off + 8) as nat, limit, read_le64(d, off)) {
            None => None,
            Some((samples, next)) => match parse_stamps(d, next, (n - 1) as nat, limit) {
                None => None,
                Some(rest) => Some(samples + rest),
            },
        }
    }
}

/// The samples of a device-notification payload: stream size and stamp
/// count, then the stamps. `None` for a malformed frame: one shorter than
/// its two counts, one whose stream size reaches past its end, or one with a
/// stamp or sample past the stream size.
pub open spec fn notification_samples(d: Seq<u8>) -> Option<Seq<SampleSpec>> {
    if d.len() < 8 || read_le32(d, 0) + 4 > d.len() {
        None
    } else {
        parse_stamps(d, 8, read_le32(d, 4) as nat, read_le32(d, 0) + 4)
    }
}

/// `acc` followed by the samples of `rest`, if `rest` parsed.
pub open spec fn after_samples(acc: Seq<SampleSpec>, rest: Option<(Seq<SampleSpec>, int)>) -> Option<(Seq<SampleSpec>, int)> {
    match rest {
        None => None,
        Some((r, next)) => Some((acc + r, next)),
    }
}

/// `acc` followed by `rest`, if `rest` parsed.
pub open spec fn after_stamps(acc: Seq<SampleSpec>, rest: Option<Seq<SampleSpec>>) -> Option<Seq<SampleSpec>> {
    match rest {
        None => None,
        Some(r) => Some(acc + r),
    }
}

/// Reads the stamp header at `off`.
pub fn read_stamp_header(d: &[u8], off: usize) -> (r: AdsStampHeader)
    requires
        off + LEN_STAMP_HEADER_MIN <= d@.len(),
    ensures
        r.timestamp == read_le64(d@, off as int),
        r.samples == read_le32(d@, off + 8),
{
    let n = d.len();
    assert(off + 8 < n);
    AdsStampHeader { timestamp: get_u64_le(d, off), samples: get_u32_le(d, off + 8) }
}

/// Reads the sample header at `off`.
pub fn read_sample_header(d: &[u8], off: usize) -> (r: AdsNotificationSample)
    requires
        off + LEN_NOT_SAMPLE_MIN <= d@.len(),
    ensures
        r.not_hdl == read_le32(d@, off as int),
        r.sample_size == read_le32(d@, off + 4),
{
    let n = d.len();
    assert(off + 4 < n);
    AdsNotificationSample { not_hdl: get_u32_le(d, off), sample_size: get_u32_le(d, off + 4) }
}

/// Decodes a device-notification payload into its samples, each payload a
/// view into `data`. A malformed frame gives `None` as a whole, so that no
/// sample of it is delivered.
pub fn parse_notification(data: &Bytes) -> (r: Option<Vec<NotificationData>>)
    ensures
        match notification_samples(bytes_content(*data)) {
            None => r is None,
            Some(s) => r matches Some(v) && v@.map_values(|x: NotificationData| sample_view(x)) == s,
        },
{
    let d = bytes_data(data);
    let ghost dv = d@;
    let len = d.len();
    if len < 8 {
        return None;
    }
    let stream_size = get_u32_le(d, 0);
    if stream_size as usize > len - 4 {
        return None;
    }
    let limit = stream_size as usize + 4;
    let stamps = get_u32_le(d, 4);
    let mut out: Vec<NotificationData> = Vec::new();
    let mut off: usize = 8;
    let mut k: u32 = 0;
    while k < stamps
        invariant
            dv == d@,
            dv == bytes_content(*data),
            len == dv.len(),
            limit <= len,
            off <= len,
            k <= stamps,
            stamps == read_le32(dv, 4),
            limit == read_le32(dv, 0) + 4,
            notification_samples(dv) == after_stamps(
                out@.map_values(|x: NotificationData| sample_view(x)),
                parse_stamps(dv, off as int, (stamps - k) as nat, limit as int),
            ),
        decreases stamps - k,
    {
        if limit < off || limit - off < LEN_STAMP_HEADER_MIN {
            return None;
        }
        let stamp = read_stamp_header(d, off);
        let ghost before = out@.map_values(|x: NotificationData| sample_view(x));
        let ghost first = off + LEN_STAMP_HEADER_MIN;
        off = off + LEN_STAMP_HEADER_MIN;
        let mut j: u32 = 0;
        while j < stamp.samples
            invariant
                dv == d@,
                dv == bytes_content(*data),
                len == dv.len(),
                limit <= len,
                off <= limit,
                j <= stamp.samples,
                stamp.timestamp == read_le64(dv, first - LEN_STAMP_HEADER_MIN),
                stamp.samples == read_le32(dv, first - 4),
                first - LEN_STAMP_HEADER_MIN >= 0,
                first <= limit,
                k < stamps,
                stamps == read_le32(dv, 4),
                notification_samples(dv) == after_stamps(
                    before,
                    parse_stamps(dv, first - LEN_STAMP_HEADER_MIN, (stamps - k) as nat, limit as int),
                ),
                parse_samples(dv, first, stamp.samples as nat, limit as int, stamp.timestamp) == after_samples(
                    out@.map_values(|x: NotificationData| sample_view(x)).subrange(before.len() as int, out@.len() as int),
                    parse_samples(dv, off as int, (stamp.samples - j) as nat, limit as int, stamp.timestamp),
                ),
                before.len() <= out@.len(),
                out@.map_values(|x: NotificationData| sample_view(x)).subrange(0, before.len() as int) == before,
            decreases stamp.samples - j,
        {
            if limit - off < LEN_NOT_SAMPLE_MIN {
                return None;
            }
            let sample = read_sample_header(d, off);
            let start = off + LEN_NOT_SAMPLE_MIN;
            if sample.sample_size as usize > limit - start {
                return None;
            }
            let end = start + sample.sample_size as usize;
            let ghost prev = out@.map_values(|x: NotificationData| sample_view(x));
            out.push(NotificationData { not_hdl: sample.not_hdl, timestamp: stamp.timestamp, payload: bytes_slice(data, start, end) });
            proof {
                let now_v = out@.map_values(|x: NotificationData| sample_view(x));
                assert(now_v =~= prev.push(sample_view(out@.last())));
                assert(now_v.subrange(0, before.len() as int) =~= prev.subrange(0, before.len() as int));
                assert(now_v.subrange(before.len() as int, out@.len() as int) =~= prev.subrange(before.len() as int, prev.len() as int).push(sample_view(out@.last())));
            }
            off = end;
            j = j + 1;
        }
        proof {
            let now_v = out@.map_values(|x: NotificationData| sample_view(x));
            let part = now_v.subrange(before.len() as int, now_v.len() as int);
            assert(now_v =~= before + part);
            let rest = parse_stamps(dv, off as int, (stamps - k - 1) as nat, limit as int);
            if let Some(r) = rest {
                assert(before + (part + r) =~= now_v + r);
            }
        }
        k = k + 1;
    }
    Some(out)
}

/// A notification subscription: the handle that the server assigned and
/// what the client delivers its samples to.
#[derive(Debug)]
pub struct NotHandle<T> {
    pub not_hdl: u32,
    pub subscriber: T,
}

/// The position of the first subscription of `s` at or after `i` with
/// handle `h`, or -1.
pub open spec fn sub_index_from<T>(s: Seq<NotHandle<T>>, h: u32, i: int) -> int
    decreases s.len() - i,
{
    if i < 0 || i >= s.len() {
        -1
    } else if s[i].not_hdl == h {
        i
    } else {
        sub_index_from(s, h, i + 1)
    }
}

/// The position of the subscription with handle `h`, or -1.
pub open spec fn sub_index<T>(s: Seq<NotHandle<T>>, h: u32) -> int {
    sub_index_from(s, h, 0)
}

/// No two subscriptions share a handle.
pub open spec fn unique_handles<T>(s: Seq<NotHandle<T>>) -> bool {
    forall|i: int, j: int| 0 <= i < s.len() && 0 <= j < s.len() && i != j ==> s[i].not_hdl != s[j].not_hdl
}

/// The subscriptions after subscribing `subscriber` under `h`; an earlier
/// subscription with the same handle is replaced.
pub open spec fn subscribe_spec<T>(s: Seq<NotHandle<T>>, h: u32, subscriber: T) -> Seq<NotHandle<T>> {
    if sub_index(s, h) >= 0 {
        s.update(sub_index(s, h), NotHandle { not_hdl: h, subscriber })
    } else {
        s.push(NotHandle { not_hdl: h, subscriber })
    }
}

/// The subscriptions after removing the one with handle `h`.
pub open spec fn unsubscribe_spec<T>(s: Seq<NotHandle<T>>, h: u32) -> Seq<NotHandle<T>> {
    if sub_index(s, h) >= 0 {
        s.remove(sub_index(s, h))
    } else {
        s
    }
}

/// The samples of `samples` that some subscription of `s` is waiting for.
pub open spec fn subscribed_samples<T>(s: Seq<NotHandle<T>>, samples: Seq<SampleSpec>) -> Seq<SampleSpec> {
    samples.filter(|x: SampleSpec| sub_index(s, x.not_hdl) >= 0)
}

proof fn lemma_sub_index_from<T>(s: Seq<NotHandle<T>>, h: u32, i: int)
    requires
        0 <= i,
    ensures
        sub_index_from(s, h, i) == -1 || (i <= sub_index_from(s, h, i) < s.len() && s[sub_index_from(s, h, i)].not_hdl == h),
        forall|k: int| i <= k < s.len() && s[k].not_hdl == h ==> sub_index_from(s, h, i) != -1 && sub_index_from(s, h, i) <= k,
    decreases s.len() - i,
{
    if i < s.len() && s[i].not_hdl != h {
        lemma_sub_index_from(s, h, i + 1);
    }
}

/// The subscription for `h`, if there is one, is where `sub_index` points.
pub proof fn lemma_sub_index<T>(s: Seq<NotHandle<T>>, h: u32)
    ensures
        sub_index(s, h) == -1 || (0 <= sub_index(s, h) < s.len() && s[sub_index(s, h)].not_hdl == h),
        sub_index(s, h) == -1 <==> forall|k: int| 0 <= k < s.len() ==> s[k].not_hdl != h,
{
    lemma_sub_index_from(s, h, 0);
}

/// The outcome of a reply to an AddDeviceNotification request: the handle
/// that the server assigned, after the return code.
pub open spec fn add_outcome(ams_err: u32, p: Seq<u8>) -> Result<u32, u32> {
    match reply_error(ams_err, p) {
        Some(e) => Err(e),
        None => if p.len() < 8 {
            Err(ERR_INVALIDAMSLENGTH as u32)
        } else {
            Ok(read_le32(p, 4))
        },
    }
}

/// The active notification subscriptions, keyed by server handle.
pub struct NotificationTable<T> {
    entries: Vec<NotHandle<T>>,
}

impl<T> View for NotificationTable<T> {
    type V = Seq<NotHandle<T>>;

    closed spec fn view(&self) -> Seq<NotHandle<T>> {
        self.entries@
    }
}

impl<T> NotificationTable<T> {
    pub open spec fn wf(&self) -> bool {
        unique_handles(self@)
    }

    /// A table without subscriptions.
    pub fn new() -> (r: NotificationTable<T>)
        ensures
            r@ == Seq::<NotHandle<T>>::empty(),
            r.wf(),
    {
        NotificationTable { entries: Vec::new() }
    }

    /// The number of subscriptions.
    pub fn len(&self) -> (r: usize)
        ensures
            r == self@.len(),
    {
        self.entries.len()
    }

    fn position(&self, not_hdl: u32) -> (r: Option<usize>)
        ensures
            match r {
                Some(i) => i as int == sub_index(self@, not_hdl),
                None => sub_index(self@, not_hdl) == -1,
            },
    {
        let mut i: usize = 0;
        while i < self.entries.len()
            invariant
                i <= self@.len(),
                sub_index(self@, not_hdl) == sub_index_from(self@, not_hdl, i as int),
            decreases self@.len() - i,
        {
            if self.entries[i].not_hdl == not_hdl {
                return Some(i);
            }
            i = i + 1;
        }
        None
    }

    /// Subscribes `subscriber` under the server handle `not_hdl`.
    pub fn register_not_handle(&mut self, not_hdl: u32, subscriber: T)
        requires
            old(self).wf(),
        ensures
            final(self).wf(),
            final(self)@ == subscribe_spec(old(self)@, not_hdl, subscriber),
    {
        proof {
            lemma_sub_index(self@, not_hdl);
        }
        match self.position(not_hdl) {
            Some(i) => {
                self.entries[i] = NotHandle { not_hdl, subscriber };
            },
            None => {
                self.entries.push(NotHandle { not_hdl, subscriber });
            },
        }
    }

    /// Removes the subscription with handle `not_hdl`; `false` if there was none.
    pub fn remove(&mut self, not_hdl: u32) -> (r: bool)
        requires
            old(self).wf(),
        ensures
            final(self).wf(),
            final(self)@ == unsubscribe_spec(old(self)@, not_hdl),
            r == (sub_index(old(self)@, not_hdl) >= 0),
    {
        proof {
            lemma_sub_index(self@, not_hdl);
        }
        match self.position(not_hdl) {
            Some(i) => {
                self.entries.remove(i);
                true
            },
            None => false,
        }
    }

    /// The subscriber for handle `not_hdl`, if there is one.
    pub fn lookup(&self, not_hdl: u32) -> (r: Option<&T>)
        ensures
            match r {
                Some(x) => sub_index(self@, not_hdl) >= 0 && *x == self@[sub_index(self@, not_hdl)].subscriber,
                None => sub_index(self@, not_hdl) == -1,
            },
    {
        proof {
            lemma_sub_index(self@, not_hdl);
        }
        match self.position(not_hdl) {
            Some(i) => Some(&self.entries[i].subscriber),
            None => None,
        }
    }

    /// Completes an AddDeviceNotification request: writes the handle that
    /// the server assigned into `handle` and, unless it is zero, subscribes
    /// `subscriber` under it. On failure nothing changes.
    pub fn post_add_dev_not(&mut self, add_dev_not_response: &HandleData, handle: &mut u32, subscriber: T) -> (r: Result<(), AdsError>)
        requires
            old(self).wf(),
        ensures
            final(self).wf(),
            agrees(
                r,
                match add_outcome(add_dev_not_response.ams_err, add_dev_not_response.payload_bytes()) {
                    Ok(_) => Ok(()),
                    Err(e) => Err(e),
                },
            ),
            match add_outcome(add_dev_not_response.ams_err, add_dev_not_response.payload_bytes()) {
                Ok(h) => *final(handle) == h && final(self)@ == (if h != 0 {
                    subscribe_spec(old(self)@, h, subscriber)
                } else {
                    old(self)@
                }),
                Err(_) => *final(handle) == *old(handle) && final(self)@ == old(self)@,
            },
    {
        eval_reply(add_dev_not_response)?;
        let p = bytes_data(&add_dev_not_response.payload);
        if p.len() < 8 {
            return Err(AdsError::new(ERR_INVALIDAMSLENGTH, "Invalid AMS length"));
        }
        *handle = get_u32_le(p, 4);
        if *handle != 0 {
            self.register_not_handle(*handle, subscriber);
        }
        Ok(())
    }

    /// Completes a DeleteDeviceNotification request for `handle`: on
    /// success the subscription is removed, so that later samples for it
    /// are ignored. On failure nothing changes.
    pub fn post_delete_device_notification(&mut self, del_not_response: &HandleData, handle: u32) -> (r: Result<(), AdsError>)
        requires
            old(self).wf(),
        ensures
            final(self).wf(),
            agrees(r, plain_outcome(del_not_response.ams_err, del_not_response.payload_bytes())),
            r is Ok ==> final(self)@ == unsubscribe_spec(old(self)@, handle),
            r is Err ==> final(self)@ == old(self)@,
    {
        eval_reply(del_not_response)?;
        self.remove(handle);
        Ok(())
    }
}

impl<T: Clone> NotificationTable<T> {
    /// Pairs each sample that a subscription waits for with a clone of its
    /// subscriber, in frame order; samples for unknown handles are dropped.
    /// The result owns everything it holds, so the table can be released
    /// before any subscriber runs.
    pub fn deliveries(&self, samples: &Vec<NotificationData>) -> (r: Vec<(T, NotificationData)>)
        ensures
            r@.map_values(|d: (T, NotificationData)| sample_view(d.1)) == subscribed_samples(
                self@,
                samples@.map_values(|x: NotificationData| sample_view(x)),
            ),
    {
        let ghost sv = samples@.map_values(|x: NotificationData| sample_view(x));
        let ghost pred = |x: SampleSpec| sub_index(self@, x.not_hdl) >= 0;
        let mut out: Vec<(T, NotificationData)> = Vec::new();
        let mut i: usize = 0;
        while i < samples.len()
            invariant
                i <= samples@.len(),
                sv == samples@.map_values(|x: NotificationData| sample_view(x)),
                pred == (|x: SampleSpec| sub_index(self@, x.not_hdl) >= 0),
                out@.map_values(|d: (T, NotificationData)| sample_view(d.1)) == sv.subrange(0, i as int).filter(pred),
            decreases samples@.len() - i,
        {
            let ghost prev = out@.map_values(|d: (T, NotificationData)| sample_view(d.1));
            assert(sv.subrange(0, i + 1).drop_last() =~= sv.subrange(0, i as int));
            assert(sv.subrange(0, i + 1).last() == sv[i as int]);
            reveal(Seq::filter);
            let x = &samples[i];
            match self.lookup(x.not_hdl) {
                Some(sub) => {
                    let copy = NotificationData { not_hdl: x.not_hdl, timestamp: x.timestamp, payload: x.payload.clone() };
                    out.push((sub.clone(), copy));
                    assert(out@.map_values(|d: (T, NotificationData)| sample_view(d.1)) =~= prev.push(sv[i as int]));
                },
                None => {},
            }
            i = i + 1;
        }
        assert(sv.subrange(0, i as int) =~= sv);
        out
    }

    /// Decodes a device-notification payload and pairs its samples with
    /// their subscribers. A malformed frame delivers nothing.
    pub fn process_device_notification(&self, data: &Bytes) -> (r: Vec<(T, NotificationData)>)
        ensures
            match notification_samples(bytes_content(*data)) {
                None => r@.len() == 0,
                Some(s) => r@.map_values(|d: (T, NotificationData)| sample_view(d.1)) == subscribed_samples(self@, s),
            },
    {
        match parse_notification(data) {
            Some(samples) => self.deliveries(&samples),
            None => Vec::new(),
        }
    }
}

} // verus!
