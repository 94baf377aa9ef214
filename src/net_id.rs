use crate::error::{AdsError, ERR_INTERNAL};
use crate::frame::AmsNetId;
use vstd::prelude::*;
use vstd::string::StringSliceAdditionalSpecFns;

verus! {

/// The index of the first `.` of `s` at or after `i`, or `s.len()`.
pub open spec fn dot_index(s: Seq<u8>, i: int) -> int
    decreases s.len() - i,
{
    if i >= s.len() {
        s.len() as int
    } else if s[i] == 0x2E {
        i
    } else {
        dot_index(s, i + 1)
    }
}

/// The fields of `s[i..]` between dots.
pub open spec fn fields_from(s: Seq<u8>, i: int) -> Seq<Seq<u8>>
    decreases s.len() - i,
{
    if i < 0 || i > s.len() || dot_index(s, i) < i {
        Seq::empty()
    } else if dot_index(s, i) >= s.len() {
        seq![s.subrange(i, s.len() as int)]
    } else {
        seq![s.subrange(i, dot_index(s, i))] + fields_from(s, dot_index(s, i) + 1)
    }
}

pub open spec fn is_digit(b: u8) -> bool {
    0x30 <= b <= 0x39
}

/// The number that the decimal digits `s` spell.
pub open spec fn digits_value(s: Seq<u8>) -> int
    decreases s.len(),
{
    if s.len() == 0 {
        0
    } else {
        digits_value(s.drop_last()) * 10 + (s.last() - 0x30)
    }
}

/// The digits of a field: without the one `+` that may lead it.
pub open spec fn field_digits(f: Seq<u8>) -> Seq<u8> {
    if f.len() > 0 && f[0] == 0x2B {
        f.drop_first()
    } else {
        f
    }
}

/// The byte that a field spells: one or more decimal digits, optionally led
/// by `+`, worth at most 255.
pub open spec fn field_value(f: Seq<u8>) -> Option<u8> {
    let d = field_digits(f);
    if d.len() > 0 && (forall|k: int| 0 <= k < d.len() ==> is_digit(d[k])) && digits_value(d) <= 255 {
        Some(digits_value(d) as u8)
    } else {
        None
    }
}

/// The NetId that the dotted text `s` spells: exactly six fields, each a
/// byte.
pub open spec fn net_id_of(s: Seq<u8>) -> Option<Seq<u8>> {
    let f = fields_from(s, 0);
    if f.len() == 6 && (forall|k: int| 0 <= k < 6 ==> (#[trigger] field_value(f[k])) is Some) {
        Some(Seq::new(6, |k: int| field_value(f[k])->0))
    } else {
        None
    }
}

/// The index of the first `.` of `s` at or after `start`, or its length.
fn find_dot(s: &[u8], start: usize) -> (r: usize)
    requires
        start <= s@.len(),
    ensures
        r == dot_index(s@, start as int),
        start <= r <= s@.len(),
{
    let mut i = start;
    while i < s.len() && s[i] != 0x2E
        invariant
            start <= i <= s@.len(),
            dot_index(s@, start as int) == dot_index(s@, i as int),
        decreases s@.len() - i,
    {
        i = i + 1;
    }
    i
}

/// The byte that the field `s[start..end]` spells, if any.
fn parse_field(s: &[u8], start: usize, end: usize) -> (r: Option<u8>)
    requires
        start <= end <= s@.len(),
    ensures
        r == field_value(s@.subrange(start as int, end as int)),
{
    let ghost f = s@.subrange(start as int, end as int);
    let mut first = start;
    if end - start > 0 && s[start] == 0x2B {
        assert(f[0] == s@[start as int]);
        first = start + 1;
    }
    let ghost d = s@.subrange(first as int, end as int);
    assert(d =~= field_digits(f));
    if first == end {
        return None;
    }
    let mut acc: u32 = 0;
    let mut i = first;
    while i < end
        invariant
            first <= i <= end <= s@.len(),
            d == s@.subrange(first as int, end as int),
            d == field_digits(f),
            f == s@.subrange(start as int, end as int),
            forall|k: int| first <= k < i ==> is_digit(s@[k]),
            acc as int == if digits_value(s@.subrange(first as int, i as int)) < 256 {
                digits_value(s@.subrange(first as int, i as int))
            } else {
                256
            },
        decreases end - i,
    {
        if !(0x30 <= s[i] && s[i] <= 0x39) {
            assert(!is_digit(d[i - first]));
            return None;
        }
        assert(s@.subrange(first as int, i + 1).drop_last() =~= s@.subrange(first as int, i as int));
        let next: u32 = acc * 10 + (s[i] - 0x30) as u32;
        acc = if next < 256 { next } else { 256 };
        i = i + 1;
    }
    assert(d =~= s@.subrange(first as int, i as int));
    if acc > 255 {
        None
    } else {
        Some(acc as u8)
    }
}

/// The NetId spelled by the dotted text `addr`, as in `"5.80.201.232.1.1"`.
///
/// Fails with `ERR_INTERNAL` unless the text is exactly six dot-separated
/// decimal bytes.
pub fn parse_net_id(addr: &str) -> (r: Result<AmsNetId, AdsError>)
    ensures
        match net_id_of(addr.spec_bytes()) {
            Some(id) => r matches Ok(a) && a@ == id,
            None => r matches Err(e) && e.n_error == ERR_INTERNAL,
        },
{
    let b = addr.as_bytes();
    let ghost s = b@;
    let mut out: Vec<u8> = Vec::new();
    let ghost mut done: Seq<Seq<u8>> = Seq::empty();
    let mut start: usize = 0;
    loop
        invariant_except_break
            fields_from(s, 0) == done + fields_from(s, start as int),
        invariant
            s == b@,
            s == addr.spec_bytes(),
            start <= s.len(),
            done.len() == out@.len(),
            out@.len() <= 6,
            forall|k: int| 0 <= k < done.len() ==> field_value(done[k]) == Some(out@[k]),
        ensures
            fields_from(s, 0) == done,
        decreases s.len() - start,
    {
        let end = find_dot(b, start);
        let ghost field = s.subrange(start as int, end as int);
        let ghost rest = fields_from(s, start as int);
        assert(rest[0] == field);
        let v = match parse_field(b, start, end) {
            Some(v) => v,
            None => {
                proof {
                    let f = fields_from(s, 0);
                    assert(f[done.len() as int] == field);
                    if f.len() == 6 {
                        assert(field_value(f[done.len() as int]) is None);
                    }
                }
                return Err(AdsError::new(ERR_INTERNAL, "invalid AmsNetId"));
            },
        };
        if out.len() == 6 {
            proof {
                assert(fields_from(s, 0).len() >= 7);
            }
            return Err(AdsError::new(ERR_INTERNAL, "invalid AmsNetId"));
        }
        out.push(v);
        proof {
            done = done.push(field);
        }
        if end == b.len() {
            assert(fields_from(s, 0) =~= done);
            break;
        }
        proof {
            assert(rest =~= seq![field] + fields_from(s, end + 1));
            assert(fields_from(s, 0) =~= done + fields_from(s, end + 1));
        }
        start = end + 1;
    }
    if out.len() != 6 {
        return Err(AdsError::new(ERR_INTERNAL, "invalid AmsNetId"));
    }
    let id: AmsNetId = [out[0], out[1], out[2], out[3], out[4], out[5]];
    proof {
        let f = fields_from(s, 0);
        assert forall|k: int| 0 <= k < 6 implies (#[trigger] field_value(f[k])) is Some by {
            assert(field_value(done[k]) == Some(out@[k]));
        }
        assert(id@ =~= Seq::new(6, |k: int| field_value(f[k])->0));
    }
    Ok(id)
}

} // verus!
