//! The record a probe publishes to see whether a relay passes messages on: a
//! fixed push document whose two lines carry the time of publication.

use vstd::prelude::*;
use vstd::string::StringSliceAdditionalSpecFns;

verus! {

/// The decimal digits of `value` as ASCII, most significant first, without
/// leading zeros.
pub open spec fn decimal_digits(value: nat) -> Seq<u8>
    decreases value,
{
    if value < 10 {
        seq![(48 + value) as u8]
    } else {
        decimal_digits(value / 10).push((48 + value % 10) as u8)
    }
}

/// The document up to the first timestamp.
pub const PROBE_HEAD: &'static str =
    "{\n  \"streams\": [\n    {\n      \"stream\": {\n        \"hostname\": \"zoomer\
    \",\n        \"hw_id\": \"f4:5c:89:c2:a6:07\",\n        \"sw_version\": \"v2.3.5\
    \",\n        \"level\": \"info\"\n      },\n      \"values\": [\n        [\n          \
    \"";

/// The document between the two timestamps.
pub const PROBE_MIDDLE: &'static str =
    "\",\n          \"2024-08-22T13:00:00Z [INFO] - collected data\
    \"\n        ],\n        [\n          \"";

/// The document after the second timestamp.
pub const PROBE_TAIL: &'static str =
    "\",\n          \"2024-08-22T13:00:00Z [INFO] - conditions nominal\
    \"\n        ]\n      ]\n    }\n  ]\n}";

/// The probe's document for a publication at `nanos` nanoseconds since the
/// epoch.
pub open spec fn probe_document(nanos: nat) -> Seq<u8> {
    PROBE_HEAD.spec_bytes() + decimal_digits(nanos) + PROBE_MIDDLE.spec_bytes() + decimal_digits(
        nanos,
    ) + PROBE_TAIL.spec_bytes()
}

/// Adds `bytes` at the end of `out`.
fn append(out: &mut Vec<u8>, bytes: &[u8])
    ensures
        final(out)@ == old(out)@ + bytes@,
{
    let mut at: usize = 0;
    while at < bytes.len()
        invariant
            at <= bytes.len(),
            out@ == old(out)@ + bytes@.take(at as int),
        decreases bytes.len() - at,
    {
        out.push(bytes[at]);
        at = at + 1;
    }
}

/// The decimal digits of `value` as ASCII.
pub fn decimal(value: u128) -> (digits: Vec<u8>)
    ensures
        digits@ == decimal_digits(value as nat),
{
    let mut backwards: Vec<u8> = Vec::new();
    let mut rest = value;
    while rest >= 10
        invariant
            decimal_digits(value as nat) == decimal_digits(rest as nat) + backwards@.reverse(),
        decreases rest,
    {
        let digit = (48 + rest % 10) as u8;
        let ghost before = backwards@;
        backwards.push(digit);
        assert(decimal_digits((rest / 10) as nat).push(digit) + before.reverse()
            =~= decimal_digits((rest / 10) as nat) + (seq![digit] + before.reverse()));
        rest = rest / 10;
    }
    backwards.push((48 + rest) as u8);
    let mut digits: Vec<u8> = Vec::new();
    let mut left = backwards.len();
    while left > 0
        invariant
            left <= backwards.len(),
            digits@ == backwards@.reverse().take(backwards.len() - left),
        decreases left,
    {
        left = left - 1;
        digits.push(backwards[left]);
    }
    digits
}

/// The probe's document for a publication at `nanos` nanoseconds since the
/// epoch.
pub fn probe_payload(nanos: u128) -> (payload: Vec<u8>)
    ensures
        payload@ == probe_document(nanos as nat),
{
    let stamp = decimal(nanos);
    let mut payload: Vec<u8> = Vec::new();
    append(&mut payload, PROBE_HEAD.as_bytes());
    append(&mut payload, stamp.as_slice());
    append(&mut payload, PROBE_MIDDLE.as_bytes());
    append(&mut payload, stamp.as_slice());
    append(&mut payload, PROBE_TAIL.as_bytes());
    payload
}

} // verus!
