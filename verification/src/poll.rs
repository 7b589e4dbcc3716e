//! The poll loop's computing half: assembling the device identity after the
//! bootstrap reads, and turning each point's register response into its
//! ordered sequence of message pairs.  The reads, the pacing delays and the
//! publishes themselves are I/O and live outside the library.

use crate::decode::{decode, spec_decode};
use crate::payload::{compound_ok, generate_payloads, CompoundPayload, DeviceInfo, ValueType};
use crate::structs::{GrowattModel, Point};
use vstd::prelude::*;

verus! {

/// Assemble the device identity once, after the bootstrap reads: the model
/// doubles as the display name, the serial number is the one stable
/// identifier, and the firmware read fills the software version.
pub fn build_device_info(model: &GrowattModel, sn: &String, fw: &String) -> (d: DeviceInfo)
    ensures
        d.manufacturer@ == model.0.manufacturer@,
        d.model@ == model.0.model@,
        d.name@ == model.0.model@,
        d.sw_version@ == fw@,
        d.identifiers.deep_view() == seq![sn@],
{
    let mut device = DeviceInfo::default();
    device.model = model.get_model().clone();
    device.name = device.model.clone();
    device.manufacturer = model.get_manufacturer().clone();
    device.sw_version = fw.clone();
    let mut ids: Vec<String> = Vec::new();
    ids.push(sn.clone());
    device.identifiers = ids;
    proof {
        assert(device.identifiers.deep_view() =~= seq![sn@]);
    }
    device
}

/// Decode every register word returned for one point and build its message
/// pairs, one per word, in returned-word order.
pub fn point_payloads(device: &DeviceInfo, sn: &String, p: &Point, words: &Vec<u16>) -> (r: Vec<
    CompoundPayload,
>)
    ensures
        r@.len() == words@.len(),
        forall|i: int|
            0 <= i < words@.len() ==> compound_ok(
                #[trigger] r@[i],
                *device,
                sn@,
                *p,
                ValueType::Float(spec_decode(words@[i], p.scale_factor)),
            ),
{
    let mut out: Vec<CompoundPayload> = Vec::new();
    let mut i: usize = 0;
    while i < words.len()
        invariant
            i <= words@.len(),
            out@.len() == i,
            forall|j: int|
                0 <= j < i ==> compound_ok(
                    #[trigger] out@[j],
                    *device,
                    sn@,
                    *p,
                    ValueType::Float(spec_decode(words@[j], p.scale_factor)),
                ),
        decreases words@.len() - i,
    {
        let d = decode(words[i], p.scale_factor);
        let mut payloads = generate_payloads(device, sn.clone(), p, ValueType::Float(d));
        out.append(&mut payloads);
        i += 1;
    }
    out
}

/// How many payloads the first `k` responses contribute to a pass.
pub open spec fn spec_pass_offset(responses: Seq<Vec<u16>>, k: int) -> int
    decreases k,
{
    if k <= 0 {
        0
    } else {
        spec_pass_offset(responses, k - 1) + responses[k - 1]@.len()
    }
}

proof fn lemma_pass_offset_mono(responses: Seq<Vec<u16>>, a: int, b: int)
    requires
        0 <= a <= b,
    ensures
        spec_pass_offset(responses, a) <= spec_pass_offset(responses, b),
    decreases b - a,
{
    if a < b {
        lemma_pass_offset_mono(responses, a, b - 1);
    }
}

/// Whether, in a pass output `out`, the payload for point `k`'s word `j`
/// stands at its place and carries the right decoded value.
pub open spec fn pass_item_ok(
    out: Seq<CompoundPayload>,
    device: DeviceInfo,
    sn: Seq<char>,
    points: Seq<Point>,
    responses: Seq<Vec<u16>>,
    k: int,
    j: int,
) -> bool {
    compound_ok(
        out[spec_pass_offset(responses, k) + j],
        device,
        sn,
        points[k],
        ValueType::Float(spec_decode(responses[k]@[j], points[k].scale_factor)),
    )
}

/// One full poll pass over the register model, given each point's register
/// response.  The output keeps the model's declared order: point `k`'s
/// payloads stand together, after those of every earlier point and before
/// those of every later one, and within a point in returned-word order —
/// publishes are never interleaved across points.
pub fn pass_payloads(
    device: &DeviceInfo,
    sn: &String,
    points: &Vec<Point>,
    responses: &Vec<Vec<u16>>,
) -> (r: Vec<CompoundPayload>)
    requires
        responses@.len() == points@.len(),
    ensures
        r@.len() == spec_pass_offset(responses@, points@.len() as int),
        forall|k: int, j: int|
            0 <= k < points@.len() && 0 <= j < responses@[k]@.len() ==> #[trigger] pass_item_ok(
                r@,
                *device,
                sn@,
                points@,
                responses@,
                k,
                j,
            ),
{
    let mut out: Vec<CompoundPayload> = Vec::new();
    let mut k: usize = 0;
    while k < points.len()
        invariant
            points@.len() == responses@.len(),
            k <= points@.len(),
            out@.len() == spec_pass_offset(responses@, k as int),
            forall|k2: int, j: int|
                0 <= k2 < k && 0 <= j < responses@[k2]@.len() ==> #[trigger] pass_item_ok(
                    out@,
                    *device,
                    sn@,
                    points@,
                    responses@,
                    k2,
                    j,
                ),
        decreases points@.len() - k,
    {
        let ghost prev = out@;
        let mut chunk = point_payloads(device, sn, &points[k], &responses[k]);
        let ghost chunkv = chunk@;
        out.append(&mut chunk);
        proof {
            assert forall|k2: int, j: int|
                0 <= k2 < k + 1 && 0 <= j < responses@[k2]@.len() implies #[trigger] pass_item_ok(
                out@,
                *device,
                sn@,
                points@,
                responses@,
                k2,
                j,
            ) by {
                lemma_pass_offset_mono(responses@, 0, k2);
                if k2 < k {
                    lemma_pass_offset_mono(responses@, k2 + 1, k as int);
                    assert(spec_pass_offset(responses@, k2 + 1) == spec_pass_offset(
                        responses@,
                        k2,
                    ) + responses@[k2]@.len());
                    assert(pass_item_ok(prev, *device, sn@, points@, responses@, k2, j));
                    assert(spec_pass_offset(responses@, k2) + j < prev.len());
                    assert(out@[spec_pass_offset(responses@, k2) + j] == prev[spec_pass_offset(
                        responses@,
                        k2,
                    ) + j]);
                } else {
                    assert(out@[spec_pass_offset(responses@, k2) + j] == chunkv[j]);
                }
            }
        }
        k += 1;
    }
    out
}

} // verus!
