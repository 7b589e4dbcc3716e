//! The discovery scanner's decisions: which addresses of an unknown device to
//! probe, and what to surface when a probe comes back.  The scanner is an
//! operator diagnostic: zero and negative readings are recorded but never
//! surfaced.

use crate::structs::{GrowattModel, Point};
use std::collections::HashMap;
use vstd::prelude::*;

verus! {

broadcast use vstd::std_specs::hash::group_hash_axioms;

/// The register addresses known to bounce (noisy, non-informative): the
/// scanner never probes them.
pub open spec fn spec_bouncer_addresses() -> Seq<u16> {
    seq![0xbc as u16, 0xd8 as u16, 0x1b3 as u16, 0xea as u16]
}

pub fn bouncer_addresses() -> (v: Vec<u16>)
    ensures
        v@ == spec_bouncer_addresses(),
{
    let mut v: Vec<u16> = Vec::new();
    v.push(0xbc);
    v.push(0xd8);
    v.push(0x1b3);
    v.push(0xea);
    proof {
        assert(v@ =~= spec_bouncer_addresses());
    }
    v
}

/// The skip-set of a scan: every address the register model already claims,
/// then the bouncing addresses.
pub open spec fn spec_skip_set(points: Seq<Point>) -> Seq<u16> {
    points.map(|i: int, p: Point| p.address) + spec_bouncer_addresses()
}

pub fn build_skip_set(model: &GrowattModel) -> (skip: Vec<u16>)
    ensures
        skip@ == spec_skip_set(model.0.points@),
{
    let points = model.get_points();
    let mut skip: Vec<u16> = Vec::new();
    let mut i: usize = 0;
    while i < points.len()
        invariant
            i <= points@.len(),
            skip@.len() == i,
            forall|j: int| 0 <= j < i ==> #[trigger] skip@[j] == points@[j].address,
        decreases points@.len() - i,
    {
        skip.push(points[i].address);
        i += 1;
    }
    let mut bouncers = bouncer_addresses();
    skip.append(&mut bouncers);
    proof {
        assert(skip@ =~= spec_skip_set(model.0.points@));
    }
    skip
}

/// Whether the scanner should probe `addr`: not when the skip-set claims it,
/// and not when the last recorded observation for it is exactly zero.
pub open spec fn spec_should_read(snapshot: Map<u16, i16>, skip: Seq<u16>, addr: u16) -> bool {
    !skip.contains(addr) && !(snapshot.contains_key(addr) && snapshot[addr] == 0)
}

/// The outcome of recording one probed value.
#[derive(Debug, Clone, Copy, PartialEq, Eq, Structural)]
pub enum ScanReport {
    /// Nothing to surface: the value is not positive, or it is unchanged.
    Silent,
    /// A first positive observation at this address.
    New(i16),
    /// A positive observation differing from the previous one (old, new).
    Changed(i16, i16),
}

/// What recording `v` at `addr` surfaces, given the previous observations.
pub open spec fn spec_report(m: Map<u16, i16>, addr: u16, v: i16) -> ScanReport {
    if v > 0 {
        if m.contains_key(addr) {
            if m[addr] == v {
                ScanReport::Silent
            } else {
                ScanReport::Changed(m[addr], v)
            }
        } else {
            ScanReport::New(v)
        }
    } else {
        ScanReport::Silent
    }
}

/// The scanner's memory: address by address, the last observed signed value.
/// Mutated on every recorded probe; discarded at process exit.
pub struct DiscoverySnapshot {
    map: HashMap<u16, i16>,
}

impl View for DiscoverySnapshot {
    type V = Map<u16, i16>;

    closed spec fn view(&self) -> Map<u16, i16> {
        self.map@
    }
}

impl DiscoverySnapshot {
    /// A fresh scan remembers nothing.
    pub fn new() -> (s: Self)
        ensures
            s@ == Map::<u16, i16>::empty(),
    {
        DiscoverySnapshot { map: HashMap::new() }
    }

    /// Decide whether to probe `addr` on this pass.
    pub fn should_read(&self, skip: &Vec<u16>, addr: u16) -> (b: bool)
        ensures
            b == spec_should_read(self@, skip@, addr),
    {
        if contains_addr(skip, addr) {
            return false;
        }
        match self.map.get(&addr) {
            Option::Some(prev) => *prev != 0,
            Option::None => true,
        }
    }

    /// Record one probed value.  The snapshot is always updated, whether or
    /// not anything is surfaced; only a changed or new positive value is.
    pub fn record(&mut self, addr: u16, v: i16) -> (rep: ScanReport)
        ensures
            final (self)@ == old(self)@.insert(addr, v),
            rep == spec_report(old(self)@, addr, v),
    {
        let rep = if v > 0 {
            match self.map.get(&addr) {
                Option::Some(p) => {
                    if *p == v {
                        ScanReport::Silent
                    } else {
                        ScanReport::Changed(*p, v)
                    }
                },
                Option::None => ScanReport::New(v),
            }
        } else {
            ScanReport::Silent
        };
        self.map.insert(addr, v);
        rep
    }
}

fn contains_addr(v: &Vec<u16>, addr: u16) -> (b: bool)
    ensures
        b == v@.contains(addr),
{
    let mut i: usize = 0;
    while i < v.len()
        invariant
            i <= v@.len(),
            forall|j: int| 0 <= j < i ==> v@[j] != addr,
        decreases v@.len() - i,
    {
        if v[i] == addr {
            return true;
        }
        i += 1;
    }
    false
}

/// Law: an address in the skip-set is never probed.
pub proof fn lemma_skip_set_respected(snapshot: Map<u16, i16>, skip: Seq<u16>, addr: u16)
    requires
        skip.contains(addr),
    ensures
        !spec_should_read(snapshot, skip, addr),
{
}

/// Law: an address whose last recorded value is zero is not probed again.
pub proof fn lemma_zero_suppressed(snapshot: Map<u16, i16>, skip: Seq<u16>, addr: u16)
    requires
        snapshot.contains_key(addr),
        snapshot[addr] == 0,
    ensures
        !spec_should_read(snapshot, skip, addr),
{
}

/// Law: recording a non-zero value for an unclaimed address re-enables its
/// probing on the next pass.
pub proof fn lemma_nonzero_reenables(
    snapshot: Map<u16, i16>,
    skip: Seq<u16>,
    addr: u16,
    v: i16,
)
    requires
        v != 0,
        !skip.contains(addr),
    ensures
        spec_should_read(snapshot.insert(addr, v), skip, addr),
{
}

} // verus!
