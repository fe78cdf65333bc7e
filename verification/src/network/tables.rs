//! The broadcast distribution table and the foreign device table of a
//! BACnet/IP broadcast management device.

use vstd::prelude::*;

use std::time::Instant;

use super::{contains_u16, copy_u16s, NetworkAddress, NetworkError};
use crate::clock::instant_now;

verus! {

/// The abstract content of an address.
pub type AddressView = (u16, Seq<u8>);

/// Whether entry `i` of `addrs` is the first one equal to `a`.
pub open spec fn first_at(addrs: Seq<AddressView>, a: AddressView, i: int) -> bool {
    &&& 0 <= i < addrs.len()
    &&& addrs[i] == a
    &&& forall|j: int| 0 <= j < i ==> addrs[j] != a
}

/// Whether no entry of `addrs` equals `a`.
pub open spec fn absent(addrs: Seq<AddressView>, a: AddressView) -> bool {
    forall|j: int| 0 <= j < addrs.len() ==> addrs[j] != a
}

/// A broadcast distribution table entry: the networks it serves, the
/// address broadcasts go to, and whether it is in use.
#[derive(Debug, Clone)]
pub struct BdtEntry {
    pub networks: Vec<u16>,
    pub address: NetworkAddress,
    pub valid: bool,
}

/// The abstract content of a BDT entry.
pub type BdtEntryView = (Seq<u16>, AddressView, bool);

impl View for BdtEntry {
    type V = BdtEntryView;

    open spec fn view(&self) -> BdtEntryView {
        (self.networks@, self.address@, self.valid)
    }
}

/// The views of a sequence of BDT entries.
pub open spec fn bdt_view(s: Seq<BdtEntry>) -> Seq<BdtEntryView> {
    s.map_values(|e: BdtEntry| e@)
}

/// The addresses of a sequence of BDT entries.
pub open spec fn bdt_addresses(s: Seq<BdtEntryView>) -> Seq<AddressView> {
    s.map_values(|e: BdtEntryView| e.1)
}

/// The addresses, in table order, of the valid entries that serve `network`.
pub open spec fn broadcast_targets(s: Seq<BdtEntryView>, network: u16) -> Seq<AddressView>
    decreases s.len(),
{
    if s.len() == 0 {
        Seq::empty()
    } else {
        let rest = broadcast_targets(s.drop_last(), network);
        if s.last().2 && s.last().0.contains(network) {
            rest.push(s.last().1)
        } else {
            rest
        }
    }
}

/// `s` without the entries whose address is `a`, in order.
pub open spec fn bdt_without(s: Seq<BdtEntryView>, a: AddressView) -> Seq<BdtEntryView>
    decreases s.len(),
{
    if s.len() == 0 {
        Seq::empty()
    } else {
        let rest = bdt_without(s.drop_last(), a);
        if s.last().1 == a {
            rest
        } else {
            rest.push(s.last())
        }
    }
}

/// A broadcast distribution table with room for a fixed number of entries.
#[derive(Debug)]
pub struct BroadcastDistributionTable {
    entries: Vec<BdtEntry>,
    max_entries: usize,
}

impl BroadcastDistributionTable {
    /// The entries, in order.
    pub closed spec fn spec_entries(&self) -> Seq<BdtEntryView> {
        bdt_view(self.entries@)
    }

    /// The number of entries the table has room for.
    pub closed spec fn spec_max_entries(&self) -> nat {
        self.max_entries as nat
    }

    /// An empty table with room for `max_entries` entries.
    pub fn new(max_entries: usize) -> (r: Self)
        ensures
            r.spec_entries() == Seq::<BdtEntryView>::empty(),
            r.spec_max_entries() == max_entries,
    {
        let r = BroadcastDistributionTable { entries: Vec::new(), max_entries };
        assert(r.spec_entries() =~= Seq::<BdtEntryView>::empty());
        r
    }

    /// Put `entry` in the place of the first entry with its address; else
    /// add it at the end if there is room; else `InvalidNpdu("BDT full")`
    /// and nothing changes.
    pub fn update_entry(&mut self, entry: BdtEntry) -> (r: Result<(), NetworkError>)
        ensures
            final(self).spec_max_entries() == old(self).spec_max_entries(),
            forall|i: int| #![trigger first_at(bdt_addresses(old(self).spec_entries()), entry.address@, i)]
                first_at(bdt_addresses(old(self).spec_entries()), entry.address@, i) ==> {
                &&& r is Ok
                &&& final(self).spec_entries() == old(self).spec_entries().update(i, entry@)
            },
            absent(bdt_addresses(old(self).spec_entries()), entry.address@) ==> if old(self).spec_entries().len()
                < old(self).spec_max_entries() {
                &&& r is Ok
                &&& final(self).spec_entries() == old(self).spec_entries().push(entry@)
            } else {
                &&& (r matches Err(NetworkError::InvalidNpdu(s)) && s@ == "BDT full"@)
                &&& final(self).spec_entries() == old(self).spec_entries()
            },
    {
        let ghost old_addrs = bdt_addresses(bdt_view(self.entries@));
        let mut i: usize = 0;
        while i < self.entries.len()
            invariant
                self.entries@ == old(self).entries@,
                self.max_entries == old(self).max_entries,
                old_addrs == bdt_addresses(bdt_view(self.entries@)),
                i <= self.entries@.len(),
                forall|j: int| 0 <= j < i ==> old_addrs[j] != entry.address@,
            decreases self.entries@.len() - i,
        {
            if self.entries[i].address.same_as(&entry.address) {
                let ghost ev = entry@;
                self.entries.set(i, entry);
                proof {
                    assert(first_at(old_addrs, ev.1, i as int));
                    assert forall|k: int| first_at(old_addrs, ev.1, k) implies k == i as int by {
                        if k < i as int {
                        } else if k > i as int {
                            assert(old_addrs[i as int] == ev.1);
                        }
                    }
                    assert(bdt_view(self.entries@) =~= bdt_view(old(self).entries@).update(i as int, ev));
                }
                return Ok(());
            }
            i = i + 1;
        }
        assert(absent(old_addrs, entry.address@));
        assert(forall|k: int| !first_at(old_addrs, entry.address@, k));
        if self.entries.len() < self.max_entries {
            let ghost ev = entry@;
            self.entries.push(entry);
            assert(bdt_view(self.entries@) =~= bdt_view(old(self).entries@).push(ev));
            Ok(())
        } else {
            Err(NetworkError::InvalidNpdu("BDT full".to_string()))
        }
    }

    /// Remove every entry with `address`.
    pub fn remove_entry(&mut self, address: &NetworkAddress)
        ensures
            final(self).spec_entries() == bdt_without(old(self).spec_entries(), address@),
            final(self).spec_max_entries() == old(self).spec_max_entries(),
    {
        let ghost s = bdt_view(self.entries@);
        let mut kept: Vec<BdtEntry> = Vec::new();
        let mut rest: Vec<BdtEntry> = Vec::new();
        std::mem::swap(&mut rest, &mut self.entries);
        let ghost orig = rest@;
        let n: usize = rest.len();
        let mut i: usize = 0;
        while rest.len() > 0
            invariant
                n == orig.len(),
                i + rest@.len() == orig.len(),
                rest@ == orig.subrange(i as int, orig.len() as int),
                s == bdt_view(orig),
                bdt_view(kept@) == bdt_without(s.take(i as int), address@),
            decreases rest@.len(),
        {
            let e = rest.remove(0);
            proof {
                assert(e == orig[i as int]);
                assert(s.take(i as int + 1).drop_last() =~= s.take(i as int));
                assert(s.take(i as int + 1).last() == e@);
            }
            if !e.address.same_as(address) {
                kept.push(e);
                assert(bdt_view(kept@) =~= bdt_without(s.take(i as int), address@).push(e@));
            }
            i = i + 1;
            assert(rest@ =~= orig.subrange(i as int, orig.len() as int));
        }
        assert(s.take(i as int) =~= s);
        self.entries = kept;
    }

    /// The addresses, in table order, of the valid entries that serve
    /// `network`.
    pub fn get_broadcast_addresses(&self, network: u16) -> (r: Vec<NetworkAddress>)
        ensures
            r@.map_values(|a: NetworkAddress| a@) == broadcast_targets(self.spec_entries(), network),
    {
        let ghost s = self.spec_entries();
        let mut out: Vec<NetworkAddress> = Vec::new();
        let mut i: usize = 0;
        while i < self.entries.len()
            invariant
                s == bdt_view(self.entries@),
                i <= self.entries@.len(),
                out@.map_values(|a: NetworkAddress| a@) == broadcast_targets(s.take(i as int), network),
            decreases self.entries@.len() - i,
        {
            let e = &self.entries[i];
            proof {
                assert(s.take(i as int + 1).drop_last() =~= s.take(i as int));
                assert(s.take(i as int + 1).last() == e@);
            }
            if e.valid && contains_u16(&e.networks, network) {
                let a = e.address.duplicate();
                let ghost before = out@;
                out.push(a);
                assert(out@.map_values(|a: NetworkAddress| a@) =~= before.map_values(|a: NetworkAddress| a@).push(
                    e.address@,
                ));
            }
            i = i + 1;
        }
        assert(s.take(i as int) =~= s);
        out
    }

    /// Remove every entry.
    pub fn clear(&mut self)
        ensures
            final(self).spec_entries() == Seq::<BdtEntryView>::empty(),
            final(self).spec_max_entries() == old(self).spec_max_entries(),
    {
        self.entries.clear();
        assert(bdt_view(self.entries@) =~= Seq::<BdtEntryView>::empty());
    }

    /// The entries, in order.
    pub fn entries(&self) -> (r: &Vec<BdtEntry>)
        ensures
            bdt_view(r@) == self.spec_entries(),
    {
        &self.entries
    }
}

/// A new BDT entry.
pub fn bdt_entry(networks: &Vec<u16>, address: NetworkAddress, valid: bool) -> (r: BdtEntry)
    ensures
        r@ == (networks@, address@, valid),
{
    BdtEntry { networks: copy_u16s(networks), address, valid }
}

/// A foreign device table entry: the device's address, the time to live it
/// registered with, the seconds left, and when it registered.
#[derive(Debug)]
pub struct FdtEntry {
    pub address: NetworkAddress,
    pub ttl: u16,
    pub remaining_time: u16,
    pub registered_at: Instant,
}

/// The abstract content of an FDT entry (its registration instant aside).
pub type FdtEntryView = (AddressView, u16, u16);

impl View for FdtEntry {
    type V = FdtEntryView;

    open spec fn view(&self) -> FdtEntryView {
        (self.address@, self.ttl, self.remaining_time)
    }
}

/// The views of a sequence of FDT entries.
pub open spec fn fdt_view(s: Seq<FdtEntry>) -> Seq<FdtEntryView> {
    s.map_values(|e: FdtEntry| e@)
}

/// The addresses of a sequence of FDT entries.
pub open spec fn fdt_addresses(s: Seq<FdtEntryView>) -> Seq<AddressView> {
    s.map_values(|e: FdtEntryView| e.0)
}

/// `s` without the entries whose address is `a`, in order.
pub open spec fn fdt_without(s: Seq<FdtEntryView>, a: AddressView) -> Seq<FdtEntryView>
    decreases s.len(),
{
    if s.len() == 0 {
        Seq::empty()
    } else {
        let rest = fdt_without(s.drop_last(), a);
        if s.last().0 == a {
            rest
        } else {
            rest.push(s.last())
        }
    }
}

/// `s` after `elapsed` seconds: the entries with more than `elapsed`
/// seconds left keep their place with `elapsed` fewer; the others leave.
pub open spec fn fdt_aged(s: Seq<FdtEntryView>, elapsed: u16) -> Seq<FdtEntryView>
    decreases s.len(),
{
    if s.len() == 0 {
        Seq::empty()
    } else {
        let rest = fdt_aged(s.drop_last(), elapsed);
        let e = s.last();
        if e.2 > elapsed {
            rest.push((e.0, e.1, (e.2 - elapsed) as u16))
        } else {
            rest
        }
    }
}

/// A foreign device table with room for a fixed number of devices.
#[derive(Debug)]
pub struct ForeignDeviceTable {
    entries: Vec<FdtEntry>,
    max_entries: usize,
}

impl ForeignDeviceTable {
    /// The entries, in order.
    pub closed spec fn spec_entries(&self) -> Seq<FdtEntryView> {
        fdt_view(self.entries@)
    }

    /// The number of devices the table has room for.
    pub closed spec fn spec_max_entries(&self) -> nat {
        self.max_entries as nat
    }

    /// An empty table with room for `max_entries` devices.
    pub fn new(max_entries: usize) -> (r: Self)
        ensures
            r.spec_entries() == Seq::<FdtEntryView>::empty(),
            r.spec_max_entries() == max_entries,
    {
        let r = ForeignDeviceTable { entries: Vec::new(), max_entries };
        assert(r.spec_entries() =~= Seq::<FdtEntryView>::empty());
        r
    }

    /// Register a device for `ttl` seconds: a device already in the table
    /// (its first entry) starts over with the new time to live; a new one
    /// is added at the end if there is room; else `InvalidNpdu("FDT full")`
    /// and nothing changes.
    pub fn register(&mut self, address: NetworkAddress, ttl: u16) -> (r: Result<(), NetworkError>)
        ensures
            final(self).spec_max_entries() == old(self).spec_max_entries(),
            r is Ok ==> final(self).spec_entries().contains((address@, ttl, ttl)),
            forall|i: int| #![trigger first_at(fdt_addresses(old(self).spec_entries()), address@, i)]
                first_at(fdt_addresses(old(self).spec_entries()), address@, i) ==> {
                &&& r is Ok
                &&& final(self).spec_entries() == old(self).spec_entries().update(i, (address@, ttl, ttl))
            },
            absent(fdt_addresses(old(self).spec_entries()), address@) ==> if old(self).spec_entries().len()
                < old(self).spec_max_entries() {
                &&& r is Ok
                &&& final(self).spec_entries() == old(self).spec_entries().push((address@, ttl, ttl))
            } else {
                &&& (r matches Err(NetworkError::InvalidNpdu(s)) && s@ == "FDT full"@)
                &&& final(self).spec_entries() == old(self).spec_entries()
            },
    {
        let ghost old_addrs = fdt_addresses(fdt_view(self.entries@));
        let mut i: usize = 0;
        while i < self.entries.len()
            invariant
                self.entries@ == old(self).entries@,
                self.max_entries == old(self).max_entries,
                old_addrs == fdt_addresses(fdt_view(self.entries@)),
                i <= self.entries@.len(),
                forall|j: int| 0 <= j < i ==> old_addrs[j] != address@,
            decreases self.entries@.len() - i,
        {
            if self.entries[i].address.same_as(&address) {
                let now = instant_now();
                let ghost av = address@;
                let updated = FdtEntry { address, ttl, remaining_time: ttl, registered_at: now };
                self.entries.set(i, updated);
                proof {
                    assert(first_at(old_addrs, av, i as int));
                    assert forall|k: int| first_at(old_addrs, av, k) implies k == i as int by {
                        if k > i as int {
                            assert(old_addrs[i as int] == av);
                        }
                    }
                    assert(fdt_view(self.entries@) =~= fdt_view(old(self).entries@).update(i as int, (av, ttl, ttl)));
                    assert(fdt_view(self.entries@)[i as int] == (av, ttl, ttl));
                }
                return Ok(());
            }
            i = i + 1;
        }
        assert(absent(old_addrs, address@));
        assert(forall|k: int| !first_at(old_addrs, address@, k));
        if self.entries.len() < self.max_entries {
            let ghost av = address@;
            let now = instant_now();
            self.entries.push(FdtEntry { address, ttl, remaining_time: ttl, registered_at: now });
            assert(fdt_view(self.entries@) =~= fdt_view(old(self).entries@).push((av, ttl, ttl)));
            assert(fdt_view(self.entries@)[old(self).entries@.len() as int] == (av, ttl, ttl));
            Ok(())
        } else {
            Err(NetworkError::InvalidNpdu("FDT full".to_string()))
        }
    }

    /// Remove every entry of the device at `address`.
    pub fn delete(&mut self, address: &NetworkAddress) -> (r: Result<(), NetworkError>)
        ensures
            r is Ok,
            final(self).spec_entries() == fdt_without(old(self).spec_entries(), address@),
            final(self).spec_max_entries() == old(self).spec_max_entries(),
    {
        let ghost s = fdt_view(self.entries@);
        let mut kept: Vec<FdtEntry> = Vec::new();
        let mut rest: Vec<FdtEntry> = Vec::new();
        std::mem::swap(&mut rest, &mut self.entries);
        let ghost orig = rest@;
        let n: usize = rest.len();
        let mut i: usize = 0;
        while rest.len() > 0
            invariant
                n == orig.len(),
                i + rest@.len() == orig.len(),
                rest@ == orig.subrange(i as int, orig.len() as int),
                s == fdt_view(orig),
                fdt_view(kept@) == fdt_without(s.take(i as int), address@),
            decreases rest@.len(),
        {
            let e = rest.remove(0);
            proof {
                assert(e == orig[i as int]);
                assert(s.take(i as int + 1).drop_last() =~= s.take(i as int));
                assert(s.take(i as int + 1).last() == e@);
            }
            if !e.address.same_as(address) {
                kept.push(e);
                assert(fdt_view(kept@) =~= fdt_without(s.take(i as int), address@).push(e@));
            }
            i = i + 1;
            assert(rest@ =~= orig.subrange(i as int, orig.len() as int));
        }
        assert(s.take(i as int) =~= s);
        self.entries = kept;
        Ok(())
    }

    /// Count `elapsed_seconds` off every entry; entries with no more time
    /// than that leave the table.
    pub fn update_times(&mut self, elapsed_seconds: u16)
        ensures
            final(self).spec_entries() == fdt_aged(old(self).spec_entries(), elapsed_seconds),
            final(self).spec_max_entries() == old(self).spec_max_entries(),
    {
        let ghost s = fdt_view(self.entries@);
        let mut kept: Vec<FdtEntry> = Vec::new();
        let mut rest: Vec<FdtEntry> = Vec::new();
        std::mem::swap(&mut rest, &mut self.entries);
        let ghost orig = rest@;
        let n: usize = rest.len();
        let mut i: usize = 0;
        while rest.len() > 0
            invariant
                n == orig.len(),
                i + rest@.len() == orig.len(),
                rest@ == orig.subrange(i as int, orig.len() as int),
                s == fdt_view(orig),
                fdt_view(kept@) == fdt_aged(s.take(i as int), elapsed_seconds),
            decreases rest@.len(),
        {
            let mut e = rest.remove(0);
            proof {
                assert(e == orig[i as int]);
                assert(s.take(i as int + 1).drop_last() =~= s.take(i as int));
                assert(s.take(i as int + 1).last() == e@);
            }
            if e.remaining_time > elapsed_seconds {
                let ghost ev = e@;
                e.remaining_time = e.remaining_time - elapsed_seconds;
                kept.push(e);
                assert(fdt_view(kept@) =~= fdt_aged(s.take(i as int), elapsed_seconds).push(
                    (ev.0, ev.1, (ev.2 - elapsed_seconds) as u16),
                ));
            }
            i = i + 1;
            assert(rest@ =~= orig.subrange(i as int, orig.len() as int));
        }
        assert(s.take(i as int) =~= s);
        self.entries = kept;
    }

    /// The addresses of the registered devices, in table order.
    pub fn get_active_devices(&self) -> (r: Vec<NetworkAddress>)
        ensures
            r@.map_values(|a: NetworkAddress| a@) == fdt_addresses(self.spec_entries()),
    {
        let ghost s = self.spec_entries();
        let mut out: Vec<NetworkAddress> = Vec::new();
        let mut i: usize = 0;
        while i < self.entries.len()
            invariant
                s == fdt_view(self.entries@),
                i <= self.entries@.len(),
                out@.map_values(|a: NetworkAddress| a@) == fdt_addresses(s.take(i as int)),
            decreases self.entries@.len() - i,
        {
            let a = self.entries[i].address.duplicate();
            let ghost before = out@;
            out.push(a);
            proof {
                assert(s.take(i as int + 1) =~= s.take(i as int).push(s[i as int]));
                assert(s[i as int] == self.entries@[i as int]@);
                assert(fdt_addresses(s.take(i as int + 1)) =~= fdt_addresses(s.take(i as int)).push(s[i as int].0));
                assert(out@.map_values(|a: NetworkAddress| a@) =~= before.map_values(|a: NetworkAddress| a@).push(a@));
            }
            i = i + 1;
        }
        assert(s.take(i as int) =~= s);
        out
    }

    /// Whether the device at `address` is registered.
    pub fn is_registered(&self, address: &NetworkAddress) -> (r: bool)
        ensures
            r <==> fdt_addresses(self.spec_entries()).contains(address@),
    {
        let ghost addrs = fdt_addresses(self.spec_entries());
        let mut i: usize = 0;
        while i < self.entries.len()
            invariant
                addrs == fdt_addresses(fdt_view(self.entries@)),
                i <= self.entries@.len(),
                forall|j: int| 0 <= j < i ==> addrs[j] != address@,
            decreases self.entries@.len() - i,
        {
            if self.entries[i].address.same_as(address) {
                assert(addrs[i as int] == address@);
                return true;
            }
            i = i + 1;
        }
        false
    }

    /// The entries, in order.
    pub fn entries(&self) -> (r: &Vec<FdtEntry>)
        ensures
            fdt_view(r@) == self.spec_entries(),
    {
        &self.entries
    }
}

/// After a device is deleted no entry of the table has its address.
pub proof fn lemma_deleted_device_absent(s: Seq<FdtEntryView>, a: AddressView)
    ensures
        !fdt_addresses(fdt_without(s, a)).contains(a),
    decreases s.len(),
{
    if s.len() > 0 {
        lemma_deleted_device_absent(s.drop_last(), a);
        let rest = fdt_without(s.drop_last(), a);
        if s.last().0 != a {
            assert(fdt_addresses(rest.push(s.last())) =~= fdt_addresses(rest).push(s.last().0));
        }
    }
}

/// After a BDT entry is removed no entry of the table has its address.
pub proof fn lemma_removed_entry_absent(s: Seq<BdtEntryView>, a: AddressView)
    ensures
        !bdt_addresses(bdt_without(s, a)).contains(a),
    decreases s.len(),
{
    if s.len() > 0 {
        lemma_removed_entry_absent(s.drop_last(), a);
        let rest = bdt_without(s.drop_last(), a);
        if s.last().1 != a {
            assert(bdt_addresses(rest.push(s.last())) =~= bdt_addresses(rest).push(s.last().1));
        }
    }
}

/// Counting time off the table never adds an entry, and every entry left
/// has some time left.
pub proof fn lemma_aged_entries_have_time_left(s: Seq<FdtEntryView>, elapsed: u16)
    ensures
        fdt_aged(s, elapsed).len() <= s.len(),
        forall|i: int| 0 <= i < fdt_aged(s, elapsed).len() ==> #[trigger] fdt_aged(s, elapsed)[i].2 > 0,
    decreases s.len(),
{
    if s.len() > 0 {
        lemma_aged_entries_have_time_left(s.drop_last(), elapsed);
    }
}

} // verus!
