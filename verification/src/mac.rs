//! The hardware-address probe: the vendor prefix of each network adapter
//! against the prefixes that hypervisors give their virtual adapters.

use vstd::prelude::*;
use crate::result::ProbeResult;

verus! {

/// A hardware address: six octets.
pub type HardwareAddress = [u8; 6];

/// A vendor prefix: the first three octets of a hardware address.
pub type VendorPrefix = [u8; 3];

/// The vendor prefix of an address, as a sequence of three octets.
pub open spec fn prefix_of(address: Seq<u8>) -> Seq<u8> {
    address.take(3)
}

/// The addresses of a list, each as its octets.
pub open spec fn addresses_of(list: Seq<HardwareAddress>) -> Seq<Seq<u8>> {
    Seq::new(list.len(), |i: int| list[i]@)
}

/// The octets of an optional list of addresses.
pub open spec fn adapters_of(adapters: Option<&Vec<HardwareAddress>>) -> Option<Seq<Seq<u8>>> {
    match adapters {
        Some(list) => Some(addresses_of(list@)),
        None => None,
    }
}

/// The prefixes of the standard configuration: four of one vendor, one of
/// another.
pub open spec fn hypervisor_prefixes() -> Seq<Seq<u8>> {
    seq![
        seq![0x00u8, 0x05u8, 0x69u8],
        seq![0x00u8, 0x0Cu8, 0x29u8],
        seq![0x00u8, 0x1Cu8, 0x14u8],
        seq![0x00u8, 0x50u8, 0x56u8],
        seq![0x08u8, 0x00u8, 0x27u8],
    ]
}

/// The answer of the hardware-address probe: `Indeterminate` where the
/// adapters could not be listed, `Positive` where the prefix of one address
/// is in `prefixes`, `Negative` where none is.
pub open spec fn mac_verdict(adapters: Option<Seq<Seq<u8>>>, prefixes: Set<Seq<u8>>) -> ProbeResult {
    match adapters {
        None => ProbeResult::Indeterminate,
        Some(list) => ProbeResult::of_flag(
            exists|i: int| 0 <= i < list.len() && prefixes.contains(prefix_of(#[trigger] list[i])),
        ),
    }
}

/// A set of vendor prefixes. The order of the entries and repeated entries
/// have no bearing on what the set holds.
pub struct PrefixSet {
    pub entries: Vec<VendorPrefix>,
}

impl View for PrefixSet {
    type V = Set<Seq<u8>>;

    /// The prefixes in the set.
    open spec fn view(&self) -> Set<Seq<u8>> {
        Set::new(
            |prefix: Seq<u8>|
                exists|i: int| 0 <= i < self.entries@.len() && (#[trigger] self.entries@[i])@ == prefix,
        )
    }
}

/// Whether `address` starts with the three octets of `prefix`.
pub fn has_prefix(address: &HardwareAddress, prefix: &VendorPrefix) -> (r: bool)
    ensures
        r == (prefix_of(address@) == prefix@),
{
    let same = address[0] == prefix[0] && address[1] == prefix[1] && address[2] == prefix[2];
    proof {
        if same {
            assert(prefix_of(address@) =~= prefix@);
        } else {
            assert(prefix_of(address@)[0] == address@[0]);
            assert(prefix_of(address@)[1] == address@[1]);
            assert(prefix_of(address@)[2] == address@[2]);
        }
    }
    same
}

impl PrefixSet {
    /// The octets of the entries, in the order in which they were given.
    pub open spec fn listed(&self) -> Seq<Seq<u8>> {
        Seq::new(self.entries@.len(), |i: int| self.entries@[i]@)
    }

    /// The set holds what its entries list.
    pub proof fn lemma_view_is_listed(&self)
        ensures
            self@ == self.listed().to_set(),
    {
        assert forall|p: Seq<u8>| self@.contains(p) <==> self.listed().to_set().contains(p) by {
            if self@.contains(p) {
                let k = choose|k: int|
                    0 <= k < self.entries@.len() && (#[trigger] self.entries@[k])@ == p;
                assert(self.listed()[k] == p);
            }
            if self.listed().contains(p) {
                let k = choose|k: int| 0 <= k < self.listed().len() && self.listed()[k] == p;
                assert(self.entries@[k]@ == p);
            }
        }
        assert(self@ =~= self.listed().to_set());
    }

    /// The empty set.
    pub fn new() -> (s: PrefixSet)
        ensures
            s@ == Set::<Seq<u8>>::empty(),
            s.listed() == Seq::<Seq<u8>>::empty(),
    {
        let s = PrefixSet { entries: Vec::new() };
        assert(s@ =~= Set::<Seq<u8>>::empty());
        assert(s.listed() =~= Seq::<Seq<u8>>::empty());
        s
    }

    /// Adds a prefix to the set.
    pub fn insert(&mut self, prefix: VendorPrefix)
        ensures
            final(self)@ == old(self)@.insert(prefix@),
            final(self).listed() == old(self).listed().push(prefix@),
    {
        let ghost before = self.entries@;
        self.entries.push(prefix);
        proof {
            assert forall|p: Seq<u8>| self@.contains(p) <==> old(self)@.insert(prefix@).contains(
                p,
            ) by {
                if self@.contains(p) {
                    let k = choose|k: int|
                        0 <= k < self.entries@.len() && (#[trigger] self.entries@[k])@ == p;
                    if k < before.len() {
                        assert(before[k]@ == p);
                    }
                }
                if old(self)@.contains(p) {
                    let k = choose|k: int| 0 <= k < before.len() && (#[trigger] before[k])@ == p;
                    assert(self.entries@[k]@ == p);
                }
                if p == prefix@ {
                    assert(self.entries@[before.len() as int]@ == p);
                }
            }
            assert(self@ =~= old(self)@.insert(prefix@));
            assert(self.listed() =~= old(self).listed().push(prefix@));
        }
    }

    /// The standard configuration.
    pub fn hypervisors() -> (s: PrefixSet)
        ensures
            s.listed() == hypervisor_prefixes(),
            s@ == hypervisor_prefixes().to_set(),
    {
        let mut s = PrefixSet::new();
        s.insert([0x00u8, 0x05u8, 0x69u8]);
        s.insert([0x00u8, 0x0Cu8, 0x29u8]);
        s.insert([0x00u8, 0x1Cu8, 0x14u8]);
        s.insert([0x00u8, 0x50u8, 0x56u8]);
        s.insert([0x08u8, 0x00u8, 0x27u8]);
        proof {
            assert(s.listed()[0] =~= hypervisor_prefixes()[0]);
            assert(s.listed()[1] =~= hypervisor_prefixes()[1]);
            assert(s.listed()[2] =~= hypervisor_prefixes()[2]);
            assert(s.listed()[3] =~= hypervisor_prefixes()[3]);
            assert(s.listed()[4] =~= hypervisor_prefixes()[4]);
            assert(s.listed() =~= hypervisor_prefixes());
            s.lemma_view_is_listed();
        }
        s
    }

    /// Whether the prefix of `address` is in the set.
    pub fn matches(&self, address: &HardwareAddress) -> (found: bool)
        ensures
            found == self@.contains(prefix_of(address@)),
    {
        let mut i: usize = 0;
        while i < self.entries.len()
            invariant
                0 <= i <= self.entries.len(),
                forall|k: int| 0 <= k < i ==> (#[trigger] self.entries@[k])@ != prefix_of(address@),
            decreases self.entries.len() - i,
        {
            if has_prefix(address, &self.entries[i]) {
                return true;
            }
            i += 1;
        }
        false
    }
}

/// The hardware-address probe on a list of adapter addresses that was read
/// beforehand; `None` stands for a list that could not be read.
pub fn mac_probe(adapters: Option<&Vec<HardwareAddress>>, prefixes: &PrefixSet) -> (r: ProbeResult)
    ensures
        r == mac_verdict(adapters_of(adapters), prefixes@),
{
    match adapters {
        None => ProbeResult::Indeterminate,
        Some(list) => {
            let mut i: usize = 0;
            while i < list.len()
                invariant
                    0 <= i <= list.len(),
                    adapters == Some(list),
                    forall|k: int|
                        0 <= k < i ==> !prefixes@.contains(
                            prefix_of(#[trigger] addresses_of(list@)[k]),
                        ),
                decreases list.len() - i,
            {
                if prefixes.matches(&list[i]) {
                    proof {
                        let found = addresses_of(list@);
                        assert(0 <= i < found.len() && prefixes@.contains(
                            prefix_of(found[i as int]),
                        ));
                        assert(mac_verdict(Some(found), prefixes@) == ProbeResult::Positive);
                    }
                    return ProbeResult::Positive;
                }
                i += 1;
            }
            ProbeResult::Negative
        },
    }
}

/// The hardware-address probe with the standard prefixes.
pub fn comparaison_known_mac_addr(adapters: Option<&Vec<HardwareAddress>>) -> (r: ProbeResult)
    ensures
        r == mac_verdict(adapters_of(adapters), hypervisor_prefixes().to_set()),
{
    let prefixes = PrefixSet::hypervisors();
    mac_probe(adapters, &prefixes)
}

} // verus!
