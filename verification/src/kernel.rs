//! What the dataplane takes from the kernel: the interfaces the kernel driver
//! captures packets on, and the adjacencies of the kernel's ARP table.
//!
//! The driver is told which interfaces to use by name; the name `ANY` (in any
//! letter case), given alone, asks for every interface the kernel has.

use crate::eth::Mac;
use crate::packet::IpAddress;
use vstd::prelude::*;

verus! {

/// A kernel network interface, as far as the driver's choice reads it.
#[derive(Debug)]
pub struct KernelInterface {
    /// The interface index.
    pub index: u32,
    /// The interface name.
    pub name: String,
}

/// No interface was named: the driver has nothing to capture on.
#[derive(Clone, Copy, Debug, PartialEq, Eq, Structural)]
pub struct NoInterfaceRequested;

/// The index of the first interface of `ifs` called `name`, if any.
pub open spec fn spec_ifindex_of(ifs: Seq<KernelInterface>, name: Seq<char>) -> Option<u32>
    decreases ifs.len(),
{
    if ifs.len() == 0 {
        None
    } else if ifs[0].name@ == name {
        Some(ifs[0].index)
    } else {
        spec_ifindex_of(ifs.drop_first(), name)
    }
}

/// Whether `name` is `any`, in any letter case.
pub open spec fn spec_is_any(name: Seq<char>) -> bool {
    &&& name.len() == 3
    &&& (name[0] == 'a' || name[0] == 'A')
    &&& (name[1] == 'n' || name[1] == 'N')
    &&& (name[2] == 'y' || name[2] == 'Y')
}

/// The interfaces of `ifs` named in `names`, in the order of `names`, each with
/// the index of the first interface of that name; a name that no interface has
/// is passed over.
pub open spec fn spec_named_interfaces(ifs: Seq<KernelInterface>, names: Seq<String>) -> Seq<
    KernelInterface,
>
    decreases names.len(),
{
    if names.len() == 0 {
        Seq::empty()
    } else {
        let chosen = spec_named_interfaces(ifs, names.drop_last());
        match spec_ifindex_of(ifs, names.last()@) {
            Some(index) => chosen.push(KernelInterface { index, name: names.last() }),
            None => chosen,
        }
    }
}

/// The interfaces the driver captures on, out of the kernel's interfaces `ifs`,
/// when it is asked for `names`: an error when `names` is empty; all of `ifs`
/// when `names` is `ANY` alone; else those of [`spec_named_interfaces`].
pub open spec fn spec_select_interfaces(ifs: Seq<KernelInterface>, names: Seq<String>) -> Result<
    Seq<KernelInterface>,
    NoInterfaceRequested,
> {
    if names.len() == 0 {
        Err(NoInterfaceRequested)
    } else if names.len() == 1 && spec_is_any(names[0]@) {
        Ok(ifs)
    } else {
        Ok(spec_named_interfaces(ifs, names))
    }
}

proof fn lemma_ifindex_of_skip(ifs: Seq<KernelInterface>, name: Seq<char>, i: int)
    requires
        0 <= i < ifs.len(),
        ifs[i].name@ != name,
    ensures
        spec_ifindex_of(ifs.skip(i), name) == spec_ifindex_of(ifs.skip(i + 1), name),
{
    assert(ifs.skip(i).drop_first() =~= ifs.skip(i + 1));
}

impl KernelInterface {
    /// A copy of this interface.
    pub fn duplicate(&self) -> (res: KernelInterface)
        ensures
            res == *self,
    {
        KernelInterface { index: self.index, name: self.name.clone() }
    }
}

/// The index of the first interface of `interfaces` called `name`; see
/// [`spec_ifindex_of`].
pub fn get_interface_ifindex(interfaces: &[KernelInterface], name: &str) -> (res: Option<u32>)
    ensures
        res == spec_ifindex_of(interfaces@, name@),
{
    let wanted = name.to_owned();
    let mut i: usize = 0;
    assert(interfaces@.skip(0) =~= interfaces@);
    while i < interfaces.len()
        invariant
            i <= interfaces@.len(),
            wanted@ == name@,
            spec_ifindex_of(interfaces@, name@) == spec_ifindex_of(interfaces@.skip(i as int), name@),
        decreases interfaces@.len() - i,
    {
        if interfaces[i].name == wanted {
            assert(interfaces@.skip(i as int)[0] == interfaces@[i as int]);
            return Some(interfaces[i].index);
        }
        proof {
            lemma_ifindex_of_skip(interfaces@, name@, i as int);
        }
        i = i + 1;
    }
    assert(interfaces@.skip(i as int).len() == 0);
    None
}

/// Whether `name` is `any`, in any letter case; see [`spec_is_any`].
pub fn is_any_interface(name: &String) -> (res: bool)
    ensures
        res == spec_is_any(name@),
{
    broadcast use vstd::string::is_ascii_spec_bytes;

    let s = name.as_str();
    if !s.is_ascii() {
        proof {
            if spec_is_any(name@) {
                assert(vstd::string::is_ascii(s)) by {
                    assert forall|i: int| 0 <= i < s@.len() implies '\0' <= #[trigger] s@[i] <= '\u{7f}' by {
                        assert(0 <= i < 3);
                    }
                }
            }
        }
        return false;
    }
    let bytes = s.as_bytes();
    assert(bytes@ =~= Seq::new(s@.len(), |i| s@.index(i) as u8));
    if bytes.len() != 3 {
        return false;
    }
    let res = (bytes[0] == 0x61 || bytes[0] == 0x41) && (bytes[1] == 0x6e || bytes[1] == 0x4e) && (
    bytes[2] == 0x79 || bytes[2] == 0x59);
    proof {
        assert(vstd::string::is_ascii(s));
        assert('\0' <= s@[0] <= '\u{7f}');
        assert('\0' <= s@[1] <= '\u{7f}');
        assert('\0' <= s@[2] <= '\u{7f}');
        assert(bytes@[0] == s@[0] as u8);
        assert(bytes@[1] == s@[1] as u8);
        assert(bytes@[2] == s@[2] as u8);
    }
    res
}

/// The interfaces to capture on, out of the kernel's `interfaces`, when the
/// driver is asked for `names`; see [`spec_select_interfaces`].
pub fn select_interfaces(interfaces: &[KernelInterface], names: &[String]) -> (res: Result<
    Vec<KernelInterface>,
    NoInterfaceRequested,
>)
    ensures
        match spec_select_interfaces(interfaces@, names@) {
            Ok(chosen) => res matches Ok(v) && v@ == chosen,
            Err(e) => res == Err::<Vec<KernelInterface>, NoInterfaceRequested>(e),
        },
{
    if names.len() == 0 {
        return Err(NoInterfaceRequested);
    }
    let mut chosen: Vec<KernelInterface> = Vec::new();
    if names.len() == 1 && is_any_interface(&names[0]) {
        let mut i: usize = 0;
        while i < interfaces.len()
            invariant
                i <= interfaces@.len(),
                chosen@ == interfaces@.take(i as int),
            decreases interfaces@.len() - i,
        {
            chosen.push(interfaces[i].duplicate());
            assert(interfaces@.take(i as int + 1) =~= interfaces@.take(i as int).push(interfaces@[i as int]));
            i = i + 1;
        }
        assert(interfaces@.take(i as int) =~= interfaces@);
        return Ok(chosen);
    }
    let mut j: usize = 0;
    while j < names.len()
        invariant
            j <= names@.len(),
            chosen@ == spec_named_interfaces(interfaces@, names@.take(j as int)),
        decreases names@.len() - j,
    {
        let name = &names[j];
        let found = get_interface_ifindex(interfaces, name.as_str());
        proof {
            assert(names@.take(j as int + 1).drop_last() =~= names@.take(j as int));
            assert(names@.take(j as int + 1).last() == names@[j as int]);
        }
        if let Some(index) = found {
            chosen.push(KernelInterface { index, name: name.clone() });
        }
        j = j + 1;
    }
    assert(names@.take(j as int) =~= names@);
    Ok(chosen)
}

/// An entry of the kernel's ARP table, as far as the resolver reads it.
#[derive(Debug)]
pub struct ArpEntry {
    /// The IPv4 address.
    pub ip_address: u32,
    /// The MAC address, when it is resolved.
    pub hw_address: Option<Mac>,
    /// The name of the interface the entry belongs to.
    pub device: String,
}

/// A neighbour reachable through an interface: its IP address, the index of
/// that interface and its MAC address.
#[derive(Clone, Copy, Debug, PartialEq, Eq)]
pub struct Adjacency {
    /// The neighbour's IP address.
    pub address: IpAddress,
    /// The interface it is reached through.
    pub ifindex: u32,
    /// The neighbour's MAC address.
    pub mac: Mac,
}

/// The adjacency that the ARP entry `e` gives, the kernel's interfaces being
/// `ifs`: none when its MAC address is not resolved or no interface has its
/// device's name.
pub open spec fn spec_adjacency_of(ifs: Seq<KernelInterface>, e: ArpEntry) -> Option<Adjacency> {
    match e.hw_address {
        None => None,
        Some(mac) => match spec_ifindex_of(ifs, e.device@) {
            Some(ifindex) => Some(Adjacency { address: IpAddress::V4(e.ip_address), ifindex, mac }),
            None => None,
        },
    }
}

/// The adjacencies that the ARP entries `entries` give, in their order; see
/// [`spec_adjacency_of`].
pub open spec fn spec_arp_adjacencies(ifs: Seq<KernelInterface>, entries: Seq<ArpEntry>) -> Seq<
    Adjacency,
>
    decreases entries.len(),
{
    if entries.len() == 0 {
        Seq::empty()
    } else {
        let found = spec_arp_adjacencies(ifs, entries.drop_last());
        match spec_adjacency_of(ifs, entries.last()) {
            Some(adj) => found.push(adj),
            None => found,
        }
    }
}

/// The adjacencies that the kernel's ARP table `entries` gives, its
/// interfaces being `interfaces`; see [`spec_arp_adjacencies`].
pub fn arp_adjacencies(interfaces: &[KernelInterface], entries: &[ArpEntry]) -> (res: Vec<Adjacency>)
    ensures
        res@ == spec_arp_adjacencies(interfaces@, entries@),
{
    let mut adjs: Vec<Adjacency> = Vec::new();
    let mut i: usize = 0;
    while i < entries.len()
        invariant
            i <= entries@.len(),
            adjs@ == spec_arp_adjacencies(interfaces@, entries@.take(i as int)),
        decreases entries@.len() - i,
    {
        let entry = &entries[i];
        proof {
            assert(entries@.take(i as int + 1).drop_last() =~= entries@.take(i as int));
            assert(entries@.take(i as int + 1).last() == entries@[i as int]);
        }
        if let Some(mac) = entry.hw_address {
            if let Some(ifindex) = get_interface_ifindex(interfaces, entry.device.as_str()) {
                adjs.push(Adjacency { address: IpAddress::V4(entry.ip_address), ifindex, mac });
            }
        }
        i = i + 1;
    }
    assert(entries@.take(i as int) =~= entries@);
    adjs
}

} // verus!
