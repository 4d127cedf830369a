//! Device registry: handles to the capture engine's live devices and
//! verified lookup over a snapshot of the enumerated devices.
//!
//! The engine owns the devices; a handle is a pointer-sized identifier into
//! engine-managed memory, with zero as the null sentinel meaning "no such
//! device". Enumeration itself queries the local network stack and lives
//! with the engine; this module works on the snapshot the enumeration hands
//! back: one record per device, carrying the handle beside the metadata the
//! lookups read. Every lookup that can legitimately miss returns the null
//! handle or an absent value — a miss is a normal outcome, never an error.

use vstd::prelude::*;

use crate::address::IpAddress;
use crate::address::MacAddress;
use crate::address::OptionMacAddress;
use crate::address::addr_eq;
use crate::address::ip_eq;

verus! {

/// A handle to a device owned by the capture engine. The handle's value
/// identifies engine-managed memory; zero is the null sentinel for "no such
/// device". A handle is valid only while the engine session that produced it
/// is alive: a null check is not a liveness check, and using a non-null
/// handle after the engine has shut down is the caller's responsibility to
/// avoid.
#[derive(Clone, Copy, Debug, PartialEq, Eq, Hash)]
pub struct LiveDevice {
    pub handle: usize,
}

impl LiveDevice {
    /// Whether this handle is the null sentinel.
    pub open spec fn spec_is_null(self) -> bool {
        self.handle == 0
    }

    /// Whether this handle is the null sentinel, i.e. names no device.
    pub fn is_null(&self) -> (r: bool)
        ensures
            r == self.spec_is_null(),
    {
        self.handle == 0
    }

    /// The null handle: the not-found signal of every lookup.
    pub fn null() -> (r: LiveDevice)
        ensures
            r.spec_is_null(),
    {
        LiveDevice { handle: 0 }
    }
}

/// One enumerated device: its engine handle beside the metadata the lookups
/// read, captured at enumeration time.
#[derive(Debug)]
pub struct DeviceRecord {
    pub device: LiveDevice,
    pub name: String,
    pub mac: OptionMacAddress,
    pub addresses: Vec<IpAddress>,
}

impl DeviceRecord {
    /// The device's link-layer address, absent when the device has none
    /// (e.g. a loopback or tunnel interface).
    pub fn mac_address(&self) -> (r: Option<MacAddress>)
        ensures
            self.mac.valid ==> r == Some(self.mac.value),
            !self.mac.valid ==> r is None,
    {
        self.mac.as_option()
    }

    /// Whether some address bound to this device agrees with `a` on tag and
    /// buffer.
    pub open spec fn spec_has_address(self, a: IpAddress) -> bool {
        exists|j: int| 0 <= j < self.addresses@.len() && addr_eq(self.addresses@[j], a)
    }

    /// Whether `a` is bound to this device.
    pub fn has_address(&self, a: &IpAddress) -> (r: bool)
        ensures
            r == self.spec_has_address(*a),
    {
        let n = self.addresses.len();
        let mut i: usize = 0;
        while i < n
            invariant
                i <= n,
                n == self.addresses@.len(),
                forall|j: int| 0 <= j < i ==> !addr_eq(self.addresses@[j], *a),
            decreases n - i,
        {
            if ip_eq(&self.addresses[i], a) {
                return true;
            }
            i += 1;
        }
        false
    }

    /// The first address of the given version bound to this device, if any.
    pub open spec fn spec_primary_address(addrs: Seq<IpAddress>, version: u8) -> Option<IpAddress>
        decreases addrs.len(),
    {
        if addrs.len() == 0 {
            None
        } else if addrs[0].version == version {
            Some(addrs[0])
        } else {
            Self::spec_primary_address(addrs.drop_first(), version)
        }
    }

    /// The device's primary (first-bound) address of the given family, or
    /// `None` when the device has no address of that family.
    pub fn primary_address(&self, version: u8) -> (r: Option<IpAddress>)
        ensures
            r == Self::spec_primary_address(self.addresses@, version),
            r matches Some(a) ==> a.version == version,
    {
        let n = self.addresses.len();
        let mut i: usize = 0;
        proof {
            assert(self.addresses@.skip(0) =~= self.addresses@);
        }
        while i < n
            invariant
                i <= n,
                n == self.addresses@.len(),
                Self::spec_primary_address(self.addresses@, version)
                    == Self::spec_primary_address(self.addresses@.skip(i as int), version),
        decreases n - i,
        {
            if self.addresses[i].version == version {
                return Some(self.addresses[i]);
            }
            proof {
                assert(self.addresses@.skip(i as int).drop_first() =~= self.addresses@.skip(
                    i as int + 1,
                ));
            }
            i += 1;
        }
        None
    }
}

/// The handle of the first record named `name`, or the null handle when no
/// record carries that name.
pub open spec fn spec_find_by_name(s: Seq<DeviceRecord>, name: Seq<char>) -> LiveDevice
    decreases s.len(),
{
    if s.len() == 0 {
        LiveDevice { handle: 0 }
    } else if s[0].name@ == name {
        s[0].device
    } else {
        spec_find_by_name(s.drop_first(), name)
    }
}

/// When no record carries the name, the lookup yields the null handle.
pub proof fn lemma_find_by_name_miss(s: Seq<DeviceRecord>, name: Seq<char>)
    requires
        forall|i: int| 0 <= i < s.len() ==> s[i].name@ != name,
    ensures
        spec_find_by_name(s, name).spec_is_null(),
    decreases s.len(),
{
    if s.len() > 0 {
        assert(forall|i: int| 0 <= i < s.drop_first().len() ==> s.drop_first()[i].name@ != name);
        lemma_find_by_name_miss(s.drop_first(), name);
    }
}

/// Resolve a device by name over the enumerated snapshot. The null handle is
/// the not-found signal; a miss is never an error.
pub fn find_by_name(devices: &Vec<DeviceRecord>, name: &String) -> (r: LiveDevice)
    ensures
        r == spec_find_by_name(devices@, name@),
        (forall|i: int| 0 <= i < devices@.len() ==> devices@[i].name@ != name@)
            ==> r.spec_is_null(),
{
    let n = devices.len();
    let mut i: usize = 0;
    proof {
        assert(devices@.skip(0) =~= devices@);
    }
    while i < n
        invariant
            i <= n,
            n == devices@.len(),
            spec_find_by_name(devices@, name@) == spec_find_by_name(
                devices@.skip(i as int),
                name@,
            ),
            forall|j: int| 0 <= j < i ==> devices@[j].name@ != name@,
        decreases n - i,
    {
        if devices[i].name == *name {
            return devices[i].device;
        }
        proof {
            assert(devices@.skip(i as int).drop_first() =~= devices@.skip(i as int + 1));
        }
        i += 1;
    }
    proof {
        lemma_find_by_name_miss(devices@, name@);
    }
    LiveDevice { handle: 0 }
}

/// The handle of the first record with `addr` bound to it, or the null
/// handle when no record has it.
pub open spec fn spec_find_by_address(s: Seq<DeviceRecord>, addr: IpAddress) -> LiveDevice
    decreases s.len(),
{
    if s.len() == 0 {
        LiveDevice { handle: 0 }
    } else if s[0].spec_has_address(addr) {
        s[0].device
    } else {
        spec_find_by_address(s.drop_first(), addr)
    }
}

/// When no record has the address bound, the lookup yields the null handle.
pub proof fn lemma_find_by_address_miss(s: Seq<DeviceRecord>, addr: IpAddress)
    requires
        forall|i: int| 0 <= i < s.len() ==> !s[i].spec_has_address(addr),
    ensures
        spec_find_by_address(s, addr).spec_is_null(),
    decreases s.len(),
{
    if s.len() > 0 {
        assert(forall|i: int|
            0 <= i < s.drop_first().len() ==> !s.drop_first()[i].spec_has_address(addr));
        lemma_find_by_address_miss(s.drop_first(), addr);
    }
}

/// Resolve a device by a bound address over the enumerated snapshot. The
/// null handle is the not-found signal; a miss is never an error.
pub fn find_by_address(devices: &Vec<DeviceRecord>, addr: &IpAddress) -> (r: LiveDevice)
    ensures
        r == spec_find_by_address(devices@, *addr),
        (forall|i: int| 0 <= i < devices@.len() ==> !devices@[i].spec_has_address(*addr))
            ==> r.spec_is_null(),
{
    let n = devices.len();
    let mut i: usize = 0;
    proof {
        assert(devices@.skip(0) =~= devices@);
    }
    while i < n
        invariant
            i <= n,
            n == devices@.len(),
            spec_find_by_address(devices@, *addr) == spec_find_by_address(
                devices@.skip(i as int),
                *addr,
            ),
            forall|j: int| 0 <= j < i ==> !devices@[j].spec_has_address(*addr),
        decreases n - i,
    {
        if devices[i].has_address(addr) {
            return devices[i].device;
        }
        proof {
            assert(devices@.skip(i as int).drop_first() =~= devices@.skip(i as int + 1));
        }
        i += 1;
    }
    proof {
        lemma_find_by_address_miss(devices@, *addr);
    }
    LiveDevice { handle: 0 }
}

/// Resolve a token that may be either an address literal or a device name.
/// Address-based resolution is tried first: `parsed` carries the address
/// when the token parses as an address literal (the parse itself happens at
/// the boundary, outside this model), and name-based resolution is the
/// fallback only when the token is not a valid address literal.
pub fn find_by_ip_or_name(
    devices: &Vec<DeviceRecord>,
    parsed: Option<IpAddress>,
    token: &String,
) -> (r: LiveDevice)
    ensures
        parsed matches Some(a) ==> r == spec_find_by_address(devices@, a),
        parsed is None ==> r == spec_find_by_name(devices@, token@),
{
    match parsed {
        Some(a) => find_by_address(devices, &a),
        None => find_by_name(devices, token),
    }
}

} // verus!
