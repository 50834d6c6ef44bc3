use vstd::prelude::*;
use crate::link::decimal_padded;
use crate::strmap::StrMap;
use crate::text::push_char;

verus! {

/// The mDNS service type of Operit cores.
pub const OPERIT_SERVICE_TYPE: &'static str = "_operit._tcp.local.";

/// A core found on the local network.
pub struct DiscoveredDevice {
    pub device_id: String,
    pub display_name: String,
    pub platform: String,
    pub model: String,
    pub base_url: String,
    pub hostname: String,
    pub port: u16,
    pub token_hash: String,
    pub version: String,
}

/// The decimal digits of a number.
pub fn decimal_text(n: u64) -> (r: String)
    ensures
        r@ == decimal_padded(n as nat, 1),
{
    let mut digits: Vec<char> = Vec::new();
    let mut m: u64 = n;
    let mut first = true;
    proof {
        assert(decimal_padded(n as nat, 1) == decimal_padded(m as nat, 1) + digits@);
    }
    while first || m > 0
        invariant
            first ==> m == n && digits@.len() == 0,
            decimal_padded(n as nat, 1) == (if first { decimal_padded(m as nat, 1) } else { decimal_padded(m as nat, 0) }) + digits@,
        decreases m, (if first { 1int } else { 0int }),
    {
        let d = m % 10;
        let c: char = if d == 0 { '0' } else if d == 1 { '1' } else if d == 2 { '2' } else if d == 3 { '3' } else if d == 4 { '4' } else if d == 5 { '5' } else if d == 6 { '6' } else if d == 7 { '7' } else if d == 8 { '8' } else { '9' };
        proof {
            assert(c == ((m % 10) + 48) as char);
            if first {
                assert(decimal_padded(m as nat, 1) == decimal_padded((m / 10) as nat, 0) + seq![c]);
            } else {
                assert(decimal_padded(m as nat, 0) == decimal_padded((m / 10) as nat, 0) + seq![c]);
            }
        }
        let mut next: Vec<char> = Vec::new();
        next.push(c);
        let mut j: usize = 0;
        while j < digits.len()
            invariant
                j <= digits.len(),
                next@ == seq![c] + digits@.subrange(0, j as int),
            decreases digits.len() - j,
        {
            next.push(digits[j]);
            j = j + 1;
        }
        assert(digits@.subrange(0, digits.len() as int) == digits@);
        digits = next;
        m = m / 10;
        first = false;
    }
    assert(decimal_padded(0, 0) == Seq::<char>::empty());
    crate::text::string_from_chars(digits.as_slice())
}

/// The host name a core announces: `operit-<process>-<port>.local.`.
pub fn operit_mdns_hostname(process_id: u32, port: u16) -> (r: String)
    ensures
        r@ == "operit-"@ + decimal_padded(process_id as nat, 1) + seq!['-'] + decimal_padded(port as nat, 1) + ".local."@,
{
    let mut out = String::from_str("operit-");
    out.append(decimal_text(process_id as u64).as_str());
    push_char(&mut out, '-');
    out.append(decimal_text(port as u64).as_str());
    out.append(".local.");
    out
}

/// The instance name a core announces: `operit-<process>-<port>`.
pub fn operit_mdns_instance_name(process_id: u32, port: u16) -> (r: String)
    ensures
        r@ == "operit-"@ + decimal_padded(process_id as nat, 1) + seq!['-'] + decimal_padded(port as nat, 1),
{
    let mut out = String::from_str("operit-");
    out.append(decimal_text(process_id as u64).as_str());
    push_char(&mut out, '-');
    out.append(decimal_text(port as u64).as_str());
    out
}

/// How an address class ranks: private first, then public, link-local,
/// loopback and unspecified.
pub open spec fn ipv4_class(o: Seq<u8>) -> int {
    if o[0] == 169 && o[1] == 254 {
        2
    } else if o[0] == 10 || (o[0] == 172 && 16 <= o[1] && o[1] <= 31) || (o[0] == 192 && o[1] == 168) {
        0
    } else if o[0] == 127 {
        3
    } else if o[0] == 0 && o[1] == 0 && o[2] == 0 && o[3] == 0 {
        4
    } else {
        1
    }
}

/// The rank of an address: its class, then its octets, as one number that
/// orders as the pair does.
pub open spec fn ipv4_rank_spec(o: Seq<u8>) -> int {
    ipv4_class(o) * 0x1_0000_0000 + o[0] * 0x100_0000 + o[1] * 0x1_0000 + o[2] * 0x100 + o[3]
}

/// The rank of an IPv4 address (lower is preferred).
pub fn mdns_ipv4_rank(octets: [u8; 4]) -> (r: u64)
    ensures
        r == ipv4_rank_spec(octets@),
{
    let o0 = octets[0];
    let o1 = octets[1];
    let o2 = octets[2];
    let o3 = octets[3];
    let class: u64 = if o0 == 169 && o1 == 254 {
        2
    } else if o0 == 10 || (o0 == 172 && 16 <= o1 && o1 <= 31) || (o0 == 192 && o1 == 168) {
        0
    } else if o0 == 127 {
        3
    } else if o0 == 0 && o1 == 0 && o2 == 0 && o3 == 0 {
        4
    } else {
        1
    };
    class * 0x1_0000_0000 + (o0 as u64) * 0x100_0000 + (o1 as u64) * 0x1_0000 + (o2 as u64) * 0x100 + (o3 as u64)
}

/// The address to reach a service at: the first one of the lowest rank.
pub fn best_ipv4_index(addresses: &Vec<[u8; 4]>) -> (r: Option<usize>)
    ensures
        addresses@.len() == 0 <==> r is None,
        match r {
            Some(k) => best_index(addresses@, k as int) && forall|j: int|
                0 <= j < k ==> ipv4_rank_spec(#[trigger] addresses@[j]@) > ipv4_rank_spec(addresses@[k as int]@),
            None => true,
        },
{
    if addresses.len() == 0 {
        return None;
    }
    let mut best: usize = 0;
    let mut best_rank = mdns_ipv4_rank(addresses[0]);
    let mut i: usize = 1;
    while i < addresses.len()
        invariant
            1 <= i <= addresses.len(),
            best < i,
            best_rank == ipv4_rank_spec(addresses@[best as int]@),
            forall|j: int| 0 <= j < i ==> best_rank <= ipv4_rank_spec(#[trigger] addresses@[j]@),
            forall|j: int| 0 <= j < best ==> ipv4_rank_spec(#[trigger] addresses@[j]@) > best_rank,
        decreases addresses.len() - i,
    {
        let rk = mdns_ipv4_rank(addresses[i]);
        if rk < best_rank {
            best = i;
            best_rank = rk;
        }
        i = i + 1;
    }
    Some(best)
}

/// What discovery has found so far: for each service, the best address's
/// rank and the device.
pub struct DeviceDiscovery {
    devices: StrMap<(u64, DiscoveredDevice)>,
}

/// The address with the lowest rank.
pub open spec fn best_index(addresses: Seq<[u8; 4]>, k: int) -> bool {
    &&& 0 <= k < addresses.len()
    &&& forall|j: int| 0 <= j < addresses.len() ==> ipv4_rank_spec(addresses[k]@) <= ipv4_rank_spec(#[trigger] addresses[j]@)
}

impl DeviceDiscovery {
    /// The rank and device found for a service.
    pub closed spec fn found(&self, full_name: Seq<char>) -> Option<(u64, DiscoveredDevice)> {
        self.devices.get_spec(full_name)
    }

    /// The map keeps its keys in order.
    pub closed spec fn wf(&self) -> bool {
        self.devices.wf()
    }

    /// What was found, ascending by service name.
    pub closed spec fn entries(&self) -> Seq<(Seq<char>, (u64, DiscoveredDevice))> {
        self.devices.entries_view()
    }

    /// Nothing found yet.
    pub fn new() -> (d: Self)
        ensures
            d.wf(),
            forall|n: Seq<char>| #[trigger] d.found(n) is None,
    {
        DeviceDiscovery { devices: StrMap::new() }
    }

    /// Records a resolved service reached at `addresses` (its IPv4 ones): a
    /// service with no address is skipped; otherwise the best address stands,
    /// and the device replaces an earlier one only when its rank is lower, so
    /// the rank kept for a service never rises.
    pub fn on_service_resolved(&mut self, full_name: String, addresses: &Vec<[u8; 4]>, device: DiscoveredDevice) -> (r: Option<u64>)
        requires
            old(self).wf(),
        ensures
            final(self).wf(),
            addresses@.len() == 0 ==> r is None && forall|n: Seq<char>| #[trigger] final(self).found(n) == old(self).found(n),
            addresses@.len() > 0 ==> r is Some && exists|k: int| best_index(addresses@, k) && r.unwrap() == ipv4_rank_spec(addresses@[k]@),
            forall|n: Seq<char>| n != full_name@ ==> #[trigger] final(self).found(n) == old(self).found(n),
            forall|n: Seq<char>| #[trigger] old(self).found(n) is Some ==> final(self).found(n) is Some
                && final(self).found(n).unwrap().0 <= old(self).found(n).unwrap().0,
            addresses@.len() > 0 ==> match old(self).found(full_name@) {
                Some((rank, d)) => if r.unwrap() < rank {
                    final(self).found(full_name@) == Some((r.unwrap(), device))
                } else {
                    final(self).found(full_name@) == Some((rank, d))
                },
                None => final(self).found(full_name@) == Some((r.unwrap(), device)),
            },
    {
        let best = match best_ipv4_index(addresses) {
            Some(k) => k,
            None => {
                return None;
            },
        };
        let best_rank = mdns_ipv4_rank(addresses[best]);
        let replace = match self.devices.get(full_name.as_str()) {
            Some(entry) => best_rank < entry.0,
            None => true,
        };
        if replace {
            self.devices.insert(full_name, (best_rank, device));
        }
        Some(best_rank)
    }

    /// The devices found, in the order of their service names.
    pub fn into_devices(self) -> (r: Vec<DiscoveredDevice>)
        ensures
            r@ == self.entries().map_values(|e: (Seq<char>, (u64, DiscoveredDevice))| e.1.1),
    {
        let ghost ev = self.devices.entries_view();
        let pairs = self.devices.into_values();
        let mut out: Vec<DiscoveredDevice> = Vec::new();
        let mut rest = pairs;
        let ghost all = rest@;
        while rest.len() > 0
            invariant
                all.len() == out@.len() + rest@.len(),
                rest@ == all.subrange(out@.len() as int, all.len() as int),
                out@ == all.subrange(0, out@.len() as int).map_values(|p: (u64, DiscoveredDevice)| p.1),
            decreases rest.len(),
        {
            let ghost k: int = out@.len() as int;
            let (_rank, d) = rest.remove(0);
            out.push(d);
            assert(all.subrange(0, k + 1).map_values(|p: (u64, DiscoveredDevice)| p.1) == all.subrange(0, k as int).map_values(|p: (u64, DiscoveredDevice)| p.1).push(d));
        }
        assert(all.subrange(0, all.len() as int) == all);
        assert(out@ == ev.map_values(|e: (Seq<char>, (u64, DiscoveredDevice))| e.1.1));
        out
    }
}

} // verus!
