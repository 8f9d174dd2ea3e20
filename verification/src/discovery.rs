//! Discovery of the devices on the local network: the probe that is sent to
//! the multicast group, and the judgement of what comes back.

use vstd::prelude::*;
use crate::frame::DeviceAddress;
use crate::session::{spec_discovered, Inverter};

verus! {

/// The UDP port on which every device speaks the protocol.
pub const PROTOCOL_PORT: u16 = 9522;

/// The length of a discovery reply.
pub const DISCOVERY_REPLY_LEN: usize = 65;

/// Where a discovery reply holds the IPv4 address of the device that sent it.
pub const DISCOVERY_ADDRESS_OFFSET: usize = 38;

/// The IPv4 address of a device. Its port is always [`PROTOCOL_PORT`].
#[derive(Clone, Copy, Debug, PartialEq, Eq, Hash, Structural)]
pub struct InverterAddress {
    pub a: u8,
    pub b: u8,
    pub c: u8,
    pub d: u8,
}

impl InverterAddress {
    /// The port of the device.
    pub fn port(&self) -> (port: u16)
        ensures
            port == PROTOCOL_PORT,
    {
        PROTOCOL_PORT
    }
}

/// The multicast group on which devices listen for the probe: 239.12.255.254.
pub fn multicast_group() -> (group: InverterAddress)
    ensures
        group == (InverterAddress { a: 239, b: 12, c: 255, d: 254 }),
{
    InverterAddress { a: 239, b: 12, c: 255, d: 254 }
}

/// The discovery probe, byte for byte.
pub open spec fn spec_probe() -> Seq<u8> {
    seq![
        0x53u8, 0x4Du8, 0x41u8, 0x00u8, 0x00u8, 0x04u8, 0x02u8, 0xA0u8, 0xFFu8, 0xFFu8,
        0xFFu8, 0xFFu8, 0x00u8, 0x00u8, 0x00u8, 0x20u8, 0x00u8, 0x00u8, 0x00u8, 0x00u8,
    ]
}

/// The device that a discovery reply announces, if the reply is valid: it is
/// 65 bytes long, and the address it holds at offset 38 is the address it
/// comes from.
pub open spec fn spec_reply_address(datagram: Seq<u8>, source: InverterAddress) -> Option<
    InverterAddress,
> {
    if datagram.len() == DISCOVERY_REPLY_LEN && source == (InverterAddress {
        a: datagram[38],
        b: datagram[39],
        c: datagram[40],
        d: datagram[41],
    }) {
        Some(source)
    } else {
        None
    }
}

/// The candidate list after one more valid reply: an address that it holds
/// already is not added again.
pub open spec fn spec_with(found: Seq<InverterAddress>, address: InverterAddress) -> Seq<
    InverterAddress,
> {
    if found.contains(address) {
        found
    } else {
        found.push(address)
    }
}

/// One datagram received after the probe, with the address that it came from.
#[derive(Clone, Debug, PartialEq, Eq)]
pub struct Reply {
    pub bytes: Vec<u8>,
    pub source: InverterAddress,
}

/// The device that the reply at index `i` announces, if that reply is valid.
pub open spec fn spec_announced(replies: Seq<Reply>, i: int) -> Option<InverterAddress> {
    spec_reply_address(replies[i].bytes@, replies[i].source)
}

/// The candidate list after the first `n` replies: the devices that valid
/// replies announce, each once, in the order in which they were first heard.
pub open spec fn spec_candidates(replies: Seq<Reply>, n: nat) -> Seq<InverterAddress>
    decreases n,
{
    if n == 0 {
        Seq::empty()
    } else {
        let before = spec_candidates(replies, (n - 1) as nat);
        match spec_announced(replies, n - 1) {
            Some(address) => spec_with(before, address),
            None => before,
        }
    }
}

/// Builds the 20-byte probe that is sent to the multicast group.
pub fn discovery_probe() -> (probe: Vec<u8>)
    ensures
        probe@ == spec_probe(),
{
    let mut probe: Vec<u8> = Vec::new();
    probe.push(0x53);
    probe.push(0x4D);
    probe.push(0x41);
    probe.push(0x00);
    probe.push(0x00);
    probe.push(0x04);
    probe.push(0x02);
    probe.push(0xA0);
    probe.push(0xFF);
    probe.push(0xFF);
    probe.push(0xFF);
    probe.push(0xFF);
    probe.push(0x00);
    probe.push(0x00);
    probe.push(0x00);
    probe.push(0x20);
    probe.push(0x00);
    probe.push(0x00);
    probe.push(0x00);
    probe.push(0x00);
    assert(probe@ =~= spec_probe());
    probe
}

/// Judges one datagram received after the probe, with the address that it
/// came from.
pub fn parse_discovery_reply(datagram: &[u8], source: InverterAddress) -> (found: Option<
    InverterAddress,
>)
    ensures
        found == spec_reply_address(datagram@, source),
{
    if datagram.len() == DISCOVERY_REPLY_LEN && datagram[38] == source.a && datagram[39]
        == source.b && datagram[40] == source.c && datagram[41] == source.d {
        Some(source)
    } else {
        None
    }
}

/// Tells whether the candidate list holds an address.
pub fn is_known(found: &Vec<InverterAddress>, address: InverterAddress) -> (known: bool)
    ensures
        known == found@.contains(address),
{
    let mut i: usize = 0;
    while i < found.len()
        invariant
            i <= found@.len(),
            forall|j: int| 0 <= j < i ==> found@[j] != address,
        decreases found@.len() - i,
    {
        if found[i] == address {
            return true;
        }
        i += 1;
    }
    false
}

/// Takes one datagram received after the probe into the candidate list: a
/// valid reply adds its device unless the list holds it already, and any other
/// datagram leaves the list as it is. Tells whether a device was added.
pub fn collect_reply(
    found: &mut Vec<InverterAddress>,
    datagram: &[u8],
    source: InverterAddress,
) -> (added: bool)
    ensures
        final(found)@ == match spec_reply_address(datagram@, source) {
            Some(address) => spec_with(old(found)@, address),
            None => old(found)@,
        },
        added == (final(found)@.len() == old(found)@.len() + 1),
        old(found)@.no_duplicates() ==> final(found)@.no_duplicates(),
{
    match parse_discovery_reply(datagram, source) {
        Some(address) => {
            if is_known(found, address) {
                false
            } else {
                found.push(address);
                true
            }
        },
        None => false,
    }
}

/// The candidate list holds no device twice, and it holds a device exactly
/// when one of the replies is valid and announces it.
pub proof fn lemma_candidates(replies: Seq<Reply>, n: nat)
    requires
        n <= replies.len(),
    ensures
        spec_candidates(replies, n).no_duplicates(),
        forall|address: InverterAddress| #[trigger]
            spec_candidates(replies, n).contains(address) <==> exists|i: int|
                0 <= i < n && #[trigger] spec_announced(replies, i) == Some(address),
    decreases n,
{
    if n > 0 {
        lemma_candidates(replies, (n - 1) as nat);
        let before = spec_candidates(replies, (n - 1) as nat);
        let after = spec_candidates(replies, n);
        assert forall|address: InverterAddress| #[trigger]
            after.contains(address) <==> exists|i: int|
                0 <= i < n && #[trigger] spec_announced(replies, i) == Some(address) by {
            if after.contains(address) {
                let k = choose|k: int| 0 <= k < after.len() && after[k] == address;
                if k < before.len() && before.len() <= after.len() && before.contains(after[k]) {
                    let i = choose|i: int|
                        0 <= i < n - 1 && #[trigger] spec_announced(replies, i) == Some(address);
                    assert(0 <= i < n && spec_announced(replies, i) == Some(address));
                } else {
                    assert(spec_announced(replies, n - 1) == Some(address));
                }
            }
            if exists|i: int|
                0 <= i < n && #[trigger] spec_announced(replies, i) == Some(address) {
                let i = choose|i: int|
                    0 <= i < n && #[trigger] spec_announced(replies, i) == Some(address);
                if i < n - 1 {
                    assert(before.contains(address));
                    let k = choose|k: int| 0 <= k < before.len() && before[k] == address;
                    assert(after[k] == address);
                } else {
                    if !before.contains(address) {
                        assert(after[before.len() as int] == address);
                    }
                }
            }
        }
    }
}

/// Finds the devices among the datagrams that were received after the probe:
/// one device for each address that a valid reply announces, in the order in
/// which the addresses were first heard, each discovered and without a session.
pub fn find_inverters(replies: &Vec<Reply>, local: DeviceAddress) -> (found: Vec<Inverter>)
    ensures
        found@.len() == spec_candidates(replies@, replies@.len()).len(),
        forall|k: int|
            0 <= k < found@.len() ==> found@[k] == spec_discovered(
                spec_candidates(replies@, replies@.len())[k],
                local,
            ),
        spec_candidates(replies@, replies@.len()).no_duplicates(),
        forall|address: InverterAddress| #[trigger]
            spec_candidates(replies@, replies@.len()).contains(address) <==> exists|i: int|
                0 <= i < replies@.len() && #[trigger] spec_announced(replies@, i) == Some(address),
{
    let mut addresses: Vec<InverterAddress> = Vec::new();
    let mut i: usize = 0;
    while i < replies.len()
        invariant
            i <= replies@.len(),
            addresses@ == spec_candidates(replies@, i as nat),
        decreases replies@.len() - i,
    {
        let reply = &replies[i];
        collect_reply(&mut addresses, reply.bytes.as_slice(), reply.source);
        i += 1;
    }
    let mut found: Vec<Inverter> = Vec::new();
    let mut k: usize = 0;
    while k < addresses.len()
        invariant
            k <= addresses@.len(),
            found@.len() == k,
            forall|j: int| 0 <= j < k ==> found@[j] == spec_discovered(addresses@[j], local),
        decreases addresses@.len() - k,
    {
        found.push(Inverter::new(addresses[k], local));
        k += 1;
    }
    proof {
        lemma_candidates(replies@, replies@.len());
    }
    found
}

} // verus!
