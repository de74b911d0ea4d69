//! The device locator: which of the host's serial ports is the display.

use vstd::prelude::*;

verus! {

/// The USB identity of a device: its vendor and product numbers.
#[derive(Clone, Copy, Debug, PartialEq, Eq, Structural)]
pub struct UsbIdentity {
    pub vendor_id: u16,
    pub product_id: u16,
}

/// One serial port as the host lists it.
#[derive(Debug)]
pub struct PortDescriptor {
    /// The name under which the port is opened.
    pub name: String,
    /// The USB identity the port reports; `None` for a port that is not USB.
    pub usb: Option<UsbIdentity>,
}

/// What to open: a port and the speed of the link.
#[derive(Debug)]
pub struct OpenRequest {
    pub port_name: String,
    pub baud_rate: u32,
}

/// Why no display could be selected.
#[derive(Clone, Copy, Debug, PartialEq, Eq, Structural)]
pub enum DeviceError {
    /// No listed port reports the wanted identity.
    NotFound,
}

/// Whether a port reports the identity `wanted`.
pub open spec fn port_matches(port: PortDescriptor, wanted: UsbIdentity) -> bool {
    port.usb == Some(wanted)
}

/// Whether no port before position `end` reports the identity `wanted`.
pub open spec fn none_matches_before(
    ports: Seq<PortDescriptor>,
    wanted: UsbIdentity,
    end: int,
) -> bool {
    forall|j: int| 0 <= j < end && j < ports.len() ==> !port_matches(#[trigger] ports[j], wanted)
}

/// The position of the first port that reports `wanted`, if there is one.
pub open spec fn first_match(ports: Seq<PortDescriptor>, wanted: UsbIdentity) -> Option<int> {
    if exists|i: int| is_first_match(ports, wanted, i) {
        Some(choose|i: int| is_first_match(ports, wanted, i))
    } else {
        None
    }
}

/// Whether `i` is the position of the first port that reports `wanted`.
pub open spec fn is_first_match(ports: Seq<PortDescriptor>, wanted: UsbIdentity, i: int) -> bool {
    &&& 0 <= i < ports.len()
    &&& port_matches(ports[i], wanted)
    &&& none_matches_before(ports, wanted, i)
}

/// Tests one port against an identity.
pub fn matches_identity(port: &PortDescriptor, wanted: UsbIdentity) -> (hit: bool)
    ensures
        hit == port_matches(*port, wanted),
{
    match port.usb {
        Some(id) => id.vendor_id == wanted.vendor_id && id.product_id == wanted.product_id,
        None => false,
    }
}

/// Finds the first port, in listing order, that reports the identity
/// `wanted`. Where several ports report it, the one listed first is taken;
/// where none does, and so for an empty listing, the answer is
/// [`DeviceError::NotFound`].
pub fn find_port(ports: &Vec<PortDescriptor>, wanted: UsbIdentity) -> (found: Result<
    usize,
    DeviceError,
>)
    ensures
        match found {
            Ok(i) => is_first_match(ports@, wanted, i as int),
            Err(e) => e == DeviceError::NotFound,
        },
        found is Err <==> none_matches_before(ports@, wanted, ports@.len() as int),
        found matches Ok(i) ==> first_match(ports@, wanted) == Some(i as int),
        found is Err ==> first_match(ports@, wanted) is None,
{
    let mut i: usize = 0;
    while i < ports.len()
        invariant
            i <= ports.len(),
            none_matches_before(ports@, wanted, i as int),
        decreases ports.len() - i,
    {
        if matches_identity(&ports[i], wanted) {
            proof {
                lemma_first_match_unique(ports@, wanted, i as int);
            }
            return Ok(i);
        }
        i += 1;
    }
    Err(DeviceError::NotFound)
}

/// Selects the display among the listed ports and says how to open it: the
/// first port that reports `wanted`, at `baud_rate`.
pub fn locate(ports: &Vec<PortDescriptor>, wanted: UsbIdentity, baud_rate: u32) -> (request:
    Result<OpenRequest, DeviceError>)
    ensures
        match request {
            Ok(req) => first_match(ports@, wanted) matches Some(i) && req.port_name@
                == ports@[i].name@ && req.baud_rate == baud_rate,
            Err(e) => e == DeviceError::NotFound && first_match(ports@, wanted) is None,
        },
{
    match find_port(ports, wanted) {
        Ok(i) => Ok(OpenRequest { port_name: ports[i].name.clone(), baud_rate }),
        Err(e) => Err(e),
    }
}

/// There is at most one first match, and `first_match` names it.
pub proof fn lemma_first_match_unique(ports: Seq<PortDescriptor>, wanted: UsbIdentity, i: int)
    requires
        is_first_match(ports, wanted, i),
    ensures
        first_match(ports, wanted) == Some(i),
{
    let j = choose|j: int| is_first_match(ports, wanted, j);
    assert(is_first_match(ports, wanted, j));
    if j < i {
        assert(!port_matches(ports[j], wanted));
    }
    if i < j {
        assert(!port_matches(ports[i], wanted));
    }
}

/// Where no listed port reports the wanted identity, nothing is selected:
/// this includes the empty listing.
pub proof fn lemma_no_match_selects_nothing(ports: Seq<PortDescriptor>, wanted: UsbIdentity)
    requires
        forall|j: int| 0 <= j < ports.len() ==> !port_matches(#[trigger] ports[j], wanted),
    ensures
        first_match(ports, wanted) is None,
{
}

} // verus!
