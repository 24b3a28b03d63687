//! The V5 device: its wire protocol and the session built on it.

pub mod device;
pub mod protocol;

use vstd::prelude::*;
use vstd::string::StringSliceAdditionalSpecFns;

verus! {

/// The USB vendor number under which V5 devices appear.
pub const VEX_VENDOR_ID: u16 = 0x2888;

/// The other USB vendor number under which V5 devices appear.
pub const VEX_VENDOR_ID_ALT: u16 = 0x0501;

/// Whether `needle` stands at index `at` of `hay`.
pub open spec fn occurs_at(needle: Seq<u8>, hay: Seq<u8>, at: int) -> bool {
    0 <= at && at + needle.len() <= hay.len() && hay.subrange(at, at + needle.len()) == needle
}

/// Whether `needle` stands somewhere in `hay`.
pub open spec fn occurs_in(needle: Seq<u8>, hay: Seq<u8>) -> bool {
    exists|at: int| occurs_at(needle, hay, at)
}

/// Whether a USB serial port with the vendor number `vid` and the
/// product string `product` belongs to a V5 device: by its vendor
/// number, or by a product string that holds `VEX` or `V5`.
pub open spec fn spec_is_v5_port(vid: u16, product: Seq<u8>) -> bool {
    ||| vid == VEX_VENDOR_ID
    ||| vid == VEX_VENDOR_ID_ALT
    ||| occurs_in(seq![0x56u8, 0x45u8, 0x58u8], product)
    ||| occurs_in(seq![0x56u8, 0x35u8], product)
}

fn matches_at(needle: &[u8], hay: &[u8], at: usize) -> (found: bool)
    requires
        at + needle@.len() <= hay@.len(),
    ensures
        found == occurs_at(needle@, hay@, at as int),
{
    let total = hay.len();
    let mut j: usize = 0;
    while j < needle.len()
        invariant
            j <= needle@.len(),
            total == hay@.len(),
            at + needle@.len() <= hay@.len(),
            forall|k: int| 0 <= k < j ==> hay@[at + k] == needle@[k],
        decreases needle.len() - j,
    {
        if hay[at + j] != needle[j] {
            proof {
                assert(hay@.subrange(at as int, at + needle@.len())[j as int] == hay@[at + j]);
            }
            return false;
        }
        j += 1;
    }
    proof {
        assert(hay@.subrange(at as int, at + needle@.len()) =~= needle@);
    }
    true
}

/// Whether `needle` stands somewhere in `hay`.
pub fn contains_bytes(hay: &[u8], needle: &[u8]) -> (found: bool)
    ensures
        found == occurs_in(needle@, hay@),
{
    if needle.len() > hay.len() {
        return false;
    }
    let last = hay.len() - needle.len();
    let mut i: usize = 0;
    while i < last
        invariant
            last == hay@.len() - needle@.len(),
            i <= last,
            forall|at: int| 0 <= at < i ==> !occurs_at(needle@, hay@, at),
        decreases last - i,
    {
        if matches_at(needle, hay, i) {
            return true;
        }
        i += 1;
    }
    matches_at(needle, hay, last)
}

/// Whether a USB serial port with the vendor number `vid` and the
/// product string `product` belongs to a V5 device.
pub fn is_v5_port(vid: u16, product: Option<&str>) -> (held: bool)
    ensures
        held == spec_is_v5_port(
            vid,
            match product {
                Some(name) => name.spec_bytes(),
                None => Seq::empty(),
            },
        ),
{
    if vid == VEX_VENDOR_ID || vid == VEX_VENDOR_ID_ALT {
        return true;
    }
    let name: &[u8] = match product {
        Some(name) => name.as_bytes(),
        None => {
            proof {
                let none = Seq::<u8>::empty();
                assert(forall|at: int| !occurs_at(seq![0x56u8, 0x45u8, 0x58u8], none, at));
                assert(forall|at: int| !occurs_at(seq![0x56u8, 0x35u8], none, at));
            }
            return false;
        },
    };
    let vex: [u8; 3] = [0x56, 0x45, 0x58];
    let v5: [u8; 2] = [0x56, 0x35];
    proof {
        assert(vex@ =~= seq![0x56u8, 0x45u8, 0x58u8]);
        assert(v5@ =~= seq![0x56u8, 0x35u8]);
    }
    contains_bytes(name, vex.as_slice()) || contains_bytes(name, v5.as_slice())
}

/// What the host knows of a USB serial port.
#[derive(Debug)]
pub struct UsbPort {
    /// The USB vendor number.
    pub vid: u16,
    /// The USB product number.
    pub pid: u16,
    /// The product string, where the device has one.
    pub product: Option<String>,
    /// The number of the USB interface behind the port, where the host
    /// tells it.
    pub interface: Option<u8>,
}

/// A serial port of the host.
#[derive(Debug)]
pub struct SerialPort {
    /// The name under which the host opens the port.
    pub port_name: String,
    /// What the host knows of the USB device behind the port; none for
    /// a port of another kind.
    pub usb: Option<UsbPort>,
}

/// The bytes of a product string, none where there is no string.
pub open spec fn product_bytes(product: Option<String>) -> Seq<u8> {
    match product {
        Some(name) => vstd::utf8::encode_utf8(name@),
        None => Seq::empty(),
    }
}

/// Whether a serial port belongs to a V5 device: a USB port with the
/// vendor number or the product string of one.
pub open spec fn is_v5(port: SerialPort) -> bool {
    match port.usb {
        Some(usb) => spec_is_v5_port(usb.vid, product_bytes(usb.product)),
        None => false,
    }
}

/// The ports among `ports` that belong to V5 devices, in their order.
pub open spec fn v5_ports(ports: Seq<SerialPort>) -> Seq<SerialPort>
    decreases ports.len(),
{
    if ports.len() == 0 {
        Seq::empty()
    } else if is_v5(ports.last()) {
        v5_ports(ports.drop_last()).push(ports.last())
    } else {
        v5_ports(ports.drop_last())
    }
}

fn port_is_v5(port: &SerialPort) -> (held: bool)
    ensures
        held == is_v5(*port),
{
    match &port.usb {
        None => false,
        Some(usb) => match &usb.product {
            None => is_v5_port(usb.vid, None),
            Some(name) => is_v5_port(usb.vid, Some(name.as_str())),
        },
    }
}

/// Picks the ports of V5 devices out of the serial ports of the host.
pub fn discover_v5_ports(ports: Vec<SerialPort>) -> (found: Vec<SerialPort>)
    ensures
        found@ == v5_ports(ports@),
{
    let mut ports = ports;
    let ghost all = ports@;
    let mut found: Vec<SerialPort> = Vec::new();
    let ghost mut done: nat = 0;
    while ports.len() > 0
        invariant
            done + ports@.len() == all.len(),
            ports@ == all.subrange(done as int, all.len() as int),
            found@ == v5_ports(all.subrange(0, done as int)),
        decreases ports@.len(),
    {
        let port = ports.remove(0);
        proof {
            assert(all.subrange(0, done as int + 1).drop_last() =~= all.subrange(0, done as int));
            assert(all.subrange(0, done as int + 1).last() == port);
            assert(ports@ =~= all.subrange(done as int + 1, all.len() as int));
            done = done + 1;
        }
        if port_is_v5(&port) {
            found.push(port);
        }
    }
    proof {
        assert(all.subrange(0, done as int) =~= all);
    }
    found
}

} // verus!
