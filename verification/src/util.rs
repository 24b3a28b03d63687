//! Helpers around a transfer: progress reports and device pairing.

use crate::error::V5Error;
use crate::v5::device::device::{payload_view, V5FileHandle, VexV5Device};
use crate::v5::protocol::vex::SerialLink;
use crate::v5::{contains_bytes, occurs_in};
use vstd::prelude::*;
use vstd::string::StringSliceAdditionalSpecFns;

verus! {

/// Something that shows the progress of a transfer, such as a progress
/// bar. Nothing is assumed of an implementation.
pub trait ProgressSink {
    /// Takes note that `bytes` more bytes have been moved.
    fn advance(&mut self, bytes: u32);
}

/// A sink that shows nothing.
pub struct NoProgress;

impl ProgressSink for NoProgress {
    fn advance(&mut self, bytes: u32) {
    }
}

/// A progress sink together with the record of what it was told.
pub struct Progress<P: ProgressSink> {
    sink: P,
    reported: Ghost<Seq<nat>>,
}

impl<P: ProgressSink> Progress<P> {
    /// Every amount handed to the sink, oldest first.
    pub closed spec fn reported(&self) -> Seq<nat> {
        self.reported@
    }

    /// The sink as it is now: the one that this progress was made
    /// over, after all that it has been told.
    pub closed spec fn sink(&self) -> P {
        self.sink
    }

    /// Whether this progress is `earlier` with more reports behind it.
    pub open spec fn extends(&self, earlier: &Self) -> bool {
        &&& self.reported().len() >= earlier.reported().len()
        &&& self.reported().subrange(0, earlier.reported().len() as int) == earlier.reported()
    }

    /// What has been reported since `earlier`.
    pub open spec fn since(&self, earlier: &Self) -> Seq<nat> {
        self.reported().subrange(earlier.reported().len() as int, self.reported().len() as int)
    }

    /// Progress over `sink`, with nothing reported yet.
    pub fn new(sink: P) -> (progress: Progress<P>)
        ensures
            progress.reported() == Seq::<nat>::empty(),
            progress.sink() == sink,
    {
        Progress { sink, reported: Ghost(Seq::empty()) }
    }

    /// Tells the sink that `bytes` more bytes have been moved.
    pub fn report(&mut self, bytes: u32)
        ensures
            final(self).reported() == old(self).reported().push(bytes as nat),
    {
        self.sink.advance(bytes);
        proof {
            self.reported = Ghost(self.reported@.push(bytes as nat));
        }
    }

    /// Gives the sink back, as it is after all that it has been told.
    pub fn into_inner(self) -> (sink: P)
        ensures
            sink == self.sink(),
    {
        self.sink
    }
}

/// Progress that has `added` behind what `earlier` had extends
/// `earlier`, and `added` is what was reported since.
pub proof fn lemma_reported<P: ProgressSink>(
    earlier: &Progress<P>,
    later: &Progress<P>,
    added: Seq<nat>,
)
    requires
        later.reported() == earlier.reported() + added,
    ensures
        later.extends(earlier),
        later.since(earlier) == added,
{
    assert(later.reported().subrange(0, earlier.reported().len() as int) =~= earlier.reported());
    assert(later.since(earlier) =~= added);
}

/// Progress extends itself, and nothing has been reported since.
pub proof fn lemma_nothing_reported<P: ProgressSink>(progress: &Progress<P>)
    ensures
        progress.extends(progress),
        progress.since(progress) == Seq::<nat>::empty(),
{
    assert(progress.reported() + Seq::<nat>::empty() =~= progress.reported());
    lemma_reported(progress, progress, Seq::<nat>::empty());
}

/// The sum of the amounts in `amounts`.
pub open spec fn total(amounts: Seq<nat>) -> nat
    decreases amounts.len(),
{
    if amounts.len() == 0 {
        0
    } else {
        total(amounts.drop_last()) + amounts.last()
    }
}

/// Writes `data` to the file of `handle` and reports each chunk to
/// `progress`: [`V5FileHandle::write_all_with`] as a function of its
/// own.
pub fn write_file_progress<T: SerialLink, P: ProgressSink>(
    handle: &V5FileHandle,
    device: &mut VexV5Device<T>,
    data: Vec<u8>,
    progress: &mut Progress<P>,
) -> (r: Result<usize, V5Error>)
    ensures
        old(device).same_state(final(device)),
        handle.upload_plan(data@.len(), old(device).spec_timeout()).uploaded(
            handle.usable(old(device)),
            old(device).trace(),
            final(device).trace(),
            data@,
            r,
        ),
        final(progress).reported() == old(progress).reported() + handle.upload_plan(
            data@.len(),
            old(device).spec_timeout(),
        ).reports(handle.usable(old(device)), r is Ok, old(device).trace(), final(device).trace()),
{
    handle.write_all_with(device, data.as_slice(), progress)
}

/// Reads the whole file of `handle` and reports each chunk to
/// `progress`: [`V5FileHandle::read_all_with`] as a function of its
/// own.
pub fn read_file_progress<T: SerialLink, P: ProgressSink>(
    handle: &V5FileHandle,
    device: &mut VexV5Device<T>,
    progress: &mut Progress<P>,
) -> (r: Result<Vec<u8>, V5Error>)
    ensures
        old(device).same_state(final(device)),
        handle.download_plan(old(device).spec_timeout()).downloaded(
            handle.usable(old(device)),
            old(device).trace(),
            final(device).trace(),
            payload_view(r),
        ),
        final(progress).reported() == old(progress).reported() + handle.download_plan(
            old(device).spec_timeout(),
        ).reports(handle.usable(old(device)), r is Ok, old(device).trace(), final(device).trace()),
{
    handle.read_all_with(device, progress)
}

/// What a serial endpoint of a V5 device is for.
#[derive(Clone, Copy, Debug, PartialEq, Eq, Structural)]
pub enum VexSerialClass {
    /// The endpoint that a user program talks through.
    User,
    /// The endpoint that takes commands.
    System,
    /// The endpoint of a controller.
    Controller,
    /// Not known.
    Unknown,
}

/// The number of the USB interface of the system endpoint of a brain.
pub const SYSTEM_INTERFACE: u8 = 0;

/// The number of the USB interface of the user endpoint of a brain.
pub const USER_INTERFACE: u8 = 2;

/// What an endpoint with the product string `product` behind the USB
/// interface number `interface` is for. A product string that holds
/// `Controller` marks a controller; the interface number, or failing
/// that the words `User` and `Communications` in the product string,
/// tell the user endpoint of a brain from its system endpoint.
pub open spec fn spec_classify(product: Seq<u8>, interface: Option<u8>) -> VexSerialClass {
    if occurs_in("Controller".spec_bytes(), product) {
        VexSerialClass::Controller
    } else if interface == Some(USER_INTERFACE) || occurs_in("User".spec_bytes(), product) {
        VexSerialClass::User
    } else if interface == Some(SYSTEM_INTERFACE) || occurs_in(
        "Communications".spec_bytes(),
        product,
    ) {
        VexSerialClass::System
    } else {
        VexSerialClass::Unknown
    }
}

/// Says what an endpoint is for.
pub fn classify(product: &str, interface: Option<u8>) -> (class: VexSerialClass)
    ensures
        class == spec_classify(product.spec_bytes(), interface),
{
    let name = product.as_bytes();
    let number = match interface {
        Some(n) => n,
        None => 0xFF,
    };
    let numbered = interface.is_some();
    if contains_bytes(name, "Controller".as_bytes()) {
        VexSerialClass::Controller
    } else if (numbered && number == USER_INTERFACE) || contains_bytes(name, "User".as_bytes()) {
        VexSerialClass::User
    } else if (numbered && number == SYSTEM_INTERFACE) || contains_bytes(
        name,
        "Communications".as_bytes(),
    ) {
        VexSerialClass::System
    } else {
        VexSerialClass::Unknown
    }
}

/// One serial endpoint of a V5 device.
#[derive(Clone, Debug)]
pub struct VexSerialInfo {
    /// The name under which the host opens the port.
    pub port_name: String,
    /// What the endpoint is for.
    pub class: VexSerialClass,
    /// The product string of the USB device, where it has one.
    pub product: Option<String>,
}

/// A V5 device as the host sees it: one endpoint, or the system and
/// the user endpoint of a brain.
#[derive(Clone, Debug)]
pub enum DevicePair {
    Single(VexSerialInfo),
    Double(VexSerialInfo, VexSerialInfo),
}

/// The devices that a list of endpoints stands for: a system endpoint
/// and the user endpoint that follows it are one brain; every other
/// endpoint is a device by itself.
pub open spec fn pair_up(ports: Seq<VexSerialInfo>) -> Seq<DevicePair>
    decreases ports.len(),
{
    if ports.len() == 0 {
        Seq::empty()
    } else {
        let before = pair_up(ports.drop_last());
        let port = ports.last();
        if port.class == VexSerialClass::User && before.len() > 0 {
            match before.last() {
                DevicePair::Single(system) => if system.class == VexSerialClass::System {
                    before.drop_last().push(DevicePair::Double(system, port))
                } else {
                    before.push(DevicePair::Single(port))
                },
                DevicePair::Double(_, _) => before.push(DevicePair::Single(port)),
            }
        } else {
            before.push(DevicePair::Single(port))
        }
    }
}

/// Groups a list of endpoints, in the order in which the host lists
/// them, into devices.
pub fn pair_devices(ports: Vec<VexSerialInfo>) -> (pairs: Vec<DevicePair>)
    ensures
        pairs@ == pair_up(ports@),
{
    let mut ports = ports;
    let ghost all = ports@;
    let mut pairs: Vec<DevicePair> = Vec::new();
    let ghost mut done: nat = 0;
    while ports.len() > 0
        invariant
            done + ports@.len() == all.len(),
            ports@ == all.subrange(done as int, all.len() as int),
            pairs@ == pair_up(all.subrange(0, done as int)),
        decreases ports@.len(),
    {
        let port = ports.remove(0);
        proof {
            assert(all.subrange(0, done as int + 1).drop_last() =~= all.subrange(0, done as int));
            assert(all.subrange(0, done as int + 1).last() == port);
            assert(ports@ =~= all.subrange(done as int + 1, all.len() as int));
        }
        let is_user = match port.class {
            VexSerialClass::User => true,
            _ => false,
        };
        let last = if is_user {
            pairs.pop()
        } else {
            None
        };
        match last {
            None => {
                pairs.push(DevicePair::Single(port));
            },
            Some(DevicePair::Single(system)) => {
                let is_system = match system.class {
                    VexSerialClass::System => true,
                    _ => false,
                };
                if is_system {
                    pairs.push(DevicePair::Double(system, port));
                } else {
                    pairs.push(DevicePair::Single(system));
                    pairs.push(DevicePair::Single(port));
                }
            },
            Some(DevicePair::Double(a, b)) => {
                pairs.push(DevicePair::Double(a, b));
                pairs.push(DevicePair::Single(port));
            },
        }
        proof {
            done = done + 1;
            assert(pairs@ =~= pair_up(all.subrange(0, done as int)));
        }
    }
    proof {
        assert(all.subrange(0, done as int) =~= all);
    }
    pairs
}

/// Which of `count` devices is used: the only one; of several the one
/// that was chosen; none where there is none or the choice names none.
pub open spec fn spec_choose_device(count: nat, selection: Option<usize>) -> Result<
    usize,
    V5Error,
> {
    if count == 0 {
        Err(V5Error::NoDevices)
    } else if count == 1 {
        Ok(0)
    } else {
        match selection {
            Some(index) => if index < count {
                Ok(index)
            } else {
                Err(V5Error::Ambiguous)
            },
            None => Err(V5Error::Ambiguous),
        }
    }
}

/// Says which of `count` devices is used, given the choice that the
/// user made among them, if any.
pub fn choose_device(count: usize, selection: Option<usize>) -> (r: Result<usize, V5Error>)
    ensures
        r == spec_choose_device(count as nat, selection),
{
    if count == 0 {
        Err(V5Error::NoDevices)
    } else if count == 1 {
        Ok(0)
    } else {
        match selection {
            Some(index) => if index < count {
                Ok(index)
            } else {
                Err(V5Error::Ambiguous)
            },
            None => Err(V5Error::Ambiguous),
        }
    }
}

/// Whether `r` is what the choice `selection` among `pairs` gives: the
/// device that it names, or a failure where it names none.
pub open spec fn picked(
    pairs: Seq<DevicePair>,
    selection: Option<usize>,
    r: Result<DevicePair, V5Error>,
) -> bool {
    match spec_choose_device(pairs.len(), selection) {
        Ok(index) => r is Ok && r->Ok_0 == pairs[index as int],
        Err(e) => r is Err && r->Err_0 == e,
    }
}

/// Finds the device to use among the endpoints `ports`: the only
/// device; of several the one whose index `select`, called with their
/// number, gives. No device at all, and a choice that names none, are
/// failures.
pub fn find_devices<F: FnOnce(usize) -> Option<usize>>(
    ports: Vec<VexSerialInfo>,
    select: F,
) -> (r: Result<DevicePair, V5Error>)
    requires
        forall|count: usize| call_requires(select, (count,)),
    ensures
        pair_up(ports@).len() <= 1 ==> picked(pair_up(ports@), None, r),
        pair_up(ports@).len() > 1 ==> exists|selection: Option<usize>|
            call_ensures(select, (pair_up(ports@).len() as usize,), selection) && #[trigger] picked(
                pair_up(ports@),
                selection,
                r,
            ),
{
    let mut pairs = pair_devices(ports);
    let ghost all = pairs@;
    let count = pairs.len();
    let selection = if count > 1 {
        select(count)
    } else {
        None
    };
    let r = match choose_device(count, selection) {
        Ok(index) => Ok(pairs.remove(index)),
        Err(e) => Err(e),
    };
    proof {
        assert(picked(all, selection, r));
    }
    r
}

} // verus!
