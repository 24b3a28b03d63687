//! Operations on a device that may be a controller: the guarded use of
//! a radio channel, and what a device says of itself.

use crate::error::V5Error;
use crate::v5::device::device::{
    done_outcome, lemma_requested_step, requested, version_outcome, VexV5Device,
};
use crate::v5::device::{V5ControllerChannel, V5ControllerFlags, V5DeviceVersion, VexProduct};
use crate::v5::device::{CONNECTED_CABLE, CONNECTED_WIRELESS};
use crate::v5::protocol::vex::{
    extended_frame, simple_packet, SerialLink, Trace, DEFAULT_TIMEOUT_MS,
};
use crate::v5::protocol::VexDeviceCommand;
use vstd::prelude::*;

verus! {

/// The packet that asks a device for its version.
pub open spec fn version_request() -> Seq<u8> {
    simple_packet(VexDeviceCommand::GetSystemVersion.spec_code(), Seq::empty())
}

/// The payload of the request that switches a controller to `channel`.
pub open spec fn channel_payload(channel: V5ControllerChannel) -> Seq<u8> {
    seq![channel.spec_code()]
}

/// The bytes on the wire of the request that switches a controller
/// back to the pit channel.
pub open spec fn pit_request() -> Seq<u8> {
    extended_frame(
        VexDeviceCommand::SwitchChannel.spec_code(),
        channel_payload(V5ControllerChannel::PIT),
    )
}

/// Whether the device is a controller, as the last reply of `later`
/// tells, where `later` ends in the request for the version.
pub open spec fn controller_outcome(later: Trace) -> Result<bool, V5Error> {
    match version_outcome(later.last_reply()) {
        Ok(version) => Ok(version.product_type.spec_is_controller()),
        Err(e) => Err(e),
    }
}

/// Whether `later` is `earlier` after the channel `channel` has been
/// asked for, with the outcome `r`. The device is asked for its
/// version; where it is no controller, nothing more is sent and the
/// outcome is `Ok(false)`; where it is one, it is told to switch, and
/// the outcome is `Ok(true)` if it acknowledges.
pub open spec fn acquire_outcome(
    earlier: Trace,
    later: Trace,
    channel: V5ControllerChannel,
    r: Result<bool, V5Error>,
    timeout: Option<u64>,
) -> bool {
    ||| {
        &&& earlier.exchange(later, version_request(), DEFAULT_TIMEOUT_MS)
        &&& match controller_outcome(later) {
            Err(e) => r == Err::<bool, V5Error>(e),
            Ok(controller) => !controller && r == Ok::<bool, V5Error>(false),
        }
    }
    ||| {
        &&& earlier.exchange(later.before_last(), version_request(), DEFAULT_TIMEOUT_MS)
        &&& controller_outcome(later.before_last()) == Ok::<bool, V5Error>(true)
        &&& requested(
            later.before_last(),
            later,
            VexDeviceCommand::SwitchChannel.spec_code(),
            channel_payload(channel),
            timeout,
        )
        &&& r == match done_outcome(later, 1) {
            Ok(_) => Ok::<bool, V5Error>(true),
            Err(e) => Err(e),
        }
    }
}

/// What a guarded block gives once the channel has been given back:
/// its own failure before any other; else the failure to give the
/// channel back; else its result.
pub open spec fn merged<R>(outcome: Result<R, V5Error>, pit: Result<(), V5Error>) -> Result<
    R,
    V5Error,
> {
    match outcome {
        Err(e) => Err(e),
        Ok(value) => match pit {
            Ok(_) => Ok(value),
            Err(e) => Err(e),
        },
    }
}

/// The token of a guarded block: whether the device is a controller
/// whose channel has to be given back.
pub struct ChannelGuard {
    controller: bool,
}

impl ChannelGuard {
    /// Whether the device is a controller whose channel has to be
    /// given back.
    pub closed spec fn spec_is_controller(&self) -> bool {
        self.controller
    }

    /// Whether the device is a controller whose channel has to be
    /// given back.
    pub fn is_controller(&self) -> (controller: bool)
        ensures
            controller == self.spec_is_controller(),
    {
        self.controller
    }
}

/// Starts a guarded block: switches a controller to `channel`, and
/// does nothing to a brain. A session runs one guarded block at a time.
pub fn acquire_channel<T: SerialLink>(
    device: &mut VexV5Device<T>,
    channel: V5ControllerChannel,
) -> (r: Result<ChannelGuard, V5Error>)
    ensures
        final(device).spec_timeout() == old(device).spec_timeout(),
        final(device).spec_links_names() == old(device).spec_links_names(),
        final(device).spec_is_open() == old(device).spec_is_open(),
        final(device).spec_is_guarded() == (old(device).spec_is_guarded() || r is Ok),
        old(device).spec_is_guarded() ==> r is Err
            && r->Err_0 == V5Error::ProtocolState
            && final(device).trace() == old(device).trace(),
        !old(device).spec_is_guarded() ==> acquire_outcome(
            old(device).trace(),
            final(device).trace(),
            channel,
            match r {
                Ok(guard) => Ok(guard.spec_is_controller()),
                Err(e) => Err(e),
            },
            old(device).spec_timeout(),
        ),
{
    if device.is_guarded() {
        return Err(V5Error::ProtocolState);
    }
    let ghost earlier = device.trace();
    let controller = match device.is_controller() {
        Ok(c) => c,
        Err(e) => {
            return Err(e);
        },
    };
    if controller {
        let ghost probed = device.trace();
        match device.switch_channel(Some(channel)) {
            Ok(()) => {},
            Err(e) => {
                proof {
                    lemma_requested_step(
                        probed,
                        device.trace(),
                        VexDeviceCommand::SwitchChannel.spec_code(),
                        channel_payload(channel),
                        old(device).spec_timeout(),
                    );
                }
                return Err(e);
            },
        }
        proof {
            lemma_requested_step(
                probed,
                device.trace(),
                VexDeviceCommand::SwitchChannel.spec_code(),
                channel_payload(channel),
                old(device).spec_timeout(),
            );
        }
    }
    device.set_guarded(true);
    Ok(ChannelGuard { controller })
}

/// Ends a guarded block whose outcome was `outcome`: switches a
/// controller back to the pit channel, whatever the outcome. A failure
/// of the block comes before a failure to switch back.
pub fn release_channel<T: SerialLink, R>(
    device: &mut VexV5Device<T>,
    guard: ChannelGuard,
    outcome: Result<R, V5Error>,
) -> (r: Result<R, V5Error>)
    ensures
        final(device).spec_timeout() == old(device).spec_timeout(),
        final(device).spec_links_names() == old(device).spec_links_names(),
        final(device).spec_is_open() == old(device).spec_is_open(),
        !final(device).spec_is_guarded(),
        !guard.spec_is_controller() ==> r == outcome
            && final(device).trace() == old(device).trace(),
        guard.spec_is_controller() ==> requested(
            old(device).trace(),
            final(device).trace(),
            VexDeviceCommand::SwitchChannel.spec_code(),
            channel_payload(V5ControllerChannel::PIT),
            old(device).spec_timeout(),
        ) && final(device).trace().last_sent() == pit_request() && r == merged(
            outcome,
            done_outcome(final(device).trace(), 1),
        ),
{
    let ghost earlier = device.trace();
    let pit = if guard.controller {
        let pit = device.switch_channel(None);
        proof {
            lemma_requested_step(
                earlier,
                device.trace(),
                VexDeviceCommand::SwitchChannel.spec_code(),
                channel_payload(V5ControllerChannel::PIT),
                old(device).spec_timeout(),
            );
        }
        pit
    } else {
        Ok(())
    };
    device.set_guarded(false);
    match outcome {
        Err(e) => Err(e),
        Ok(value) => match pit {
            Ok(()) => Ok(value),
            Err(e) => Err(e),
        },
    }
}

/// Whether `later` is `earlier` after a guarded block on the channel
/// `channel`: the channel is asked for up to `acquired_at`, with the
/// outcome `acquired`; without it nothing more happens; with it the
/// block runs up to `closed_at` and gives `inner`, and a controller is
/// switched back to the pit channel whatever `inner` is. The deadline
/// of the session is `timeout` before the block and `timeout_after`
/// after it.
pub open spec fn guarded_run<V>(
    earlier: Trace,
    acquired_at: Trace,
    closed_at: Trace,
    later: Trace,
    acquired: Result<bool, V5Error>,
    inner: Result<V, V5Error>,
    r: Result<V, V5Error>,
    channel: V5ControllerChannel,
    timeout: Option<u64>,
    timeout_after: Option<u64>,
) -> bool {
    &&& acquire_outcome(earlier, acquired_at, channel, acquired, timeout)
    &&& match acquired {
        Err(e) => r == Err::<V, V5Error>(e) && later == acquired_at,
        Ok(controller) => if controller {
            &&& requested(
                closed_at,
                later,
                VexDeviceCommand::SwitchChannel.spec_code(),
                channel_payload(V5ControllerChannel::PIT),
                timeout_after,
            )
            &&& later.last_sent() == pit_request()
            &&& r == merged(inner, done_outcome(later, 1))
        } else {
            later == closed_at && r == inner
        },
    }
}

/// Whatever a guarded block on a controller gave, the last bytes sent
/// are the request to switch back to the pit channel.
pub proof fn lemma_guarded_run_ends_on_pit<V>(
    earlier: Trace,
    acquired_at: Trace,
    closed_at: Trace,
    later: Trace,
    inner: Result<V, V5Error>,
    r: Result<V, V5Error>,
    channel: V5ControllerChannel,
    timeout: Option<u64>,
    timeout_after: Option<u64>,
)
    requires
        guarded_run(
            earlier,
            acquired_at,
            closed_at,
            later,
            Ok::<bool, V5Error>(true),
            inner,
            r,
            channel,
            timeout,
            timeout_after,
        ),
    ensures
        later.writes.len() == closed_at.writes.len() + 1,
        later.last_sent() == pit_request(),
        inner is Err ==> r == inner,
{
    lemma_requested_step(
        closed_at,
        later,
        VexDeviceCommand::SwitchChannel.spec_code(),
        channel_payload(V5ControllerChannel::PIT),
        timeout_after,
    );
}

/// Runs `f` with a controller switched to `channel`, and switches the
/// controller back to the pit channel afterwards, whether `f` failed or
/// not. On a brain `f` runs and nothing is switched. Where the channel
/// cannot be had, `f` does not run. Where it runs, it runs on the
/// session as it is once the channel has been had, and the controller
/// is switched back from where `f` left the session.
pub fn with_channel<T: SerialLink, R, F: FnOnce(&mut VexV5Device<T>) -> Result<R, V5Error>>(
    device: &mut VexV5Device<T>,
    channel: V5ControllerChannel,
    f: F,
) -> (r: Result<R, V5Error>)
    requires
        forall|d: &mut VexV5Device<T>| call_requires(f, (d,)),
    ensures
        old(device).spec_is_guarded() ==> r is Err && r->Err_0 == V5Error::ProtocolState
            && final(device).trace() == old(device).trace(),
        !old(device).spec_is_guarded() ==> !final(device).spec_is_guarded() && exists|
            acquired_at: Trace,
            ran_at: Trace,
            acquired: Result<bool, V5Error>,
            inner: Result<R, V5Error>,
        |
            {
                &&& #[trigger] guarded_run(
                    old(device).trace(),
                    acquired_at,
                    ran_at,
                    final(device).trace(),
                    acquired,
                    inner,
                    r,
                    channel,
                    old(device).spec_timeout(),
                    final(device).spec_timeout(),
                )
                &&& acquired is Ok ==> exists|d: &mut VexV5Device<T>|
                    call_ensures(f, (d,), inner) && d.trace() == acquired_at && final(d).trace()
                        == ran_at
            },
{
    let ghost earlier = device.trace();
    let guard = match acquire_channel(device, channel) {
        Ok(guard) => guard,
        Err(e) => {
            proof {
                if !old(device).spec_is_guarded() {
                    assert(guarded_run(
                        earlier,
                        device.trace(),
                        device.trace(),
                        device.trace(),
                        Err::<bool, V5Error>(e),
                        Err::<R, V5Error>(e),
                        Err::<R, V5Error>(e),
                        channel,
                        old(device).spec_timeout(),
                        device.spec_timeout(),
                    ));
                }
            }
            return Err(e);
        },
    };
    let ghost acquired_at = device.trace();
    let ghost controller = guard.spec_is_controller();
    let inner = f(device);
    let ghost ran_at = device.trace();
    let r = release_channel(device, guard, inner);
    proof {
        assert(guarded_run(
            earlier,
            acquired_at,
            ran_at,
            device.trace(),
            Ok::<bool, V5Error>(controller),
            inner,
            r,
            channel,
            old(device).spec_timeout(),
            device.spec_timeout(),
        ));
    }
    r
}

/// How a controller is linked to its brain.
#[derive(Clone, Copy, Debug, PartialEq, Eq, Structural)]
pub enum ControllerLink {
    /// By cable.
    Tethered,
    /// By radio.
    Connected,
    /// Not at all.
    Disconnected,
}

/// How a controller with `flags` is linked to its brain: a cable comes
/// before the radio.
pub open spec fn spec_controller_link(flags: V5ControllerFlags) -> ControllerLink {
    if flags.spec_contains(V5ControllerFlags { bits: CONNECTED_CABLE }) {
        ControllerLink::Tethered
    } else if flags.spec_contains(V5ControllerFlags { bits: CONNECTED_WIRELESS }) {
        ControllerLink::Connected
    } else {
        ControllerLink::Disconnected
    }
}

/// How a controller with `flags` is linked to its brain.
pub fn controller_link(flags: V5ControllerFlags) -> (link: ControllerLink)
    ensures
        link == spec_controller_link(flags),
{
    if flags.contains(V5ControllerFlags::connected_cable()) {
        ControllerLink::Tethered
    } else if flags.contains(V5ControllerFlags::connected_wireless()) {
        ControllerLink::Connected
    } else {
        ControllerLink::Disconnected
    }
}

/// What a device says of itself: for a controller how it is linked,
/// and the first four octets of the firmware version.
#[derive(Clone, Copy, Debug, PartialEq, Eq)]
pub struct DeviceInfo {
    pub controller: Option<ControllerLink>,
    pub system_version: (u8, u8, u8, u8),
}

/// What the version of a device says of it.
pub open spec fn spec_describe(version: V5DeviceVersion) -> DeviceInfo {
    DeviceInfo {
        controller: match version.product_type {
            VexProduct::V5Brain(_) => None,
            VexProduct::V5Controller(flags) => Some(spec_controller_link(flags)),
        },
        system_version: (
            version.system_version.0,
            version.system_version.1,
            version.system_version.2,
            version.system_version.3,
        ),
    }
}

/// What the version of a device says of it.
pub fn describe(version: V5DeviceVersion) -> (info: DeviceInfo)
    ensures
        info == spec_describe(version),
{
    DeviceInfo {
        controller: match version.product_type {
            VexProduct::V5Brain(_) => None,
            VexProduct::V5Controller(flags) => Some(controller_link(flags)),
        },
        system_version: (
            version.system_version.0,
            version.system_version.1,
            version.system_version.2,
            version.system_version.3,
        ),
    }
}

/// Asks the device for its version and says what it is.
pub fn device_info<T: SerialLink>(device: &mut VexV5Device<T>) -> (r: Result<DeviceInfo, V5Error>)
    ensures
        old(device).same_state(final(device)),
        old(device).trace().exchange(final(device).trace(), version_request(), DEFAULT_TIMEOUT_MS),
        r == match version_outcome(final(device).trace().last_reply()) {
            Ok(version) => Ok::<DeviceInfo, V5Error>(spec_describe(version)),
            Err(e) => Err(e),
        },
{
    match device.get_device_version() {
        Ok(version) => Ok(describe(version)),
        Err(e) => Err(e),
    }
}

} // verus!
