//! Whole transfers: a file to the device, a file from the device.

use crate::checksum::{crc32, crc32_checksum};
use crate::device_commands::{
    acquire_channel, acquire_outcome, channel_payload, controller_outcome, guarded_run, merged,
    pit_request, release_channel, version_request,
};
use crate::error::V5Error;
use crate::util::{lemma_nothing_reported, lemma_reported, Progress, ProgressSink};
use crate::v5::device::device::{
    check_all, done_outcome, lemma_request_took, name_bytes, open_outcome, payload_view, queried,
    requested, VexV5Device,
};
use crate::v5::device::transfer::{lemma_wrote_took, Transfer};
use crate::v5::device::{
    is_ascii_bytes, name_field, truncate_name, write_payload, zero_padded, V5ControllerChannel, VexFileMetadata, VexFileMode,
    VexFileTarget, VexFiletransferMetadata, VexInitialFileMetadata, VexVID, USER_FLASH_BASE,
};
use crate::v5::protocol::vex::{
    extended_frame, lemma_took_both, lemma_took_nothing, lemma_took_one, SerialLink, Trace,
    DEFAULT_TIMEOUT_MS,
};
use crate::v5::protocol::{VexDeviceCommand, VexFiletransferFinished};
use vstd::prelude::*;

verus! {

/// The size above which a download through a controller is confirmed
/// before it starts: 16 KiB.
pub const CONFIRM_ABOVE: u32 = 16384;

/// The version word of an uploaded file.
pub const UPLOAD_VERSION: u32 = 0x0100_0000;

/// What the brain is told when a transfer is closed: what the caller
/// asked for where the transfer went well, nothing otherwise.
pub open spec fn exit_code<V>(moved: Result<V, V5Error>, on_exit: VexFiletransferFinished) -> u8 {
    if moved is Ok {
        on_exit.spec_code()
    } else {
        VexFiletransferFinished::DoNothing.spec_code()
    }
}

/// Whether `later` is `earlier` after an upload through a file opened
/// for it: the file is opened at `opened_at`; in a session that links
/// names the name is linked at `linked_at`; the chunks are written up
/// to `written_at`, with the outcome `written` and `reported` to the
/// progress sink; and the file is closed whatever happened after it
/// was opened. The first failure is the outcome.
pub open spec fn upload_run(
    earlier: Trace,
    opened_at: Trace,
    linked_at: Trace,
    written_at: Trace,
    later: Trace,
    written: Result<usize, V5Error>,
    r: Result<usize, V5Error>,
    reported: Seq<nat>,
    metadata: VexInitialFileMetadata,
    name: Seq<u8>,
    data: Seq<u8>,
    links: bool,
    on_exit: VexFiletransferFinished,
    timeout: Option<u64>,
) -> bool {
    &&& requested(
        earlier,
        opened_at,
        VexDeviceCommand::OpenFile.spec_code(),
        metadata.open_payload(name),
        timeout,
    )
    &&& match open_outcome(opened_at) {
        Err(e) => r == Err::<usize, V5Error>(e) && later == opened_at && reported == Seq::<
            nat,
        >::empty(),
        Ok(transfer) => {
            &&& if links {
                requested(
                    opened_at,
                    linked_at,
                    VexDeviceCommand::SetLinkedFilename.spec_code(),
                    metadata.link_payload(name),
                    timeout,
                )
            } else {
                linked_at == opened_at
            }
            &&& if links && done_outcome(linked_at, 26) is Err {
                &&& written_at == linked_at
                &&& reported == Seq::<nat>::empty()
                &&& Err::<(), V5Error>(written->Err_0) == done_outcome(linked_at, 26)
                &&& written is Err
            } else {
                let plan = Transfer::upload(metadata.addr, transfer, data.len(), timeout);
                &&& plan.uploaded(true, linked_at, written_at, data, written)
                &&& reported == plan.reports(true, written is Ok, linked_at, written_at)
            }
            &&& requested(
                written_at,
                later,
                VexDeviceCommand::ExitFile.spec_code(),
                seq![exit_code(written, on_exit)],
                timeout,
            )
            &&& r == merged(written, done_outcome(later, 1))
        },
    }
}

/// Whether `later` is `earlier` after an upload through a file opened
/// for it, with the outcome `r` and `reported` to the progress sink.
/// In a session that holds an open file already nothing happens.
pub open spec fn uploaded(
    earlier: Trace,
    later: Trace,
    r: Result<usize, V5Error>,
    reported: Seq<nat>,
    was_open: bool,
    metadata: VexInitialFileMetadata,
    name: Seq<u8>,
    data: Seq<u8>,
    links: bool,
    on_exit: VexFiletransferFinished,
    timeout: Option<u64>,
) -> bool {
    if was_open {
        r == Err::<usize, V5Error>(V5Error::ProtocolState) && later == earlier && reported == Seq::<
            nat,
        >::empty()
    } else {
        exists|
            opened_at: Trace,
            linked_at: Trace,
            written_at: Trace,
            written: Result<usize, V5Error>,
        |
            upload_run(
                earlier,
                opened_at,
                linked_at,
                written_at,
                later,
                written,
                r,
                reported,
                metadata,
                name,
                data,
                links,
                on_exit,
                timeout,
            )
    }
}

/// Uploads `data` through a file opened for it with `metadata` under
/// the name field `name`: opens the file, links the name where the
/// session does so, writes the chunks, and closes the file. Once the
/// file is open it is closed on every path: with `on_exit` where all
/// chunks were written, telling the brain to do nothing otherwise.
pub fn upload_transfer<T: SerialLink, P: ProgressSink>(
    device: &mut VexV5Device<T>,
    name: &[u8; 24],
    data: &[u8],
    metadata: VexInitialFileMetadata,
    on_exit: VexFiletransferFinished,
    progress: &mut Progress<P>,
) -> (r: Result<usize, V5Error>)
    ensures
        old(device).same_settings(final(device)),
        final(device).spec_is_open() == old(device).spec_is_open(),
        final(progress).extends(old(progress)),
        uploaded(
            old(device).trace(),
            final(device).trace(),
            r,
            final(progress).since(old(progress)),
            old(device).spec_is_open(),
            metadata,
            name@,
            data@,
            old(device).spec_links_names(),
            on_exit,
            old(device).spec_timeout(),
        ),
{
    let ghost earlier = device.trace();
    proof {
        lemma_nothing_reported(progress);
    }
    if device.is_open() {
        return Err(V5Error::ProtocolState);
    }
    let mut handle = match device.open_named(name, metadata) {
        Ok(handle) => handle,
        Err(e) => {
            proof {
                assert(upload_run(
                    earlier,
                    device.trace(),
                    device.trace(),
                    device.trace(),
                    device.trace(),
                    Err(e),
                    Err(e),
                    Seq::<nat>::empty(),
                    metadata,
                    name@,
                    data@,
                    old(device).spec_links_names(),
                    on_exit,
                    old(device).spec_timeout(),
                ));
            }
            return Err(e);
        },
    };
    let ghost opened_at = device.trace();
    let linked = if device.links_names() {
        device.link_filename(&handle)
    } else {
        Ok(())
    };
    let ghost linked_at = device.trace();
    let written = match linked {
        Err(e) => Err(e),
        Ok(()) => handle.write_all_with(device, data, progress),
    };
    let ghost written_at = device.trace();
    proof {
        if linked is Ok {
            lemma_reported(
                old(progress),
                progress,
                handle.upload_plan(data@.len(), old(device).spec_timeout()).reports(
                    true,
                    written is Ok,
                    linked_at,
                    written_at,
                ),
            );
        } else {
            lemma_reported(old(progress), progress, Seq::<nat>::empty());
        }
    }
    let on_exit_now = match written {
        Ok(_) => on_exit,
        Err(_) => VexFiletransferFinished::DoNothing,
    };
    let closed = handle.close(device, on_exit_now);
    let r = match written {
        Err(e) => Err(e),
        Ok(n) => match closed {
            Ok(_) => Ok(n),
            Err(e) => Err(e),
        },
    };
    proof {
        assert(upload_run(
            earlier,
            opened_at,
            linked_at,
            written_at,
            device.trace(),
            written,
            r,
            progress.since(old(progress)),
            metadata,
            name@,
            data@,
            old(device).spec_links_names(),
            on_exit,
            old(device).spec_timeout(),
        ));
    }
    r
}

/// Whether `later` is `earlier` after a download through a file
/// opened for it: the file is opened at `opened_at`; the chunks are
/// read up to `read_at`, with the outcome `read` and `reported` to the
/// progress sink; and the file is closed whatever happened after it
/// was opened. The first failure is the outcome.
pub open spec fn download_run(
    earlier: Trace,
    opened_at: Trace,
    read_at: Trace,
    later: Trace,
    read: Result<Seq<u8>, V5Error>,
    r: Result<Seq<u8>, V5Error>,
    reported: Seq<nat>,
    metadata: VexInitialFileMetadata,
    name: Seq<u8>,
    on_exit: VexFiletransferFinished,
    timeout: Option<u64>,
) -> bool {
    &&& requested(
        earlier,
        opened_at,
        VexDeviceCommand::OpenFile.spec_code(),
        metadata.open_payload(name),
        timeout,
    )
    &&& match open_outcome(opened_at) {
        Err(e) => r == Err::<Seq<u8>, V5Error>(e) && later == opened_at && reported == Seq::<
            nat,
        >::empty(),
        Ok(transfer) => {
            &&& ({
                let plan = Transfer::download(metadata.addr, transfer, timeout);
                &&& plan.downloaded(true, opened_at, read_at, read)
                &&& reported == plan.reports(true, read is Ok, opened_at, read_at)
            })
            &&& requested(
                read_at,
                later,
                VexDeviceCommand::ExitFile.spec_code(),
                seq![exit_code(read, on_exit)],
                timeout,
            )
            &&& r == merged(read, done_outcome(later, 1))
        },
    }
}

/// Whether `later` is `earlier` after a download through a file opened
/// for it, with the outcome `r` and `reported` to the progress sink.
/// In a session that holds an open file already nothing happens.
pub open spec fn downloaded(
    earlier: Trace,
    later: Trace,
    r: Result<Seq<u8>, V5Error>,
    reported: Seq<nat>,
    was_open: bool,
    metadata: VexInitialFileMetadata,
    name: Seq<u8>,
    on_exit: VexFiletransferFinished,
    timeout: Option<u64>,
) -> bool {
    if was_open {
        r == Err::<Seq<u8>, V5Error>(V5Error::ProtocolState) && later == earlier && reported
            == Seq::<nat>::empty()
    } else {
        exists|opened_at: Trace, read_at: Trace, read: Result<Seq<u8>, V5Error>|
            download_run(
                earlier,
                opened_at,
                read_at,
                later,
                read,
                r,
                reported,
                metadata,
                name,
                on_exit,
                timeout,
            )
    }
}

/// Downloads a file through a handle opened for it with `metadata`
/// under the name field `name`: opens the file, reads the chunks, and
/// closes the file. Once the file is open it is closed on every path:
/// with `on_exit` where all chunks were read, telling the brain to do
/// nothing otherwise.
pub fn download_transfer<T: SerialLink, P: ProgressSink>(
    device: &mut VexV5Device<T>,
    name: &[u8; 24],
    metadata: VexInitialFileMetadata,
    on_exit: VexFiletransferFinished,
    progress: &mut Progress<P>,
) -> (r: Result<Vec<u8>, V5Error>)
    ensures
        old(device).same_settings(final(device)),
        final(device).spec_is_open() == old(device).spec_is_open(),
        final(progress).extends(old(progress)),
        downloaded(
            old(device).trace(),
            final(device).trace(),
            payload_view(r),
            final(progress).since(old(progress)),
            old(device).spec_is_open(),
            metadata,
            name@,
            on_exit,
            old(device).spec_timeout(),
        ),
{
    let ghost earlier = device.trace();
    proof {
        lemma_nothing_reported(progress);
    }
    if device.is_open() {
        return Err(V5Error::ProtocolState);
    }
    let mut handle = match device.open_named(name, metadata) {
        Ok(handle) => handle,
        Err(e) => {
            proof {
                assert(download_run(
                    earlier,
                    device.trace(),
                    device.trace(),
                    device.trace(),
                    Err(e),
                    Err(e),
                    Seq::<nat>::empty(),
                    metadata,
                    name@,
                    on_exit,
                    old(device).spec_timeout(),
                ));
            }
            return Err(e);
        },
    };
    let ghost opened_at = device.trace();
    let read = handle.read_all_with(device, progress);
    let ghost read_at = device.trace();
    proof {
        lemma_reported(
            old(progress),
            progress,
            handle.download_plan(old(device).spec_timeout()).reports(
                true,
                read is Ok,
                opened_at,
                read_at,
            ),
        );
    }
    let on_exit_now = match read {
        Ok(_) => on_exit,
        Err(_) => VexFiletransferFinished::DoNothing,
    };
    let closed = handle.close(device, on_exit_now);
    let ghost read_view = payload_view(read);
    let r = match read {
        Err(e) => Err(e),
        Ok(bytes) => match closed {
            Ok(_) => Ok(bytes),
            Err(e) => Err(e),
        },
    };
    proof {
        assert(download_run(
            earlier,
            opened_at,
            read_at,
            device.trace(),
            read_view,
            payload_view(r),
            progress.since(old(progress)),
            metadata,
            name@,
            on_exit,
            old(device).spec_timeout(),
        ));
    }
    r
}

/// The metadata that a file of the bytes `data` is uploaded with: to
/// user flash at its base address, free to overwrite, in the user's
/// namespace, of type `bin`, with the V5 CRC-32 of `data`.
pub open spec fn upload_metadata(data: Seq<u8>, timestamp: u32) -> VexInitialFileMetadata {
    VexInitialFileMetadata {
        function: VexFileMode::Upload(VexFileTarget::FLASH, true),
        vid: VexVID::USER,
        options: 0,
        length: data.len() as u32,
        addr: USER_FLASH_BASE,
        crc: crc32(data),
        file_type: VexInitialFileMetadata::spec_at(timestamp).file_type,
        timestamp,
        version: UPLOAD_VERSION,
    }
}

/// The metadata that the file described by `file` is downloaded with:
/// from flash at the address where the device holds it.
pub open spec fn download_metadata(file: VexFileMetadata) -> VexInitialFileMetadata {
    VexInitialFileMetadata {
        function: VexFileMode::Download(VexFileTarget::FLASH, false),
        vid: VexVID::USER,
        options: 0,
        length: file.size,
        addr: file.addr,
        crc: file.crc,
        file_type: file.file_type,
        timestamp: file.timestamp,
        version: file.version,
    }
}

/// Whether `later` is `earlier` after the upload of a file within a
/// guarded block on the upload channel: the upload runs where the
/// channel could be had, and not otherwise.
pub open spec fn upload_file_run(
    earlier: Trace,
    acquired_at: Trace,
    closed_at: Trace,
    later: Trace,
    acquired: Result<bool, V5Error>,
    inner: Result<usize, V5Error>,
    r: Result<usize, V5Error>,
    reported: Seq<nat>,
    was_open: bool,
    metadata: VexInitialFileMetadata,
    name: Seq<u8>,
    data: Seq<u8>,
    links: bool,
    on_exit: VexFiletransferFinished,
    timeout: Option<u64>,
) -> bool {
    &&& guarded_run(
        earlier,
        acquired_at,
        closed_at,
        later,
        acquired,
        inner,
        r,
        V5ControllerChannel::UPLOAD,
        timeout,
        timeout,
    )
    &&& acquired is Ok ==> uploaded(
        acquired_at,
        closed_at,
        inner,
        reported,
        was_open,
        metadata,
        name,
        data,
        links,
        on_exit,
        timeout,
    )
    &&& acquired is Err ==> reported == Seq::<nat>::empty()
}

/// The switch of a controller to `channel` as a run of requests: one
/// request for a controller, none for a brain.
pub open spec fn switch_requests(controller: bool, channel: V5ControllerChannel) -> Seq<Seq<u8>> {
    if controller {
        seq![extended_frame(VexDeviceCommand::SwitchChannel.spec_code(), channel_payload(channel))]
    } else {
        Seq::empty()
    }
}

/// The requests that move an upload once its file is open: one
/// `WriteFile` for each chunk of the bytes that the device, which
/// answered `answered`, expects, then `ExitFile` with what the brain
/// is to do.
pub open spec fn moving_requests(
    metadata: VexInitialFileMetadata,
    data: Seq<u8>,
    answered: VexFiletransferMetadata,
    on_exit: VexFiletransferFinished,
    timeout: Option<u64>,
) -> Seq<Seq<u8>> {
    let plan = Transfer::upload(metadata.addr, answered, data.len(), timeout);
    plan.write_frames(data, plan.count()) + seq![
        extended_frame(VexDeviceCommand::ExitFile.spec_code(), seq![on_exit.spec_code()]),
    ]
}

/// The requests of an upload that went well, in order: the request
/// for the version; for a controller the switch to the upload channel;
/// `OpenFile` with the metadata and the name; one `WriteFile` for each
/// chunk; `ExitFile`; and for a controller the switch back to the pit
/// channel.
pub open spec fn upload_requests(
    controller: bool,
    metadata: VexInitialFileMetadata,
    name: Seq<u8>,
    data: Seq<u8>,
    answered: VexFiletransferMetadata,
    on_exit: VexFiletransferFinished,
    timeout: Option<u64>,
) -> Seq<Seq<u8>> {
    seq![version_request()] + switch_requests(controller, V5ControllerChannel::UPLOAD) + seq![
        extended_frame(VexDeviceCommand::OpenFile.spec_code(), metadata.open_payload(name)),
    ] + moving_requests(metadata, data, answered, on_exit, timeout) + switch_requests(
        controller,
        V5ControllerChannel::PIT,
    )
}

/// The number of requests that come before `OpenFile` in an upload:
/// the request for the version and, for a controller, the switch.
pub open spec fn before_open(controller: bool) -> int {
    if controller {
        2
    } else {
        1
    }
}

/// The requests of an upload by their place: first the request for the
/// version; for a controller then the switch to the upload channel;
/// then `OpenFile`; then, for each chunk `k` of the layout, `WriteFile`
/// of the chunk padded with zeros to a multiple of four bytes, for the
/// address of the file plus `k` chunks; then `ExitFile`; and for a
/// controller last the switch to the pit channel.
pub proof fn lemma_upload_requests_at(
    controller: bool,
    metadata: VexInitialFileMetadata,
    name: Seq<u8>,
    data: Seq<u8>,
    answered: VexFiletransferMetadata,
    on_exit: VexFiletransferFinished,
    timeout: Option<u64>,
    k: int,
)
    ensures
        ({
            let requests = upload_requests(
                controller,
                metadata,
                name,
                data,
                answered,
                on_exit,
                timeout,
            );
            let plan = Transfer::upload(metadata.addr, answered, data.len(), timeout);
            let first = before_open(controller);
            let switches: int = if controller {
                1
            } else {
                0
            };
            &&& requests.len() == first + 1 + plan.count() + 1 + switches
            &&& requests[0] == version_request()
            &&& controller ==> requests[1] == extended_frame(
                VexDeviceCommand::SwitchChannel.spec_code(),
                channel_payload(V5ControllerChannel::UPLOAD),
            )
            &&& requests[first] == extended_frame(
                VexDeviceCommand::OpenFile.spec_code(),
                metadata.open_payload(name),
            )
            &&& 0 <= k < plan.count() ==> requests[first + 1 + k] == extended_frame(
                VexDeviceCommand::WriteFile.spec_code(),
                write_payload(
                    (metadata.addr + k * plan.chunk) as u32,
                    zero_padded(data.subrange(k * plan.chunk, k * plan.chunk + plan.len(k))),
                ),
            )
            &&& requests[first + 1 + plan.count()] == extended_frame(
                VexDeviceCommand::ExitFile.spec_code(),
                seq![on_exit.spec_code()],
            )
            &&& controller ==> requests[requests.len() - 1] == pit_request()
        }),
{
}

/// The channel once had: the link took the request for the version
/// and, for a controller, the switch to `channel`. Gives the trace
/// after the request for the version.
pub proof fn lemma_channel_taken(
    earlier: Trace,
    acquired_at: Trace,
    channel: V5ControllerChannel,
    controller: bool,
    timeout: Option<u64>,
) -> (probed: Trace)
    requires
        acquire_outcome(earlier, acquired_at, channel, Ok(controller), timeout),
    ensures
        earlier.took(probed, seq![version_request()]),
        controller_outcome(probed) == Ok::<bool, V5Error>(controller),
        probed.took(acquired_at, switch_requests(controller, channel)),
{
    let probed = if controller {
        acquired_at.before_last()
    } else {
        acquired_at
    };
    lemma_took_one(earlier, probed, version_request(), DEFAULT_TIMEOUT_MS);
    if controller {
        lemma_request_took(
            probed,
            acquired_at,
            VexDeviceCommand::SwitchChannel.spec_code(),
            channel_payload(channel),
            timeout,
            check_all(),
        );
    } else {
        lemma_took_nothing(probed);
    }
    probed
}

/// What the run of an upload that went well in a session that links
/// no names says step by step: the device opened the file, every chunk
/// of the layout was written, and the file was closed with what the
/// caller asked for.
pub proof fn lemma_upload_run_steps(
    earlier: Trace,
    opened_at: Trace,
    linked_at: Trace,
    written_at: Trace,
    later: Trace,
    written: Result<usize, V5Error>,
    moved: usize,
    reported: Seq<nat>,
    metadata: VexInitialFileMetadata,
    name: Seq<u8>,
    data: Seq<u8>,
    on_exit: VexFiletransferFinished,
    timeout: Option<u64>,
)
    requires
        upload_run(
            earlier,
            opened_at,
            linked_at,
            written_at,
            later,
            written,
            Ok(moved),
            reported,
            metadata,
            name,
            data,
            false,
            on_exit,
            timeout,
        ),
    ensures
        requested(
            earlier,
            opened_at,
            VexDeviceCommand::OpenFile.spec_code(),
            metadata.open_payload(name),
            timeout,
        ),
        open_outcome(opened_at) matches Ok(answered) && {
            let plan = Transfer::upload(metadata.addr, answered, data.len(), timeout);
            &&& plan.wrote(opened_at, written_at, plan.count(), data)
            &&& moved == plan.size
            &&& reported == plan.lens(plan.count())
        },
        requested(
            written_at,
            later,
            VexDeviceCommand::ExitFile.spec_code(),
            seq![on_exit.spec_code()],
            timeout,
        ),
        done_outcome(later, 1) is Ok,
{
    reveal(Transfer::uploaded);
}

/// The payload of `OpenFile` has 52 bytes.
pub proof fn lemma_open_payload_len(metadata: VexInitialFileMetadata, name: Seq<u8>)
    requires
        name.len() == 24,
    ensures
        metadata.open_payload(name).len() == 52,
{
}

/// The file of an upload that went well once opened, written and
/// closed: the link took `OpenFile`, then one `WriteFile` for each
/// chunk and `ExitFile`.
pub proof fn lemma_transfer_taken(
    earlier: Trace,
    opened_at: Trace,
    written_at: Trace,
    later: Trace,
    plan: Transfer,
    open: Seq<u8>,
    data: Seq<u8>,
    on_exit: VexFiletransferFinished,
)
    requires
        open.len() == 52,
        requested(earlier, opened_at, VexDeviceCommand::OpenFile.spec_code(), open, plan.timeout),
        open_outcome(opened_at) is Ok,
        plan.wrote(opened_at, written_at, plan.count(), data),
        requested(
            written_at,
            later,
            VexDeviceCommand::ExitFile.spec_code(),
            seq![on_exit.spec_code()],
            plan.timeout,
        ),
        done_outcome(later, 1) is Ok,
    ensures
        earlier.took(opened_at, seq![extended_frame(VexDeviceCommand::OpenFile.spec_code(), open)]),
        opened_at.took(
            later,
            plan.write_frames(data, plan.count()) + seq![
                extended_frame(VexDeviceCommand::ExitFile.spec_code(), seq![on_exit.spec_code()]),
            ],
        ),
{
    lemma_request_took(
        earlier,
        opened_at,
        VexDeviceCommand::OpenFile.spec_code(),
        open,
        plan.timeout,
        check_all(),
    );
    lemma_wrote_took(plan, opened_at, written_at, plan.count(), data);
    lemma_request_took(
        written_at,
        later,
        VexDeviceCommand::ExitFile.spec_code(),
        seq![on_exit.spec_code()],
        plan.timeout,
        check_all(),
    );
    lemma_took_both(
        opened_at,
        written_at,
        later,
        plan.write_frames(data, plan.count()),
        seq![
            extended_frame(VexDeviceCommand::ExitFile.spec_code(), seq![on_exit.spec_code()]),
        ],
    );
}

/// Five runs of requests that the link took, one after another, are
/// one run, and the traces after the first and the third run are the
/// last trace cut back.
pub proof fn lemma_took_five(
    earlier: Trace,
    probed: Trace,
    acquired_at: Trace,
    opened_at: Trace,
    closed_at: Trace,
    later: Trace,
    first: Seq<Seq<u8>>,
    second: Seq<Seq<u8>>,
    third: Seq<Seq<u8>>,
    fourth: Seq<Seq<u8>>,
    fifth: Seq<Seq<u8>>,
)
    requires
        earlier.took(probed, first),
        probed.took(acquired_at, second),
        acquired_at.took(opened_at, third),
        opened_at.took(closed_at, fourth),
        closed_at.took(later, fifth),
    ensures
        earlier.took(later, first + second + third + fourth + fifth),
        later.upto(probed.writes.len() as int, probed.reads.len() as int) == probed,
        later.upto(opened_at.writes.len() as int, opened_at.reads.len() as int) == opened_at,
        probed.writes.len() == earlier.writes.len() + first.len(),
        probed.reads.len() == earlier.reads.len() + first.len(),
        opened_at.writes.len() == earlier.writes.len() + first.len() + second.len() + third.len(),
        opened_at.reads.len() == earlier.reads.len() + first.len() + second.len() + third.len(),
{
    lemma_took_both(opened_at, closed_at, later, fourth, fifth);
    lemma_took_both(acquired_at, opened_at, later, third, fourth + fifth);
    lemma_took_both(probed, acquired_at, later, second, third + (fourth + fifth));
    lemma_took_both(earlier, probed, later, first, second + (third + (fourth + fifth)));
    assert(first + (second + (third + (fourth + fifth))) =~= first + second + third + fourth
        + fifth);
}

/// What an upload that went well through a session that was idle and
/// links no names has sent: the link took the requests of
/// [`upload_requests`], these and no others, in that order, and was
/// read from once after each. Whether the switches are among them is
/// what the first reply said of the device; the chunks are laid out by
/// what the device answered to `OpenFile`; and the bytes moved and the
/// amounts reported are those of that layout.
pub proof fn lemma_upload_requests(
    earlier: Trace,
    acquired_at: Trace,
    closed_at: Trace,
    later: Trace,
    controller: bool,
    inner: Result<usize, V5Error>,
    moved: usize,
    reported: Seq<nat>,
    metadata: VexInitialFileMetadata,
    name: Seq<u8>,
    data: Seq<u8>,
    on_exit: VexFiletransferFinished,
    timeout: Option<u64>,
)
    requires
        name.len() == 24,
        upload_file_run(
            earlier,
            acquired_at,
            closed_at,
            later,
            Ok(controller),
            inner,
            Ok(moved),
            reported,
            false,
            metadata,
            name,
            data,
            false,
            on_exit,
            timeout,
        ),
    ensures
        controller_outcome(
            later.upto(earlier.writes.len() as int + 1, earlier.reads.len() as int + 1),
        ) == Ok::<bool, V5Error>(controller),
        open_outcome(
            later.upto(
                earlier.writes.len() + before_open(controller) + 1,
                earlier.reads.len() + before_open(controller) + 1,
            ),
        ) matches Ok(answered) && {
            let plan = Transfer::upload(metadata.addr, answered, data.len(), timeout);
            &&& earlier.took(
                later,
                upload_requests(controller, metadata, name, data, answered, on_exit, timeout),
            )
            &&& moved == plan.size
            &&& reported == plan.lens(plan.count())
        },
{
    let probed = lemma_channel_taken(
        earlier,
        acquired_at,
        V5ControllerChannel::UPLOAD,
        controller,
        timeout,
    );
    assert(inner == Ok::<usize, V5Error>(moved));
    let (opened_at, linked_at, written_at, written) = choose|
        opened_at: Trace,
        linked_at: Trace,
        written_at: Trace,
        written: Result<usize, V5Error>,
    |
        upload_run(
            acquired_at,
            opened_at,
            linked_at,
            written_at,
            closed_at,
            written,
            inner,
            reported,
            metadata,
            name,
            data,
            false,
            on_exit,
            timeout,
        );
    lemma_upload_run_steps(
        acquired_at,
        opened_at,
        linked_at,
        written_at,
        closed_at,
        written,
        moved,
        reported,
        metadata,
        name,
        data,
        on_exit,
        timeout,
    );
    lemma_open_payload_len(metadata, name);
    lemma_transfer_taken(
        acquired_at,
        opened_at,
        written_at,
        closed_at,
        Transfer::upload(metadata.addr, open_outcome(opened_at)->Ok_0, data.len(), timeout),
        metadata.open_payload(name),
        data,
        on_exit,
    );
    assert(closed_at.took(later, switch_requests(controller, V5ControllerChannel::PIT))) by {
        if controller {
            lemma_request_took(
                closed_at,
                later,
                VexDeviceCommand::SwitchChannel.spec_code(),
                channel_payload(V5ControllerChannel::PIT),
                timeout,
                check_all(),
            );
        } else {
            lemma_took_nothing(closed_at);
        }
    }
    let answered = open_outcome(opened_at)->Ok_0;
    lemma_took_five(
        earlier,
        probed,
        acquired_at,
        opened_at,
        closed_at,
        later,
        seq![version_request()],
        switch_requests(controller, V5ControllerChannel::UPLOAD),
        seq![extended_frame(VexDeviceCommand::OpenFile.spec_code(), metadata.open_payload(name))],
        moving_requests(metadata, data, answered, on_exit, timeout),
        switch_requests(controller, V5ControllerChannel::PIT),
    );
}

/// Whether `later` is `earlier` after the upload of `data` as the file
/// with the name field `name`, with the outcome `r` and `reported` to
/// the progress sink. Data that are too long for the length field of
/// the metadata are refused, and so is an upload within a guarded
/// block; then nothing is sent.
#[verifier::opaque]
pub open spec fn file_uploaded(
    earlier: Trace,
    later: Trace,
    r: Result<usize, V5Error>,
    reported: Seq<nat>,
    was_open: bool,
    was_guarded: bool,
    name: Seq<u8>,
    data: Seq<u8>,
    timestamp: u32,
    links: bool,
    on_exit: VexFiletransferFinished,
    timeout: Option<u64>,
) -> bool {
    if data.len() > u32::MAX {
        r == Err::<usize, V5Error>(V5Error::InvalidPayloadLength) && later == earlier && reported
            =~= Seq::<nat>::empty()
    } else if was_guarded {
        r == Err::<usize, V5Error>(V5Error::ProtocolState) && later == earlier && reported
            =~= Seq::<nat>::empty()
    } else {
        exists|
            acquired_at: Trace,
            closed_at: Trace,
            acquired: Result<bool, V5Error>,
            inner: Result<usize, V5Error>,
        |
            upload_file_run(
                earlier,
                acquired_at,
                closed_at,
                later,
                acquired,
                inner,
                r,
                reported,
                was_open,
                upload_metadata(data, timestamp),
                name,
                data,
                links,
                on_exit,
                timeout,
            )
    }
}

/// What the upload of a file that went well has sent, in a session
/// that was idle, ran no guarded block and links no names: the link
/// took the requests of [`upload_requests`] for the metadata of
/// [`upload_metadata`], these and no others, in that order. The first
/// reply says whether the device is a controller, and with that whether
/// the switches are among the requests; the reply to `OpenFile` lays
/// out the chunks.
pub proof fn lemma_upload_sent(
    earlier: Trace,
    later: Trace,
    moved: usize,
    reported: Seq<nat>,
    name: Seq<u8>,
    data: Seq<u8>,
    timestamp: u32,
    on_exit: VexFiletransferFinished,
    timeout: Option<u64>,
)
    requires
        name.len() == 24,
        file_uploaded(
            earlier,
            later,
            Ok(moved),
            reported,
            false,
            false,
            name,
            data,
            timestamp,
            false,
            on_exit,
            timeout,
        ),
    ensures
        controller_outcome(
            later.upto(earlier.writes.len() as int + 1, earlier.reads.len() as int + 1),
        ) matches Ok(controller) && open_outcome(
            later.upto(
                earlier.writes.len() + before_open(controller) + 1,
                earlier.reads.len() + before_open(controller) + 1,
            ),
        ) matches Ok(answered) && {
            let metadata = upload_metadata(data, timestamp);
            let plan = Transfer::upload(metadata.addr, answered, data.len(), timeout);
            &&& earlier.took(
                later,
                upload_requests(controller, metadata, name, data, answered, on_exit, timeout),
            )
            &&& moved == plan.size
            &&& reported == plan.lens(plan.count())
        },
{
    reveal(file_uploaded);
    let metadata = upload_metadata(data, timestamp);
    let (acquired_at, closed_at, acquired, inner) = choose|
        acquired_at: Trace,
        closed_at: Trace,
        acquired: Result<bool, V5Error>,
        inner: Result<usize, V5Error>,
    |
        upload_file_run(
            earlier,
            acquired_at,
            closed_at,
            later,
            acquired,
            inner,
            Ok(moved),
            reported,
            false,
            metadata,
            name,
            data,
            false,
            on_exit,
            timeout,
        );
    assert(acquired is Ok);
    lemma_upload_requests(
        earlier,
        acquired_at,
        closed_at,
        later,
        acquired->Ok_0,
        inner,
        moved,
        reported,
        metadata,
        name,
        data,
        on_exit,
        timeout,
    );
}

/// Uploads `data` as the file `file`, stamped `timestamp`, and tells
/// the brain to do `on_exit` once the file is closed. The name is cut
/// to 23 bytes. A controller is switched to the upload channel for the
/// transfer and back to the pit channel afterwards. Gives the number
/// of bytes written.
pub fn upload_file<T: SerialLink, P: ProgressSink>(
    device: &mut VexV5Device<T>,
    file: String,
    data: Vec<u8>,
    on_exit: VexFiletransferFinished,
    timestamp: u32,
    progress: &mut Progress<P>,
) -> (r: Result<usize, V5Error>)
    ensures
        old(device).same_state(final(device)),
        final(progress).extends(old(progress)),
        !is_ascii_bytes(name_bytes(&file)) ==> r == Err::<usize, V5Error>(V5Error::InvalidName)
            && final(device).trace() == old(device).trace()
            && final(progress).reported() == old(progress).reported(),
        is_ascii_bytes(name_bytes(&file)) ==> file_uploaded(
            old(device).trace(),
            final(device).trace(),
            r,
            final(progress).since(old(progress)),
            old(device).spec_is_open(),
            old(device).spec_is_guarded(),
            name_field(name_bytes(&file)),
            data@,
            timestamp,
            old(device).spec_links_names(),
            on_exit,
            old(device).spec_timeout(),
        ),
{
    proof {
        lemma_nothing_reported(progress);
    }
    let name = match truncate_name(file.as_str()) {
        Ok(name) => name,
        Err(e) => {
            return Err(e);
        },
    };
    upload_named(device, &name, data.as_slice(), on_exit, timestamp, progress)
}

/// Uploads `data` as the file with the name field `name`, as
/// [`upload_file`] does once it has cut the name.
pub fn upload_named<T: SerialLink, P: ProgressSink>(
    device: &mut VexV5Device<T>,
    name: &[u8; 24],
    data: &[u8],
    on_exit: VexFiletransferFinished,
    timestamp: u32,
    progress: &mut Progress<P>,
) -> (r: Result<usize, V5Error>)
    ensures
        old(device).same_state(final(device)),
        final(progress).extends(old(progress)),
        file_uploaded(
            old(device).trace(),
            final(device).trace(),
            r,
            final(progress).since(old(progress)),
            old(device).spec_is_open(),
            old(device).spec_is_guarded(),
            name@,
            data@,
            timestamp,
            old(device).spec_links_names(),
            on_exit,
            old(device).spec_timeout(),
        ),
{
    let ghost earlier = device.trace();
    proof {
        reveal(file_uploaded);
        lemma_nothing_reported(progress);
    }
    if data.len() > 0xFFFF_FFFF {
        return Err(V5Error::InvalidPayloadLength);
    }
    let mut metadata = VexInitialFileMetadata::at(timestamp);
    metadata.length = data.len() as u32;
    metadata.crc = crc32_checksum(data);
    metadata.version = UPLOAD_VERSION;
    proof {
        assert(metadata == upload_metadata(data@, timestamp));
    }
    let guard = match acquire_channel(device, V5ControllerChannel::UPLOAD) {
        Ok(guard) => guard,
        Err(e) => {
            proof {
                if !old(device).spec_is_guarded() {
                    assert(upload_file_run(
                        earlier,
                        device.trace(),
                        device.trace(),
                        device.trace(),
                        Err::<bool, V5Error>(e),
                        Err::<usize, V5Error>(e),
                        Err::<usize, V5Error>(e),
                        Seq::<nat>::empty(),
                        old(device).spec_is_open(),
                        upload_metadata(data@, timestamp),
                        name@,
                        data@,
                        old(device).spec_links_names(),
                        on_exit,
                        old(device).spec_timeout(),
                    ));
                }
            }
            return Err(e);
        },
    };
    let ghost acquired_at = device.trace();
    let ghost controller = guard.spec_is_controller();
    let inner = upload_transfer(device, name, data, metadata, on_exit, progress);
    let ghost closed_at = device.trace();
    let ghost since = progress.since(old(progress));
    proof {
        assert(old(device).spec_is_open() ==> since =~= Seq::<nat>::empty());
    }
    let r = release_channel(device, guard, inner);
    proof {
        assert(upload_file_run(
            earlier,
            acquired_at,
            closed_at,
            device.trace(),
            Ok::<bool, V5Error>(controller),
            inner,
            r,
            since,
            old(device).spec_is_open(),
            upload_metadata(data@, timestamp),
            name@,
            data@,
            old(device).spec_links_names(),
            on_exit,
            old(device).spec_timeout(),
        ));
    }
    r
}

/// Whether a download of `size` bytes is confirmed before it starts:
/// through a controller, and of more than 16 KiB.
pub open spec fn needs_confirmation(controller: bool, size: u32) -> bool {
    controller && size > CONFIRM_ABOVE
}

/// Whether a download of `size` bytes is confirmed before it starts.
pub fn confirmation_needed(controller: bool, size: u32) -> (needed: bool)
    ensures
        needed == needs_confirmation(controller, size),
{
    controller && size > CONFIRM_ABOVE
}

/// Whether `later` is `earlier` after the download of the file with
/// the name field `name`: the device is asked for the metadata of the
/// file up to `queried_at` and for its version up to `probed_at`; a
/// long download through a controller goes on only if `confirmed`;
/// then the download runs within a guarded block on the download
/// channel, where the channel can be had. The first failure is the
/// outcome.
pub open spec fn download_file_run(
    earlier: Trace,
    queried_at: Trace,
    probed_at: Trace,
    acquired_at: Trace,
    closed_at: Trace,
    later: Trace,
    found: Result<VexFileMetadata, V5Error>,
    confirmed: bool,
    acquired: Result<bool, V5Error>,
    inner: Result<Seq<u8>, V5Error>,
    r: Result<Seq<u8>, V5Error>,
    reported: Seq<nat>,
    was_open: bool,
    was_guarded: bool,
    name: Seq<u8>,
    on_exit: VexFiletransferFinished,
    timeout: Option<u64>,
) -> bool {
    &&& queried(earlier, queried_at, found, VexVID::USER, 0, name)
    &&& match found {
        Err(e) => r == Err::<Seq<u8>, V5Error>(e) && later == queried_at && reported =~= Seq::<
            nat,
        >::empty(),
        Ok(file) => {
            &&& queried_at.exchange(probed_at, version_request(), DEFAULT_TIMEOUT_MS)
            &&& match controller_outcome(probed_at) {
                Err(e) => r == Err::<Seq<u8>, V5Error>(e) && later == probed_at && reported
                    =~= Seq::<nat>::empty(),
                Ok(controller) => if needs_confirmation(controller, file.size) && !confirmed {
                    r == Err::<Seq<u8>, V5Error>(V5Error::UserAborted) && later == probed_at
                        && reported =~= Seq::<nat>::empty()
                } else if was_guarded {
                    r == Err::<Seq<u8>, V5Error>(V5Error::ProtocolState) && later == probed_at
                        && reported =~= Seq::<nat>::empty()
                } else {
                    &&& guarded_run(
                        probed_at,
                        acquired_at,
                        closed_at,
                        later,
                        acquired,
                        inner,
                        r,
                        V5ControllerChannel::DOWNLOAD,
                        timeout,
                        timeout,
                    )
                    &&& acquired is Ok ==> downloaded(
                        acquired_at,
                        closed_at,
                        inner,
                        reported,
                        was_open,
                        download_metadata(file),
                        name,
                        on_exit,
                        timeout,
                    )
                    &&& acquired is Err ==> reported =~= Seq::<nat>::empty()
                },
            }
        },
    }
}

/// Downloads the file `file` and tells the brain to do `on_exit` once
/// the file is closed. The name is cut to 23 bytes. The device is
/// asked for the metadata of the file first; a download of more than
/// 16 KiB through a controller goes on only if `confirm`, called with
/// the size, says so. A controller is switched to the download channel
/// for the transfer and back to the pit channel afterwards.
pub fn download_file<T: SerialLink, P: ProgressSink, C: FnOnce(u32) -> bool>(
    device: &mut VexV5Device<T>,
    file: String,
    on_exit: VexFiletransferFinished,
    confirm: C,
    progress: &mut Progress<P>,
) -> (r: Result<Vec<u8>, V5Error>)
    requires
        forall|size: u32| call_requires(confirm, (size,)),
    ensures
        old(device).same_state(final(device)),
        final(progress).extends(old(progress)),
        !is_ascii_bytes(name_bytes(&file)) ==> r is Err && r->Err_0 == V5Error::InvalidName
            && final(device).trace() == old(device).trace(),
        is_ascii_bytes(name_bytes(&file)) ==> exists|
            queried_at: Trace,
            probed_at: Trace,
            acquired_at: Trace,
            closed_at: Trace,
            found: Result<VexFileMetadata, V5Error>,
            confirmed: bool,
            acquired: Result<bool, V5Error>,
            inner: Result<Seq<u8>, V5Error>,
        |
            {
                &&& #[trigger] download_file_run(
                    old(device).trace(),
                    queried_at,
                    probed_at,
                    acquired_at,
                    closed_at,
                    final(device).trace(),
                    found,
                    confirmed,
                    acquired,
                    inner,
                    payload_view(r),
                    final(progress).since(old(progress)),
                    old(device).spec_is_open(),
                    old(device).spec_is_guarded(),
                    name_field(name_bytes(&file)),
                    on_exit,
                    old(device).spec_timeout(),
                )
                &&& found matches Ok(f) ==> (controller_outcome(probed_at) matches Ok(c)
                    ==> needs_confirmation(c, f.size) ==> call_ensures(
                    confirm,
                    (f.size,),
                    confirmed,
                ))
            },
{
    let ghost earlier = device.trace();
    let ghost name_seq = name_field(name_bytes(&file));
    proof {
        lemma_nothing_reported(progress);
    }
    let name = match truncate_name(file.as_str()) {
        Ok(name) => name,
        Err(e) => {
            return Err(e);
        },
    };
    let found = device.get_file_metadata_named(&name, VexVID::USER, 0);
    let ghost queried_at = device.trace();
    let file_metadata = match found {
        Ok(m) => m,
        Err(e) => {
            proof {
                assert(download_file_run(
                    earlier,
                    queried_at,
                    queried_at,
                    queried_at,
                    queried_at,
                    queried_at,
                    found,
                    true,
                    Err::<bool, V5Error>(e),
                    Err::<Seq<u8>, V5Error>(e),
                    Err::<Seq<u8>, V5Error>(e),
                    progress.since(old(progress)),
                    old(device).spec_is_open(),
                    old(device).spec_is_guarded(),
                    name_seq,
                    on_exit,
                    old(device).spec_timeout(),
                ));
            }
            return Err(e);
        },
    };
    let probed = device.is_controller();
    let ghost probed_at = device.trace();
    let controller = match probed {
        Ok(c) => c,
        Err(e) => {
            proof {
                assert(download_file_run(
                    earlier,
                    queried_at,
                    probed_at,
                    probed_at,
                    probed_at,
                    probed_at,
                    found,
                    true,
                    Err::<bool, V5Error>(e),
                    Err::<Seq<u8>, V5Error>(e),
                    Err::<Seq<u8>, V5Error>(e),
                    progress.since(old(progress)),
                    old(device).spec_is_open(),
                    old(device).spec_is_guarded(),
                    name_seq,
                    on_exit,
                    old(device).spec_timeout(),
                ));
            }
            return Err(e);
        },
    };
    let needed = confirmation_needed(controller, file_metadata.size);
    let confirmed = if needed {
        confirm(file_metadata.size)
    } else {
        true
    };
    if !confirmed {
        proof {
            assert(download_file_run(
                earlier,
                queried_at,
                probed_at,
                probed_at,
                probed_at,
                probed_at,
                found,
                confirmed,
                Err::<bool, V5Error>(V5Error::UserAborted),
                Err::<Seq<u8>, V5Error>(V5Error::UserAborted),
                Err::<Seq<u8>, V5Error>(V5Error::UserAborted),
                progress.since(old(progress)),
                old(device).spec_is_open(),
                old(device).spec_is_guarded(),
                name_seq,
                on_exit,
                old(device).spec_timeout(),
            ));
        }
        return Err(V5Error::UserAborted);
    }
    let metadata = VexInitialFileMetadata {
        function: VexFileMode::Download(VexFileTarget::FLASH, false),
        vid: VexVID::USER,
        options: 0,
        length: file_metadata.size,
        addr: file_metadata.addr,
        crc: file_metadata.crc,
        file_type: file_metadata.file_type,
        timestamp: file_metadata.timestamp,
        version: file_metadata.version,
    };
    let guard = match acquire_channel(device, V5ControllerChannel::DOWNLOAD) {
        Ok(guard) => guard,
        Err(e) => {
            proof {
                assert(download_file_run(
                    earlier,
                    queried_at,
                    probed_at,
                    device.trace(),
                    device.trace(),
                    device.trace(),
                    found,
                    confirmed,
                    Err::<bool, V5Error>(e),
                    Err::<Seq<u8>, V5Error>(e),
                    Err::<Seq<u8>, V5Error>(e),
                    progress.since(old(progress)),
                    old(device).spec_is_open(),
                    old(device).spec_is_guarded(),
                    name_seq,
                    on_exit,
                    old(device).spec_timeout(),
                ));
            }
            return Err(e);
        },
    };
    let ghost acquired_at = device.trace();
    let ghost controller_held = guard.spec_is_controller();
    let inner = download_transfer(device, &name, metadata, on_exit, progress);
    let ghost closed_at = device.trace();
    let ghost since = progress.since(old(progress));
    let ghost inner_view = payload_view(inner);
    proof {
        assert(old(device).spec_is_open() ==> since =~= Seq::<nat>::empty());
    }
    let r = release_channel(device, guard, inner);
    proof {
        assert(download_file_run(
            earlier,
            queried_at,
            probed_at,
            acquired_at,
            closed_at,
            device.trace(),
            found,
            confirmed,
            Ok::<bool, V5Error>(controller_held),
            inner_view,
            payload_view(r),
            since,
            old(device).spec_is_open(),
            old(device).spec_is_guarded(),
            name_seq,
            on_exit,
            old(device).spec_timeout(),
        ));
    }
    r
}

} // verus!
