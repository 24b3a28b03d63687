//! The upload of a program into a slot of the brain: the program and
//! the description that the brain shows for it.

use crate::cargo_toml::CargoToml;
use crate::error::V5Error;
use crate::file::{file_uploaded, upload_named};
use crate::util::{lemma_nothing_reported, Progress, ProgressSink};
use crate::v5::device::device::VexV5Device;
use crate::v5::device::{fill_name, name_field, spec_v5_timestamp, v5_timestamp};
use crate::v5::protocol::vex::{SerialLink, Trace};
use crate::v5::protocol::VexFiletransferFinished;
use vstd::prelude::*;
use vstd::string::StringSliceAdditionalSpecFns;

verus! {

/// The number of program slots of a brain.
pub const SLOTS: u8 = 8;

/// The ASCII digit of `d`.
pub open spec fn digit(d: u8) -> u8 {
    (0x30 + d) as u8
}

/// The decimal digits of `n`, without leading zeros.
pub open spec fn decimal(n: u8) -> Seq<u8> {
    if n < 10 {
        seq![digit(n)]
    } else if n < 100 {
        seq![digit(n / 10), digit(n % 10)]
    } else {
        seq![digit(n / 100), digit(n / 10 % 10), digit(n % 10)]
    }
}

/// Appends the decimal digits of `n` to `out`.
pub fn push_decimal(out: &mut Vec<u8>, n: u8)
    ensures
        final(out)@ == old(out)@ + decimal(n),
{
    if n >= 100 {
        out.push(0x30 + n / 100);
    }
    if n >= 10 {
        out.push(0x30 + n / 10 % 10);
    }
    out.push(0x30 + n % 10);
    proof {
        assert(out@ =~= old(out)@ + decimal(n));
    }
}

/// The slot that the contents of a slot file name: a single ASCII
/// digit below eight, counting slots from zero.
pub open spec fn spec_parse_slot(contents: Seq<u8>) -> Option<u8> {
    if contents.len() == 1 && 0x30 <= contents[0] < 0x30 + SLOTS {
        Some((contents[0] - 0x30) as u8)
    } else {
        None
    }
}

/// Reads the contents of a slot file.
pub fn parse_slot(contents: &[u8]) -> (slot: Option<u8>)
    ensures
        slot == spec_parse_slot(contents@),
{
    if contents.len() == 1 && contents[0] >= 0x30 && contents[0] < 0x30 + SLOTS {
        Some(contents[0] - 0x30)
    } else {
        None
    }
}

/// The description of a program in the slot `slot`, counted from zero,
/// as the brain reads it: seven lines, joined by line feeds.
pub open spec fn slot_ini(
    name: Seq<u8>,
    version: Seq<u8>,
    description: Seq<u8>,
    slot: u8,
    date: Seq<u8>,
) -> Seq<u8> {
    "[program]\nname = \"".spec_bytes() + name + "\"\nversion = \"".spec_bytes() + version
        + "\"\ndescription = \"".spec_bytes() + description + "\"\nslot = ".spec_bytes() + decimal(
        slot,
    ) + "\ndate = ".spec_bytes() + date + "\nicon = USER001x.bmp".spec_bytes()
}

/// The bytes of the description of a manifest, none where it has none.
pub open spec fn description_bytes(manifest: &CargoToml) -> Seq<u8> {
    match manifest.package.description {
        Some(text) => vstd::utf8::encode_utf8(text@),
        None => Seq::empty(),
    }
}

/// Writes the description of the program of `manifest` in the slot
/// `slot`, counted from zero, dated `date`.
pub fn build_slot_ini(manifest: &CargoToml, slot: u8, date: &str) -> (ini: Vec<u8>)
    ensures
        ini@ == slot_ini(
            vstd::utf8::encode_utf8(manifest.package.name@),
            vstd::utf8::encode_utf8(manifest.package.version@),
            description_bytes(manifest),
            slot,
            date.spec_bytes(),
        ),
{
    let mut ini: Vec<u8> = Vec::new();
    ini.extend_from_slice("[program]\nname = \"".as_bytes());
    ini.extend_from_slice(manifest.package.name.as_str().as_bytes());
    ini.extend_from_slice("\"\nversion = \"".as_bytes());
    ini.extend_from_slice(manifest.package.version.as_str().as_bytes());
    ini.extend_from_slice("\"\ndescription = \"".as_bytes());
    match &manifest.package.description {
        Some(text) => {
            ini.extend_from_slice(text.as_str().as_bytes());
        },
        None => {},
    }
    ini.extend_from_slice("\"\nslot = ".as_bytes());
    push_decimal(&mut ini, slot);
    ini.extend_from_slice("\ndate = ".as_bytes());
    ini.extend_from_slice(date.as_bytes());
    ini.extend_from_slice("\nicon = USER001x.bmp".as_bytes());
    proof {
        assert(ini@ =~= slot_ini(
            vstd::utf8::encode_utf8(manifest.package.name@),
            vstd::utf8::encode_utf8(manifest.package.version@),
            description_bytes(manifest),
            slot,
            date.spec_bytes(),
        ));
    }
    ini
}

/// The name of the file of the slot `slot`, counted from zero, with
/// the extension `extension`: `slot_`, the number of the slot counted
/// from one, a dot, and the extension.
pub open spec fn slot_file_name(slot: u8, extension: Seq<u8>) -> Seq<u8> {
    "slot_".spec_bytes() + decimal((slot + 1) as u8) + seq![0x2eu8] + extension
}

/// Writes the name of the file of the slot `slot`, counted from zero.
pub fn build_slot_file_name(slot: u8, extension: &str) -> (name: Vec<u8>)
    requires
        slot < SLOTS,
    ensures
        name@ == slot_file_name(slot, extension.spec_bytes()),
{
    let mut name: Vec<u8> = Vec::new();
    name.extend_from_slice("slot_".as_bytes());
    push_decimal(&mut name, slot + 1);
    name.push(0x2e);
    name.extend_from_slice(extension.as_bytes());
    proof {
        assert(name@ =~= slot_file_name(slot, extension.spec_bytes()));
    }
    name
}

/// The outcome of an upload without its count of bytes.
pub open spec fn counted(r: Result<usize, V5Error>) -> Result<(), V5Error> {
    match r {
        Ok(_) => Ok(()),
        Err(e) => Err(e),
    }
}

/// What the brain is told once the program of a slot has been
/// uploaded: to run it, or to do nothing.
pub open spec fn program_exit(run: bool) -> VexFiletransferFinished {
    if run {
        VexFiletransferFinished::RunProgram
    } else {
        VexFiletransferFinished::DoNothing
    }
}

/// Whether `later` is `earlier` after the upload of a program into a
/// slot: the program is uploaded up to `between`, with the outcome
/// `first`, and, where that went well, its description after it. Of
/// what was `reported` the first `split` amounts belong to the
/// program.
pub open spec fn slot_uploaded(
    earlier: Trace,
    between: Trace,
    later: Trace,
    first: Result<usize, V5Error>,
    r: Result<(), V5Error>,
    reported: Seq<nat>,
    split: int,
    was_open: bool,
    was_guarded: bool,
    links: bool,
    slot: u8,
    run: bool,
    program: Seq<u8>,
    ini: Seq<u8>,
    timestamp: u32,
    timeout: Option<u64>,
) -> bool {
    &&& 0 <= split <= reported.len()
    &&& file_uploaded(
        earlier,
        between,
        first,
        reported.subrange(0, split),
        was_open,
        was_guarded,
        name_field(slot_file_name(slot, "bin".spec_bytes())),
        program,
        timestamp,
        links,
        program_exit(run),
        timeout,
    )
    &&& match first {
        Err(e) => r == Err::<(), V5Error>(e) && later == between && split == reported.len(),
        Ok(_) => exists|second: Result<usize, V5Error>|
            r == counted(second) && file_uploaded(
                between,
                later,
                second,
                reported.subrange(split, reported.len() as int),
                was_open,
                was_guarded,
                name_field(slot_file_name(slot, "ini".spec_bytes())),
                ini,
                timestamp,
                links,
                VexFiletransferFinished::DoNothing,
                timeout,
            ),
    }
}

/// Whether `later` is `earlier` after the upload of a program and its
/// description into a slot, with the outcome `r` and `reported` to the
/// progress sink.
pub open spec fn slot_filled(
    earlier: Trace,
    later: Trace,
    r: Result<(), V5Error>,
    reported: Seq<nat>,
    was_open: bool,
    was_guarded: bool,
    links: bool,
    slot: u8,
    run: bool,
    program: Seq<u8>,
    ini: Seq<u8>,
    timestamp: u32,
    timeout: Option<u64>,
) -> bool {
    exists|between: Trace, first: Result<usize, V5Error>, split: int|
        slot_uploaded(
            earlier,
            between,
            later,
            first,
            r,
            reported,
            split,
            was_open,
            was_guarded,
            links,
            slot,
            run,
            program,
            ini,
            timestamp,
            timeout,
        )
}

/// Uploads the program `program` of the project `manifest` into the
/// slot `slot`, counted from zero: first the program, as
/// `slot_N.bin`, which the brain runs afterwards if `run` says so;
/// then its description dated `date`, as `slot_N.ini`. `N` counts the
/// slots from one. Where the program cannot be uploaded the
/// description is not sent.
pub fn upload<T: SerialLink, P: ProgressSink>(
    device: &mut VexV5Device<T>,
    manifest: &CargoToml,
    slot: u8,
    run: bool,
    program: Vec<u8>,
    date: &str,
    timestamp: u32,
    progress: &mut Progress<P>,
) -> (r: Result<(), V5Error>)
    requires
        slot < SLOTS,
    ensures
        old(device).same_state(final(device)),
        final(progress).extends(old(progress)),
        slot_filled(
            old(device).trace(),
            final(device).trace(),
            r,
            final(progress).since(old(progress)),
            old(device).spec_is_open(),
            old(device).spec_is_guarded(),
            old(device).spec_links_names(),
            slot,
            run,
            program@,
            slot_ini(
                vstd::utf8::encode_utf8(manifest.package.name@),
                vstd::utf8::encode_utf8(manifest.package.version@),
                description_bytes(manifest),
                slot,
                date.spec_bytes(),
            ),
            timestamp,
            old(device).spec_timeout(),
        ),
{
    let ghost earlier = device.trace();
    let ghost before = progress.reported();
    let ini = build_slot_ini(manifest, slot, date);
    let bin_name = fill_name(build_slot_file_name(slot, "bin").as_slice());
    let ini_name = fill_name(build_slot_file_name(slot, "ini").as_slice());
    let on_exit = if run {
        VexFiletransferFinished::RunProgram
    } else {
        VexFiletransferFinished::DoNothing
    };
    let first = upload_named(device, &bin_name, program.as_slice(), on_exit, timestamp, progress);
    let ghost between = device.trace();
    let ghost middle = progress.reported();
    match first {
        Err(e) => {
            proof {
                let reported = progress.since(old(progress));
                assert(reported.subrange(0, reported.len() as int) =~= reported);
                assert(slot_uploaded(
                    earlier,
                    between,
                    between,
                    first,
                    Err::<(), V5Error>(e),
                    reported,
                    reported.len() as int,
                    old(device).spec_is_open(),
                    old(device).spec_is_guarded(),
                    old(device).spec_links_names(),
                    slot,
                    run,
                    program@,
                    ini@,
                    timestamp,
                    old(device).spec_timeout(),
                ));
            }
            Err(e)
        },
        Ok(_) => {
            let second = upload_named(
                device,
                &ini_name,
                ini.as_slice(),
                VexFiletransferFinished::DoNothing,
                timestamp,
                progress,
            );
            let r = match second {
                Ok(_) => Ok(()),
                Err(e) => Err(e),
            };
            proof {
                let all = progress.reported();
                let reported = progress.since(old(progress));
                let split = middle.len() - before.len();
                assert(all.subrange(0, before.len() as int) =~= all.subrange(
                    0,
                    middle.len() as int,
                ).subrange(0, before.len() as int));
                assert(reported.subrange(0, split) =~= middle.subrange(
                    before.len() as int,
                    middle.len() as int,
                ));
                assert(reported.subrange(split, reported.len() as int) =~= all.subrange(
                    middle.len() as int,
                    all.len() as int,
                ));
                assert(file_uploaded(
                    between,
                    device.trace(),
                    second,
                    reported.subrange(split, reported.len() as int),
                    old(device).spec_is_open(),
                    old(device).spec_is_guarded(),
                    name_field(slot_file_name(slot, "ini".spec_bytes())),
                    ini@,
                    timestamp,
                    old(device).spec_links_names(),
                    VexFiletransferFinished::DoNothing,
                    old(device).spec_timeout(),
                ));
                assert(r == counted(second));
                assert(slot_uploaded(
                    earlier,
                    between,
                    device.trace(),
                    first,
                    r,
                    reported,
                    split,
                    old(device).spec_is_open(),
                    old(device).spec_is_guarded(),
                    old(device).spec_links_names(),
                    slot,
                    run,
                    program@,
                    ini@,
                    timestamp,
                    old(device).spec_timeout(),
                ));
            }
            r
        },
    }
}

/// The date and time, in UTC, that lie `unix_seconds` seconds and
/// `nanos` nanoseconds after 1970-01-01 00:00:00 UTC, written as
/// ISO 8601 prescribes; none for a moment that cannot be written so.
pub uninterp spec fn iso8601(unix_seconds: i64, nanos: u32) -> Option<Seq<char>>;

/// The characters of a date, where there is one.
pub open spec fn date_view(date: Option<String>) -> Option<Seq<char>> {
    match date {
        Some(text) => Some(text@),
        None => None,
    }
}

/// `chrono::DateTime::from_timestamp` makes the moment, and
/// `DateTime::format` with `%+`, written out by
/// `DelayedFormat::write_to`, gives its date and time in UTC in the form
/// of ISO 8601; none where `from_timestamp` gives none or the writing
/// fails. Nothing is claimed of the text but that it is the one these
/// calls give for the two numbers, whenever and wherever they are made.
#[verifier::external_body]
fn format_iso8601(unix_seconds: i64, nanos: u32) -> (date: Option<String>)
    ensures
        date_view(date) == iso8601(unix_seconds, nanos),
{
    let moment = chrono::DateTime::from_timestamp(unix_seconds, nanos)?;
    let mut date = String::new();
    match moment.format("%+").write_to(&mut date) {
        Ok(()) => Some(date),
        Err(_) => None,
    }
}

/// Uploads a program and its description into a slot, as [`upload`]
/// does, for the moment that lies `unix_seconds` seconds and `nanos`
/// nanoseconds after 1970-01-01 00:00:00 UTC: the description is dated
/// with that moment and both files are stamped with it. Where the
/// moment cannot be written as a date or lies outside the years that a
/// file can be stamped with, nothing is sent.
pub fn upload_at<T: SerialLink, P: ProgressSink>(
    device: &mut VexV5Device<T>,
    manifest: &CargoToml,
    slot: u8,
    run: bool,
    program: Vec<u8>,
    unix_seconds: i64,
    nanos: u32,
    progress: &mut Progress<P>,
) -> (r: Result<(), V5Error>)
    requires
        slot < SLOTS,
    ensures
        old(device).same_state(final(device)),
        final(progress).extends(old(progress)),
        match (iso8601(unix_seconds, nanos), spec_v5_timestamp(unix_seconds)) {
            (Some(date), Some(timestamp)) => slot_filled(
                old(device).trace(),
                final(device).trace(),
                r,
                final(progress).since(old(progress)),
                old(device).spec_is_open(),
                old(device).spec_is_guarded(),
                old(device).spec_links_names(),
                slot,
                run,
                program@,
                slot_ini(
                    vstd::utf8::encode_utf8(manifest.package.name@),
                    vstd::utf8::encode_utf8(manifest.package.version@),
                    description_bytes(manifest),
                    slot,
                    vstd::utf8::encode_utf8(date),
                ),
                timestamp,
                old(device).spec_timeout(),
            ),
            _ => r == Err::<(), V5Error>(V5Error::InvalidTime)
                && final(device).trace() == old(device).trace()
                && final(progress).reported() == old(progress).reported(),
        },
{
    proof {
        lemma_nothing_reported(progress);
    }
    let date = match format_iso8601(unix_seconds, nanos) {
        Some(date) => date,
        None => {
            return Err(V5Error::InvalidTime);
        },
    };
    let timestamp = match v5_timestamp(unix_seconds) {
        Some(timestamp) => timestamp,
        None => {
            return Err(V5Error::InvalidTime);
        },
    };
    upload(device, manifest, slot, run, program, date.as_str(), timestamp, progress)
}

} // verus!
