//! Whole files moved through an open handle, chunk by chunk.
//!
//! An upload sends the file in chunks of three quarters of the largest
//! packet that the device takes; a download asks for 512 bytes at a
//! time. Every length on the wire is a multiple of four: a chunk that
//! is written is padded with zeros, a chunk that is read is asked for
//! rounded up and cut again on arrival. A transfer stops at the first
//! request that fails.

use crate::error::V5Error;
use crate::util::{total, NoProgress, Progress, ProgressSink};
use crate::v5::device::device::{
    check_all, done_outcome, lemma_request_took, lemma_requested_step, payload_view,
    read_outcome, requested, V5FileHandle, VexV5Device,
};
use crate::v5::device::{
    pad4, padded_chunk, read_payload, write_payload, zero_padded, VexFiletransferMetadata,
    READ_CHUNK,
};
use crate::v5::protocol::vex::{
    extended_frame, lemma_took_both, lemma_took_nothing, SerialLink, Trace, Written,
};
use crate::v5::protocol::VexDeviceCommand;
use vstd::prelude::*;

verus! {

/// The number of requests that move `size` bytes in chunks of `chunk`
/// bytes: `size / chunk`, rounded up.
pub open spec fn chunk_count(size: nat, chunk: nat) -> nat {
    if chunk == 0 {
        0
    } else {
        ((size + chunk - 1) / chunk as int) as nat
    }
}

/// The number of bytes that request number `k` moves, counting from
/// zero: a whole chunk, or what is left of the file.
pub open spec fn chunk_len(size: nat, chunk: nat, k: int) -> nat {
    if (k + 1) * chunk <= size {
        chunk
    } else if k * chunk <= size {
        (size - k * chunk) as nat
    } else {
        0
    }
}

/// The amounts that the first `n` requests move, in order.
pub open spec fn chunk_lens(size: nat, chunk: nat, n: nat) -> Seq<nat> {
    Seq::new(n, |k: int| chunk_len(size, chunk, k))
}

/// The number of bytes that the first `n` requests move together.
pub open spec fn chunks_moved(size: nat, chunk: nat, n: nat) -> nat {
    if n * chunk <= size {
        n * chunk
    } else {
        size
    }
}

/// Moving `size` bytes in chunks of `chunk` takes `size / chunk`
/// requests, rounded up. Every request but the last moves a whole
/// chunk; the last moves the remainder of `size / chunk` where that is
/// not zero and a whole chunk otherwise; after `n` requests
/// `min(n * chunk, size)` bytes have been moved, and after the last all.
pub proof fn lemma_chunking(size: nat, chunk: nat, n: nat)
    requires
        chunk > 0,
    ensures
        chunk_count(size, chunk) * chunk >= size,
        size > 0 ==> (chunk_count(size, chunk) - 1) * chunk < size,
        size == 0 ==> chunk_count(size, chunk) == 0,
        n + 1 < chunk_count(size, chunk) ==> chunk_len(size, chunk, n as int) == chunk,
        size > 0 ==> chunk_len(size, chunk, chunk_count(size, chunk) - 1) == if size % chunk != 0 {
            size % chunk
        } else {
            chunk
        },
        n < chunk_count(size, chunk) ==> chunks_moved(size, chunk, n) + chunk_len(
            size,
            chunk,
            n as int,
        ) == chunks_moved(size, chunk, n + 1) && chunks_moved(size, chunk, n) == n * chunk,
        chunks_moved(size, chunk, chunk_count(size, chunk)) == size,
{
    let count = chunk_count(size, chunk);
    assert(count * chunk >= size && (size > 0 ==> (count - 1) * chunk < size) && (size == 0
        ==> count == 0) && (size > 0 ==> size - (count - 1) * chunk == if size % chunk != 0 {
        size % chunk
    } else {
        chunk
    })) by (nonlinear_arith)
        requires
            chunk > 0,
            count == (size + chunk - 1) / chunk as int,
    ;
    if n + 1 < count {
        assert((n + 1) * chunk <= (count - 1) * chunk) by (nonlinear_arith)
            requires
                n + 1 <= count - 1,
                chunk > 0,
        ;
    }
    if size > 0 {
        assert((count - 1 + 1) * chunk == count * chunk);
        if count * chunk <= size {
            assert(count * chunk == size);
            assert(size - (count - 1) * chunk == chunk) by (nonlinear_arith)
                requires
                    count * chunk == size,
            ;
        }
    }
    if n < count {
        assert(n * chunk <= (count - 1) * chunk) by (nonlinear_arith)
            requires
                n <= count - 1,
                chunk > 0,
        ;
        assert((n + 1) * chunk == n * chunk + chunk) by (nonlinear_arith);
    }
}

/// One step of a transfer: where `i` bytes have been moved by `k`
/// requests and bytes are left, the next request moves
/// `min(chunk, size - i)` bytes, and is the last exactly when it moves
/// the last byte.
pub proof fn lemma_chunk_step(size: nat, chunk: nat, k: nat, i: nat)
    requires
        chunk > 0,
        i == k * chunk,
        i < size,
    ensures
        k < chunk_count(size, chunk),
        chunk_len(size, chunk, k as int) == if size - i < chunk {
            (size - i) as nat
        } else {
            chunk
        },
        size - i >= chunk ==> i + chunk == (k + 1) * chunk,
        size - i > chunk ==> k + 1 < chunk_count(size, chunk),
        size - i <= chunk ==> k + 1 == chunk_count(size, chunk),
{
    let count = chunk_count(size, chunk);
    lemma_chunking(size, chunk, k);
    assert((k + 1) * chunk == k * chunk + chunk) by (nonlinear_arith);
    if k >= count {
        assert(count * chunk <= k * chunk) by (nonlinear_arith)
            requires
                count <= k,
        ;
    }
    if size - i > chunk {
        if k + 1 >= count {
            assert(count * chunk <= (k + 1) * chunk) by (nonlinear_arith)
                requires
                    count <= k + 1,
            ;
        }
    } else {
        if k + 1 < count {
            assert((k + 1) * chunk <= (count - 1) * chunk) by (nonlinear_arith)
                requires
                    k + 1 <= count - 1,
            ;
        }
    }
}

/// A transfer as it is laid out before it starts: the address of the
/// first byte, the number of bytes, the number of bytes that one
/// request moves, and the deadline of each reply.
pub struct Transfer {
    pub addr: u32,
    pub size: nat,
    pub chunk: nat,
    pub timeout: Option<u64>,
}

impl Transfer {
    /// The upload of `len` bytes to `addr` through a file for which
    /// the device answered `answered`, in a session with the deadline
    /// `timeout`: no more bytes than the device expects, in chunks of
    /// three quarters of the largest packet that the device takes.
    pub open spec fn upload(
        addr: u32,
        answered: VexFiletransferMetadata,
        len: nat,
        timeout: Option<u64>,
    ) -> Transfer {
        Transfer {
            addr,
            size: if len > answered.file_size {
                answered.file_size as nat
            } else {
                len
            },
            chunk: answered.spec_write_chunk(),
            timeout,
        }
    }

    /// The download from `addr` of a whole file for which the device
    /// answered `answered`, in a session with the deadline `timeout`:
    /// as many bytes as the device said the file has, 512 at a time.
    pub open spec fn download(
        addr: u32,
        answered: VexFiletransferMetadata,
        timeout: Option<u64>,
    ) -> Transfer {
        Transfer { addr, size: answered.file_size as nat, chunk: READ_CHUNK as nat, timeout }
    }

    /// Why the transfer is refused before anything is sent: the handle
    /// has been closed or the session holds no open file; bytes are to
    /// be moved in chunks of none; or the transfer would run past the
    /// end of the address space.
    pub open spec fn refusal(self, usable: bool) -> Option<V5Error> {
        if !usable {
            Some(V5Error::ProtocolState)
        } else if self.size > 0 && self.chunk == 0 {
            Some(V5Error::InvalidPayloadLength)
        } else if self.addr + self.size > 0x1_0000_0000 {
            Some(V5Error::AddressOverflow)
        } else {
            None
        }
    }

    /// The number of requests that the transfer takes.
    pub open spec fn count(self) -> nat {
        chunk_count(self.size, self.chunk)
    }

    /// The number of bytes of the file that request number `k` moves,
    /// counting from zero.
    pub open spec fn len(self, k: int) -> nat {
        chunk_len(self.size, self.chunk, k)
    }

    /// The amounts that the first `n` requests move, in order.
    pub open spec fn lens(self, n: nat) -> Seq<nat> {
        chunk_lens(self.size, self.chunk, n)
    }

    /// The payload of the `WriteFile` request number `k` of an upload
    /// of `data`: the chunk, padded with zeros to a multiple of four
    /// bytes, for the address `addr + k * chunk`.
    pub open spec fn write_request(self, data: Seq<u8>, k: int) -> Seq<u8> {
        write_payload(
            (self.addr + k * self.chunk) as u32,
            zero_padded(data.subrange(k * self.chunk, k * self.chunk + self.len(k))),
        )
    }

    /// The payload of the `ReadFile` request number `k` of a download:
    /// the length of the chunk, rounded up to a multiple of four, at
    /// the address `addr + k * chunk`.
    pub open spec fn read_request(self, k: int) -> Seq<u8> {
        read_payload((self.addr + k * self.chunk) as u32, pad4(self.len(k)) as u16)
    }

    /// The bytes on the wire of the first `n` `WriteFile` requests of an
    /// upload of `data`, in order.
    pub open spec fn write_frames(self, data: Seq<u8>, n: nat) -> Seq<Seq<u8>> {
        Seq::new(
            n,
            |k: int|
                extended_frame(VexDeviceCommand::WriteFile.spec_code(), self.write_request(data, k)),
        )
    }

    /// What the reply to the `ReadFile` request number `k` gave, where
    /// `later` ends in that request: as many bytes as the chunk has,
    /// without the padding.
    pub open spec fn read_reply(self, later: Trace, k: int) -> Result<Seq<u8>, V5Error> {
        match read_outcome(later, pad4(self.len(k))) {
            Ok(bytes) => Ok(bytes.subrange(0, self.len(k) as int)),
            Err(e) => Err(e),
        }
    }

    /// Whether `later` is `earlier` after the first `n` `WriteFile`
    /// requests of an upload of `data`, each of them acknowledged.
    pub open spec fn wrote(self, earlier: Trace, later: Trace, n: nat, data: Seq<u8>) -> bool
        decreases n,
    {
        if n == 0 {
            later == earlier
        } else {
            &&& self.wrote(earlier, later.before_last(), (n - 1) as nat, data)
            &&& requested(
                later.before_last(),
                later,
                VexDeviceCommand::WriteFile.spec_code(),
                self.write_request(data, n - 1),
                self.timeout,
            )
            &&& done_outcome(later, self.write_request(data, n - 1).len()) is Ok
        }
    }

    /// Whether `later` is `earlier` after the first `n` `ReadFile`
    /// requests of a download, each of them answered with the bytes
    /// asked for.
    pub open spec fn read(self, earlier: Trace, later: Trace, n: nat) -> bool
        decreases n,
    {
        if n == 0 {
            later == earlier
        } else {
            &&& self.read(earlier, later.before_last(), (n - 1) as nat)
            &&& requested(
                later.before_last(),
                later,
                VexDeviceCommand::ReadFile.spec_code(),
                self.read_request(n - 1),
                self.timeout,
            )
            &&& self.read_reply(later, n - 1) is Ok
        }
    }

    /// The bytes that the first `n` `ReadFile` requests of a download
    /// gave, in order, where `later` ends in the last of them.
    pub open spec fn gathered(self, later: Trace, n: nat) -> Seq<u8>
        decreases n,
    {
        if n == 0 {
            Seq::empty()
        } else {
            self.gathered(later.before_last(), (n - 1) as nat) + self.read_reply(
                later,
                n - 1,
            )->Ok_0
        }
    }

    /// The number of requests of the transfer that were answered well,
    /// where `later` is `earlier` after a transfer with the outcome
    /// `ok`: all of them, or those before the one that failed.
    pub open spec fn served(self, ok: bool, earlier: Trace, later: Trace) -> int {
        if ok {
            self.count() as int
        } else {
            later.writes.len() - earlier.writes.len() - 1
        }
    }

    /// What a transfer reports to the progress sink, where `later` is
    /// `earlier` after it: the amount of each request that was
    /// answered well, in order.
    pub open spec fn reports(self, usable: bool, ok: bool, earlier: Trace, later: Trace) -> Seq<
        nat,
    > {
        if self.refusal(usable) is Some {
            Seq::empty()
        } else {
            self.lens(self.served(ok, earlier, later) as nat)
        }
    }

    /// What an upload of `data` leaves behind: refused, nothing at
    /// all; done, every chunk written; failed, the chunks before the
    /// failing one written, then the request that failed.
    #[verifier::opaque]
    pub open spec fn uploaded(
        self,
        usable: bool,
        earlier: Trace,
        later: Trace,
        data: Seq<u8>,
        r: Result<usize, V5Error>,
    ) -> bool {
        match self.refusal(usable) {
            Some(e) => r == Err::<usize, V5Error>(e) && later == earlier,
            None => match r {
                Ok(n) => n == self.size && self.wrote(earlier, later, self.count(), data),
                Err(e) => {
                    let n = self.served(false, earlier, later);
                    &&& 0 <= n < self.count()
                    &&& self.wrote(earlier, later.before_last(), n as nat, data)
                    &&& requested(
                        later.before_last(),
                        later,
                        VexDeviceCommand::WriteFile.spec_code(),
                        self.write_request(data, n),
                        self.timeout,
                    )
                    &&& Err::<(), V5Error>(e) == done_outcome(
                        later,
                        self.write_request(data, n).len(),
                    )
                },
            },
        }
    }

    /// What a download leaves behind: refused, nothing at all; done,
    /// every chunk read, and the bytes of all chunks in order; failed,
    /// the chunks before the failing one read, then the request that
    /// failed.
    #[verifier::opaque]
    pub open spec fn downloaded(
        self,
        usable: bool,
        earlier: Trace,
        later: Trace,
        r: Result<Seq<u8>, V5Error>,
    ) -> bool {
        match self.refusal(usable) {
            Some(e) => r == Err::<Seq<u8>, V5Error>(e) && later == earlier,
            None => match r {
                Ok(bytes) => {
                    &&& self.read(earlier, later, self.count())
                    &&& bytes == self.gathered(later, self.count())
                    &&& bytes.len() == self.size
                },
                Err(e) => {
                    let n = self.served(false, earlier, later);
                    &&& 0 <= n < self.count()
                    &&& self.read(earlier, later.before_last(), n as nat)
                    &&& requested(
                        later.before_last(),
                        later,
                        VexDeviceCommand::ReadFile.spec_code(),
                        self.read_request(n),
                        self.timeout,
                    )
                    &&& Err::<Seq<u8>, V5Error>(e) == self.read_reply(later, n)
                },
            },
        }
    }
}

/// After `n` acknowledged `WriteFile` requests the trace has `n` more
/// writes.
pub proof fn lemma_wrote_len(plan: Transfer, earlier: Trace, later: Trace, n: nat, data: Seq<u8>)
    requires
        plan.wrote(earlier, later, n, data),
    ensures
        later.writes.len() == earlier.writes.len() + n,
    decreases n,
{
    if n > 0 {
        lemma_wrote_len(plan, earlier, later.before_last(), (n - 1) as nat, data);
        let payload = plan.write_request(data, n - 1);
        assert(done_outcome(later, payload.len()) is Ok);
    }
}

/// After `n` answered `ReadFile` requests the trace has `n` more
/// writes, and the bytes gathered are those of the first `n` chunks.
pub proof fn lemma_read_len(plan: Transfer, earlier: Trace, later: Trace, n: nat)
    requires
        plan.read(earlier, later, n),
        plan.chunk > 0,
        n <= plan.count(),
    ensures
        later.writes.len() == earlier.writes.len() + n,
        plan.gathered(later, n).len() == chunks_moved(plan.size, plan.chunk, n),
    decreases n,
{
    if n > 0 {
        lemma_read_len(plan, earlier, later.before_last(), (n - 1) as nat);
        lemma_chunking(plan.size, plan.chunk, (n - 1) as nat);
        lemma_requested_step(
            later.before_last(),
            later,
            VexDeviceCommand::ReadFile.spec_code(),
            plan.read_request(n - 1),
            plan.timeout,
        );
    }
}

/// The first `n` acknowledged `WriteFile` requests of an upload are
/// requests that the link took, these and no others, in their order.
pub proof fn lemma_wrote_took(plan: Transfer, earlier: Trace, later: Trace, n: nat, data: Seq<u8>)
    requires
        plan.wrote(earlier, later, n, data),
    ensures
        earlier.took(later, plan.write_frames(data, n)),
    decreases n,
{
    if n == 0 {
        lemma_took_nothing(earlier);
        assert(plan.write_frames(data, 0) =~= Seq::<Seq<u8>>::empty());
    } else {
        let before = later.before_last();
        let payload = plan.write_request(data, n - 1);
        lemma_wrote_took(plan, earlier, before, (n - 1) as nat, data);
        lemma_request_took(
            before,
            later,
            VexDeviceCommand::WriteFile.spec_code(),
            payload,
            plan.timeout,
            check_all(),
        );
        let frame = extended_frame(VexDeviceCommand::WriteFile.spec_code(), payload);
        lemma_took_both(
            earlier,
            before,
            later,
            plan.write_frames(data, (n - 1) as nat),
            seq![frame],
        );
        assert(plan.write_frames(data, n) =~= plan.write_frames(data, (n - 1) as nat) + seq![
            frame,
        ]);
    }
}

/// Of `n` acknowledged `WriteFile` requests, request number `k` is the
/// write number `k` behind those of `earlier`, and the link took it.
pub proof fn lemma_wrote_request(
    plan: Transfer,
    earlier: Trace,
    later: Trace,
    n: nat,
    data: Seq<u8>,
    k: int,
)
    requires
        plan.wrote(earlier, later, n, data),
        0 <= k < n,
        forall|j: int| 0 <= j < n ==> plan.write_request(data, j).len() <= 0xFFFF,
    ensures
        later.writes.len() == earlier.writes.len() + n,
        later.writes[earlier.writes.len() + k] == (Written {
            bytes: extended_frame(
                VexDeviceCommand::WriteFile.spec_code(),
                plan.write_request(data, k),
            ),
            ok: true,
        }),
    decreases n,
{
    lemma_wrote_len(plan, earlier, later, n, data);
    lemma_wrote_len(plan, earlier, later.before_last(), (n - 1) as nat, data);
    lemma_requested_step(
        later.before_last(),
        later,
        VexDeviceCommand::WriteFile.spec_code(),
        plan.write_request(data, n - 1),
        plan.timeout,
    );
    if k < n - 1 {
        lemma_wrote_request(plan, earlier, later.before_last(), (n - 1) as nat, data, k);
    }
}

/// Of `n` answered `ReadFile` requests, request number `k` is the
/// write number `k` behind those of `earlier`, and the link took it.
pub proof fn lemma_read_request(plan: Transfer, earlier: Trace, later: Trace, n: nat, k: int)
    requires
        plan.read(earlier, later, n),
        plan.chunk > 0,
        n <= plan.count(),
        0 <= k < n,
    ensures
        later.writes.len() == earlier.writes.len() + n,
        later.writes[earlier.writes.len() + k] == (Written {
            bytes: extended_frame(VexDeviceCommand::ReadFile.spec_code(), plan.read_request(k)),
            ok: true,
        }),
    decreases n,
{
    lemma_read_len(plan, earlier, later, n);
    lemma_read_len(plan, earlier, later.before_last(), (n - 1) as nat);
    lemma_requested_step(
        later.before_last(),
        later,
        VexDeviceCommand::ReadFile.spec_code(),
        plan.read_request(n - 1),
        plan.timeout,
    );
    if k < n - 1 {
        lemma_read_request(plan, earlier, later.before_last(), (n - 1) as nat, k);
    }
}

/// An upload that went well took as many requests as the file has
/// chunks, and moved the whole file.
pub proof fn lemma_upload_complete(
    plan: Transfer,
    usable: bool,
    earlier: Trace,
    later: Trace,
    data: Seq<u8>,
    moved: usize,
)
    requires
        plan.uploaded(usable, earlier, later, data, Ok(moved)),
    ensures
        usable,
        moved == plan.size,
        later.writes.len() == earlier.writes.len() + chunk_count(plan.size, plan.chunk),
        total(plan.lens(plan.count())) == plan.size,
{
    reveal(Transfer::uploaded);
    lemma_wrote_len(plan, earlier, later, plan.count(), data);
    lemma_lens_total(plan, plan.count());
    if plan.chunk > 0 {
        lemma_chunking(plan.size, plan.chunk, 0);
    }
}

/// A download that went well took as many requests as the file has
/// chunks, and gave as many bytes as the file has.
pub proof fn lemma_download_complete(
    plan: Transfer,
    usable: bool,
    earlier: Trace,
    later: Trace,
    bytes: Seq<u8>,
)
    requires
        plan.downloaded(usable, earlier, later, Ok(bytes)),
        plan.chunk > 0,
    ensures
        usable,
        bytes.len() == plan.size,
        later.writes.len() == earlier.writes.len() + chunk_count(plan.size, plan.chunk),
{
    reveal(Transfer::downloaded);
    lemma_read_len(plan, earlier, later, plan.count());
}

/// The amounts of the first `n` requests add up to what they move.
pub proof fn lemma_lens_total(plan: Transfer, n: nat)
    requires
        n <= plan.count(),
    ensures
        total(plan.lens(n)) == chunks_moved(plan.size, plan.chunk, n),
    decreases n,
{
    if n == 0 {
        assert(0 * plan.chunk == 0) by (nonlinear_arith);
    } else {
        lemma_lens_total(plan, (n - 1) as nat);
        lemma_lens_push(plan, (n - 1) as nat);
        assert(plan.lens(n).drop_last() =~= plan.lens((n - 1) as nat));
        assert(plan.chunk > 0);
        lemma_chunking(plan.size, plan.chunk, (n - 1) as nat);
    }
}

/// The amounts of one more request, appended.
pub proof fn lemma_lens_push(plan: Transfer, k: nat)
    ensures
        plan.lens(k + 1) == plan.lens(k).push(plan.len(k as int)),
{
    assert(plan.lens(k + 1) =~= plan.lens(k).push(plan.len(k as int)));
}

/// An upload whose request number `k` has failed after `k`
/// acknowledged ones has the outcome of a failed upload.
pub proof fn lemma_upload_failed(
    plan: Transfer,
    e: V5Error,
    earlier: Trace,
    mid: Trace,
    later: Trace,
    k: nat,
    data: Seq<u8>,
)
    requires
        plan.refusal(true) is None,
        k < plan.count(),
        plan.wrote(earlier, mid, k, data),
        plan.write_request(data, k as int).len() <= 0xFFFF,
        requested(
            mid,
            later,
            VexDeviceCommand::WriteFile.spec_code(),
            plan.write_request(data, k as int),
            plan.timeout,
        ),
        Err::<(), V5Error>(e) == done_outcome(later, plan.write_request(data, k as int).len()),
    ensures
        plan.uploaded(true, earlier, later, data, Err(e)),
        plan.served(false, earlier, later) == k,
{
    reveal(Transfer::uploaded);
    lemma_requested_step(
        mid,
        later,
        VexDeviceCommand::WriteFile.spec_code(),
        plan.write_request(data, k as int),
        plan.timeout,
    );
    lemma_wrote_len(plan, earlier, mid, k, data);
}

/// One more acknowledged request extends an upload by one chunk.
pub proof fn lemma_upload_step(
    plan: Transfer,
    earlier: Trace,
    mid: Trace,
    later: Trace,
    k: nat,
    data: Seq<u8>,
)
    requires
        plan.wrote(earlier, mid, k, data),
        plan.write_request(data, k as int).len() <= 0xFFFF,
        requested(
            mid,
            later,
            VexDeviceCommand::WriteFile.spec_code(),
            plan.write_request(data, k as int),
            plan.timeout,
        ),
        done_outcome(later, plan.write_request(data, k as int).len()) is Ok,
    ensures
        plan.wrote(earlier, later, k + 1, data),
{
    lemma_requested_step(
        mid,
        later,
        VexDeviceCommand::WriteFile.spec_code(),
        plan.write_request(data, k as int),
        plan.timeout,
    );
}

/// A download whose request number `k` has failed after `k` answered
/// ones has the outcome of a failed download.
pub proof fn lemma_download_failed(
    plan: Transfer,
    e: V5Error,
    earlier: Trace,
    mid: Trace,
    later: Trace,
    k: nat,
)
    requires
        plan.refusal(true) is None,
        plan.chunk > 0,
        k < plan.count(),
        plan.read(earlier, mid, k),
        requested(
            mid,
            later,
            VexDeviceCommand::ReadFile.spec_code(),
            plan.read_request(k as int),
            plan.timeout,
        ),
        Err::<Seq<u8>, V5Error>(e) == plan.read_reply(later, k as int),
    ensures
        plan.downloaded(true, earlier, later, Err(e)),
        plan.served(false, earlier, later) == k,
{
    reveal(Transfer::downloaded);
    lemma_requested_step(
        mid,
        later,
        VexDeviceCommand::ReadFile.spec_code(),
        plan.read_request(k as int),
        plan.timeout,
    );
    lemma_read_len(plan, earlier, mid, k);
}

/// One more answered request extends a download by one chunk.
pub proof fn lemma_download_step(
    plan: Transfer,
    earlier: Trace,
    mid: Trace,
    later: Trace,
    k: nat,
    gathered: Seq<u8>,
    bytes: Seq<u8>,
)
    requires
        plan.read(earlier, mid, k),
        gathered == plan.gathered(mid, k),
        requested(
            mid,
            later,
            VexDeviceCommand::ReadFile.spec_code(),
            plan.read_request(k as int),
            plan.timeout,
        ),
        plan.read_reply(later, k as int) == Ok::<Seq<u8>, V5Error>(bytes),
    ensures
        plan.read(earlier, later, k + 1),
        gathered + bytes == plan.gathered(later, k + 1),
{
    lemma_requested_step(
        mid,
        later,
        VexDeviceCommand::ReadFile.spec_code(),
        plan.read_request(k as int),
        plan.timeout,
    );
}

impl V5FileHandle {
    /// The upload of `len` bytes through this handle in a session with
    /// the deadline `timeout`, to the address that the file was opened
    /// with.
    pub open spec fn upload_plan(&self, len: nat, timeout: Option<u64>) -> Transfer {
        Transfer::upload(self.spec_metadata().addr, self.spec_transfer_metadata(), len, timeout)
    }

    /// The download of the whole file through this handle in a session
    /// with the deadline `timeout`, from the address that the file was
    /// opened with.
    pub open spec fn download_plan(&self, timeout: Option<u64>) -> Transfer {
        Transfer::download(self.spec_metadata().addr, self.spec_transfer_metadata(), timeout)
    }

    /// Whether transfers can go through this handle in `device`: the
    /// handle has not been closed and the session holds an open file.
    pub open spec fn usable<T: SerialLink>(&self, device: &VexV5Device<T>) -> bool {
        !self.spec_is_closed() && device.spec_is_open()
    }

    /// Writes `data` to the file in chunks of three quarters of the
    /// largest packet that the device takes, and reports each chunk to
    /// `progress` once the device has acknowledged it. No more bytes
    /// are written than the device expects. Stops at the first request
    /// that fails. Gives the number of bytes written.
    pub fn write_all_with<T: SerialLink, P: ProgressSink>(
        &self,
        device: &mut VexV5Device<T>,
        data: &[u8],
        progress: &mut Progress<P>,
    ) -> (r: Result<usize, V5Error>)
        ensures
            old(device).same_state(final(device)),
            self.upload_plan(data@.len(), old(device).spec_timeout()).uploaded(
                self.usable(old(device)),
                old(device).trace(),
                final(device).trace(),
                data@,
                r,
            ),
            final(progress).reported() == old(progress).reported() + self.upload_plan(
                data@.len(),
                old(device).spec_timeout(),
            ).reports(
                self.usable(old(device)),
                r is Ok,
                old(device).trace(),
                final(device).trace(),
            ),
    {
        let transfer = self.transfer_metadata();
        let chunk: usize = transfer.write_chunk() as usize;
        let file_size: usize = transfer.file_size as usize;
        let size: usize = if data.len() > file_size {
            file_size
        } else {
            data.len()
        };
        let addr: u32 = self.metadata().addr;
        let ghost plan = self.upload_plan(data@.len(), old(device).spec_timeout());
        let ghost before = old(progress).reported();
        let ghost earlier = old(device).trace();
        proof {
            reveal(Transfer::uploaded);
            assert(before + Seq::<nat>::empty() =~= before);
        }
        if self.is_closed() || !device.is_open() {
            return Err(V5Error::ProtocolState);
        }
        if size > 0 && chunk == 0 {
            return Err(V5Error::InvalidPayloadLength);
        }
        if addr as u64 + size as u64 > 0x1_0000_0000 {
            return Err(V5Error::AddressOverflow);
        }
        let mut i: usize = 0;
        let ghost mut k: nat = 0;
        proof {
            assert(plan.lens(0) =~= Seq::<nat>::empty());
            if chunk > 0 {
                lemma_chunking(size as nat, chunk as nat, 0);
            }
            assert(0 * chunk == 0) by (nonlinear_arith);
        }
        let mut r: Result<usize, V5Error> = Ok(size);
        while i < size
            invariant_except_break
                device.spec_is_open(),
                r == Ok::<usize, V5Error>(size),
                i <= size,
                i < size ==> i == k * chunk,
                i == size ==> k == plan.count(),
                plan.wrote(earlier, device.trace(), k, data@),
                progress.reported() == before + plan.lens(k),
            invariant
                old(device).same_state(device),
                plan == (Transfer {
                    addr,
                    size: size as nat,
                    chunk: chunk as nat,
                    timeout: old(device).spec_timeout(),
                }),
                chunk <= 49150,
                size <= data@.len(),
                addr + size <= 0x1_0000_0000,
                plan.refusal(true) is None,
                size > 0 ==> chunk > 0,
            ensures
                old(device).same_state(device),
                r is Ok ==> r == Ok::<usize, V5Error>(size) && plan.wrote(
                    earlier,
                    device.trace(),
                    plan.count(),
                    data@,
                ),
                r is Err ==> plan.uploaded(true, earlier, device.trace(), data@, r),
                progress.reported() == before + plan.lens(
                    plan.served(r is Ok, earlier, device.trace()) as nat,
                ),
            decreases size - i,
        {
            let len: usize = if size - i < chunk {
                size - i
            } else {
                chunk
            };
            let ghost mid = device.trace();
            proof {
                lemma_chunk_step(size as nat, chunk as nat, k, i as nat);
            }
            let payload = padded_chunk(data, i, i + len);
            let offset: u32 = (addr as u64 + i as u64) as u32;
            proof {
                assert(pad4(len as nat) <= len + 3);
                assert(write_payload(offset, payload@) == plan.write_request(data@, k as int));
            }
            match device.write_raw(offset, payload) {
                Err(e) => {
                    proof {
                        lemma_upload_failed(plan, e, earlier, mid, device.trace(), k, data@);
                    }
                    r = Err(e);
                    break ;
                },
                Ok(()) => {},
            }
            progress.report(len as u32);
            proof {
                lemma_upload_step(plan, earlier, mid, device.trace(), k, data@);
                lemma_lens_push(plan, k);
                assert(progress.reported() =~= before + plan.lens(k + 1));
                k = k + 1;
            }
            i = i + len;
        }
        proof {
            reveal(Transfer::uploaded);
        }
        r
    }

    /// Writes `data` to the file, as [`V5FileHandle::write_all_with`]
    /// does, without reports of progress.
    pub fn write_all<T: SerialLink>(
        &self,
        device: &mut VexV5Device<T>,
        data: Vec<u8>,
    ) -> (r: Result<usize, V5Error>)
        ensures
            old(device).same_state(final(device)),
            self.upload_plan(data@.len(), old(device).spec_timeout()).uploaded(
                self.usable(old(device)),
                old(device).trace(),
                final(device).trace(),
                data@,
                r,
            ),
    {
        let mut progress = Progress::new(NoProgress);
        self.write_all_with(device, data.as_slice(), &mut progress)
    }

    /// Reads the whole file, 512 bytes with each request, and reports
    /// each chunk to `progress` once it has arrived. The size and the
    /// address are those that the transfer was opened with. Stops at
    /// the first request that fails.
    pub fn read_all_with<T: SerialLink, P: ProgressSink>(
        &self,
        device: &mut VexV5Device<T>,
        progress: &mut Progress<P>,
    ) -> (r: Result<Vec<u8>, V5Error>)
        ensures
            old(device).same_state(final(device)),
            self.download_plan(old(device).spec_timeout()).downloaded(
                self.usable(old(device)),
                old(device).trace(),
                final(device).trace(),
                payload_view(r),
            ),
            final(progress).reported() == old(progress).reported() + self.download_plan(
                old(device).spec_timeout(),
            ).reports(
                self.usable(old(device)),
                r is Ok,
                old(device).trace(),
                final(device).trace(),
            ),
    {
        let size: u32 = self.transfer_metadata().file_size;
        let addr: u32 = self.metadata().addr;
        let ghost plan = self.download_plan(old(device).spec_timeout());
        let ghost before = old(progress).reported();
        let ghost earlier = old(device).trace();
        proof {
            reveal(Transfer::downloaded);
            assert(before + Seq::<nat>::empty() =~= before);
        }
        if self.is_closed() || !device.is_open() {
            return Err(V5Error::ProtocolState);
        }
        if addr as u64 + size as u64 > 0x1_0000_0000 {
            return Err(V5Error::AddressOverflow);
        }
        let mut data: Vec<u8> = Vec::new();
        let mut i: u32 = 0;
        let ghost mut k: nat = 0;
        proof {
            assert(plan.lens(0) =~= Seq::<nat>::empty());
            lemma_chunking(size as nat, READ_CHUNK as nat, 0);
        }
        let mut failure: Option<V5Error> = None;
        while i < size
            invariant_except_break
                device.spec_is_open(),
                failure is None,
                i <= size,
                i < size ==> i == k * READ_CHUNK,
                i == size ==> k == plan.count(),
                plan.read(earlier, device.trace(), k),
                data@ == plan.gathered(device.trace(), k),
                data@.len() == i,
                progress.reported() == before + plan.lens(k),
            invariant
                !self.spec_is_closed(),
                old(device).same_state(device),
                plan == (Transfer {
                    addr,
                    size: size as nat,
                    chunk: READ_CHUNK as nat,
                    timeout: old(device).spec_timeout(),
                }),
                addr + size <= 0x1_0000_0000,
                plan.refusal(true) is None,
            ensures
                old(device).same_state(device),
                failure is None ==> plan.read(earlier, device.trace(), plan.count()) && data@
                    == plan.gathered(device.trace(), plan.count()) && data@.len() == size,
                failure matches Some(e) ==> plan.downloaded(
                    true,
                    earlier,
                    device.trace(),
                    Err(e),
                ),
                progress.reported() == before + plan.lens(
                    plan.served(failure is None, earlier, device.trace()) as nat,
                ),
            decreases size - i,
        {
            let len: u16 = if size - i < READ_CHUNK as u32 {
                (size - i) as u16
            } else {
                READ_CHUNK
            };
            let ghost mid = device.trace();
            let ghost gathered = data@;
            proof {
                lemma_chunk_step(size as nat, READ_CHUNK as nat, k, i as nat);
                assert(pad4(len as nat) <= 512);
            }
            let offset: u32 = (addr as u64 + i as u64) as u32;
            match self.read_len(device, offset, len) {
                Err(e) => {
                    proof {
                        lemma_download_failed(plan, e, earlier, mid, device.trace(), k);
                    }
                    failure = Some(e);
                    break ;
                },
                Ok(bytes) => {
                    data.extend_from_slice(bytes.as_slice());
                    proof {
                        lemma_download_step(
                            plan,
                            earlier,
                            mid,
                            device.trace(),
                            k,
                            gathered,
                            bytes@,
                        );
                    }
                },
            }
            progress.report(len as u32);
            proof {
                lemma_lens_push(plan, k);
                assert(progress.reported() =~= before + plan.lens(k + 1));
                k = k + 1;
            }
            i = i + len as u32;
        }
        proof {
            reveal(Transfer::downloaded);
        }
        match failure {
            None => Ok(data),
            Some(e) => Err(e),
        }
    }

    /// Reads the whole file, as [`V5FileHandle::read_all_with`] does,
    /// without reports of progress.
    pub fn read_all<T: SerialLink>(
        &self,
        device: &mut VexV5Device<T>,
    ) -> (r: Result<Vec<u8>, V5Error>)
        ensures
            old(device).same_state(final(device)),
            self.download_plan(old(device).spec_timeout()).downloaded(
                self.usable(old(device)),
                old(device).trace(),
                final(device).trace(),
                payload_view(r),
            ),
    {
        let mut progress = Progress::new(NoProgress);
        self.read_all_with(device, &mut progress)
    }
}

} // verus!
