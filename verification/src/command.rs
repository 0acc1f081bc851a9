//! The HIPC command builder: composition, size accounting and one-shot
//! serialization.
//!
//! A command is composed step by step; every step recomputes the running
//! byte total and fails — with the error naming the violated constraint —
//! when a cardinality ceiling is hit, when the receive-side constructs would
//! stop being mutually exclusive, or when the serialized command would
//! exceed the 256-byte TLS command region. A composition that never failed
//! serializes with [`HipcCommandBuilder::build`] without any error path.

use vstd::prelude::*;

use crate::CommandType;
use crate::HipcError;
use crate::IntoBytes;
use crate::IntoWords;
use crate::append_all;
use crate::header::SpecialHeaderBuilder;
use crate::packed::BufferDescriptor;
use crate::packed::Header;
use crate::packed::ReceiveListEntry;
use crate::packed::StaticDescriptor;
use crate::packed::lemma_header_round_trip;
use crate::packed::lemma_seq_bytes_len_buffer;
use crate::packed::lemma_seq_bytes_len_receive_list;
use crate::packed::lemma_seq_bytes_len_static;
use crate::packed::lemma_seq_bytes_len_u32;
use crate::packed::spec_header_new;
use crate::seq_bytes;

verus! {

/// The command fits the TLS command region: at most 256 serialized bytes.
pub const MAX_TLS_BUFFER_SIZE: usize = 0x100;

/// At most one of the receive-side constructs is in use: receive statics, an
/// inline buffer, a pointer buffer.
pub open spec fn spec_recv_list_exclusive(
    recv_statics: int,
    inline_buff_len: int,
    has_pointer_buffer: bool,
) -> bool {
    &&& !(recv_statics > 0 && inline_buff_len > 0)
    &&& !(recv_statics > 0 && has_pointer_buffer)
    &&& !(inline_buff_len > 0 && has_pointer_buffer)
}

/// `n` rounded up to the next multiple of 16.
pub open spec fn spec_align16(n: int) -> int {
    n + ((16 - n % 16) % 16)
}

/// `n` zero bytes.
pub open spec fn zero_bytes(n: int) -> Seq<u8> {
    Seq::new(n as nat, |i: int| 0u8)
}

/// Rounding up to 16 lands on a multiple of 16 and adds at most 15.
pub proof fn lemma_align16_bounds(n: int)
    requires
        n >= 0,
    ensures
        n <= spec_align16(n),
        spec_align16(n) < n + 16,
        spec_align16(n) % 16 == 0,
{
    let r = n % 16;
    assert(0 <= r < 16);
    if r == 0 {
        assert(spec_align16(n) == n);
        assert(spec_align16(n) % 16 == 0);
    } else {
        assert(spec_align16(n) == n + (16 - r));
        assert((n + (16 - r)) % 16 == 0) by (nonlinear_arith)
            requires
                n >= 0,
                r == n % 16,
                0 < r < 16,
        ;
    }
}

/// The bytes of a command before its receive-side tail: the 8-byte header,
/// the special header, the descriptors and the raw data.
pub open spec fn spec_base_size(
    send_statics: int,
    send_buffers: int,
    recv_buffers: int,
    exch_buffers: int,
    raw_len: int,
    special_header_total: int,
) -> int {
    8 + 8 * send_statics + 12 * send_buffers + 12 * recv_buffers + 12 * exch_buffers + 4 * raw_len
        + special_header_total
}

/// The total serialized size of a command with the given composition: the
/// base, plus exactly one of the receive-static list, the padded inline
/// buffer, the pointer-buffer entry, or nothing.
pub open spec fn spec_consumed_space(
    send_statics: int,
    send_buffers: int,
    recv_buffers: int,
    exch_buffers: int,
    recv_statics: int,
    raw_len: int,
    inline_buff_len: int,
    special_header_total: int,
    has_pointer_buffer: bool,
) -> int {
    let base = spec_base_size(
        send_statics,
        send_buffers,
        recv_buffers,
        exch_buffers,
        raw_len,
        special_header_total,
    );
    if recv_statics > 0 {
        base + 8 * recv_statics
    } else if inline_buff_len > 0 {
        spec_align16(base) + inline_buff_len
    } else if has_pointer_buffer {
        base + 8
    } else {
        base
    }
}

/// The 4-bit receive mode placed in the header: `recv_statics + 2` when
/// receive statics are present, else 1 with an inline buffer, else 2 with a
/// pointer buffer, else 0.
pub open spec fn spec_recv_mode(
    recv_statics: int,
    inline_buff_len: int,
    has_pointer_buffer: bool,
) -> u8
    recommends
        0 <= recv_statics <= 13,
{
    if recv_statics > 0 {
        (recv_statics + 2) as u8
    } else if inline_buff_len > 0 {
        1
    } else if has_pointer_buffer {
        2
    } else {
        0
    }
}

/// Calculates the consumed space of a command with the given composition, in
/// bytes. The receive-side arguments must be mutually exclusive.
pub fn consumed_space(
    send_statics: usize,
    send_buffers: usize,
    recv_buffers: usize,
    exch_buffers: usize,
    recv_statics: usize,
    raw_len: usize,
    inline_buff_len: usize,
    special_header_total: usize,
    has_pointer_buffer: bool,
) -> (r: usize)
    requires
        spec_recv_list_exclusive(
            recv_statics as int,
            inline_buff_len as int,
            has_pointer_buffer,
        ),
        spec_consumed_space(
            send_statics as int,
            send_buffers as int,
            recv_buffers as int,
            exch_buffers as int,
            recv_statics as int,
            raw_len as int,
            inline_buff_len as int,
            special_header_total as int,
            has_pointer_buffer,
        ) <= usize::MAX,
    ensures
        r as int == spec_consumed_space(
            send_statics as int,
            send_buffers as int,
            recv_buffers as int,
            exch_buffers as int,
            recv_statics as int,
            raw_len as int,
            inline_buff_len as int,
            special_header_total as int,
            has_pointer_buffer,
        ),
{
    proof {
        lemma_align16_bounds(
            spec_base_size(
                send_statics as int,
                send_buffers as int,
                recv_buffers as int,
                exch_buffers as int,
                raw_len as int,
                special_header_total as int,
            ),
        );
    }
    let mut total: usize = 8;
    total = total + 8 * send_statics;
    total = total + 12 * send_buffers;
    total = total + 12 * recv_buffers;
    total = total + 12 * exch_buffers;
    total = total + 4 * raw_len;
    total = total + special_header_total;
    if recv_statics > 0 {
        total + 8 * recv_statics
    } else if inline_buff_len != 0 {
        let pad: usize = (16 - total % 16) % 16;
        total + pad + inline_buff_len
    } else if has_pointer_buffer {
        total + 8
    } else {
        total
    }
}

/// Calculates the consumed space as [`consumed_space`] does, for a
/// composition already known to fit the 256-byte TLS command region.
pub fn consumed_space_for_tls(
    send_statics: usize,
    send_buffers: usize,
    recv_buffers: usize,
    exch_buffers: usize,
    recv_statics: usize,
    raw_len: usize,
    inline_buff_len: usize,
    special_header_total: usize,
    has_pointer_buffer: bool,
) -> (r: usize)
    requires
        spec_recv_list_exclusive(
            recv_statics as int,
            inline_buff_len as int,
            has_pointer_buffer,
        ),
        spec_consumed_space(
            send_statics as int,
            send_buffers as int,
            recv_buffers as int,
            exch_buffers as int,
            recv_statics as int,
            raw_len as int,
            inline_buff_len as int,
            special_header_total as int,
            has_pointer_buffer,
        ) <= MAX_TLS_BUFFER_SIZE,
    ensures
        r as int == spec_consumed_space(
            send_statics as int,
            send_buffers as int,
            recv_buffers as int,
            exch_buffers as int,
            recv_statics as int,
            raw_len as int,
            inline_buff_len as int,
            special_header_total as int,
            has_pointer_buffer,
        ),
        r <= MAX_TLS_BUFFER_SIZE,
{
    consumed_space(
        send_statics,
        send_buffers,
        recv_buffers,
        exch_buffers,
        recv_statics,
        raw_len,
        inline_buff_len,
        special_header_total,
        has_pointer_buffer,
    )
}

/// Increments a value that sits below its ceiling.
pub fn safe_increment(current: usize, max: usize) -> (r: usize)
    requires
        current < max,
    ensures
        r == current + 1,
{
    current + 1
}

/// Pushes a value onto an array, extending its length by one.
pub fn push_array<T>(current: Vec<T>, next: T) -> (r: Vec<T>)
    ensures
        r@ == current@.push(next),
{
    let mut out = current;
    out.push(next);
    out
}

/// Returns the 4-bit receive mode for the command, from the receive-side
/// arguments, which must be mutually exclusive.
pub fn get_recv_mode(recv_statics: usize, inline_buff_len: usize, has_pointer_buffer: bool) -> (r:
    u8)
    requires
        spec_recv_list_exclusive(
            recv_statics as int,
            inline_buff_len as int,
            has_pointer_buffer,
        ),
        recv_statics <= 13,
    ensures
        r == spec_recv_mode(recv_statics as int, inline_buff_len as int, has_pointer_buffer),
{
    if recv_statics != 0 {
        (recv_statics as u8) + 2
    } else if inline_buff_len != 0 {
        1
    } else if has_pointer_buffer {
        2
    } else {
        0
    }
}

/// Writes `input` into `base` at index `start`, leaving every other byte as
/// it was.
pub fn byte_array_write(base: Vec<u8>, input: Vec<u8>, start: usize) -> (r: Vec<u8>)
    requires
        start + input@.len() <= base@.len(),
    ensures
        r@.len() == base@.len(),
        forall|i: int|
            0 <= i < base@.len() ==> r@[i] == (if start <= i < start + input@.len() {
                input@[i - start]
            } else {
                base@[i]
            }),
{
    let mut out: Vec<u8> = Vec::new();
    let mut i: usize = 0;
    while i < base.len()
        invariant
            start + input@.len() <= base@.len(),
            i <= base@.len(),
            out@.len() == i,
            forall|j: int|
                0 <= j < i ==> out@[j] == (if start <= j < start + input@.len() {
                    input@[j - start]
                } else {
                    base@[j]
                }),
        decreases base@.len() - i,
    {
        if i >= start && i < start + input.len() {
            out.push(input[i - start]);
        } else {
            out.push(base[i]);
        }
        i = i + 1;
    }
    out
}

/// Command builder for a HIPC command.
///
/// Composition is by extension: every `with_` step consumes the builder and
/// returns the extended one, or the composition failure the step causes. A
/// builder obtained from [`new_builder`] and extended only through
/// successful steps always satisfies [`HipcCommandBuilder::wf`], so
/// [`HipcCommandBuilder::build`] serializes it without any error path.
#[derive(Debug)]
pub struct HipcCommandBuilder {
    /// The command kind.
    pub ty: CommandType,
    /// The send statics ("in pointers"), in insertion order; at most 15.
    pub send_statics: Vec<StaticDescriptor>,
    /// The send buffers, in insertion order; at most 15.
    pub send_buffers: Vec<BufferDescriptor>,
    /// The receive buffers, in insertion order; at most 15.
    pub recv_buffers: Vec<BufferDescriptor>,
    /// The exchange buffers, in insertion order; at most 15.
    pub exch_buffers: Vec<BufferDescriptor>,
    /// The receive statics ("out pointers"), in insertion order; at most 13.
    pub recv_statics: Vec<ReceiveListEntry>,
    /// The special header, if any.
    pub special_hdr: Option<SpecialHeaderBuilder>,
    /// The pointer buffer, if any.
    pub pointer_buf: Option<ReceiveListEntry>,
    /// The raw-data payload, as 32-bit words.
    pub raw_data: Vec<u32>,
    /// The inline buffer; empty when absent.
    pub inline_buffer: Vec<u8>,
}

impl HipcCommandBuilder {
    /// The serialized size of the special header, or 0 when none is present.
    pub open spec fn special_total(self) -> int {
        match self.special_hdr {
            Some(h) => h.total_size(),
            None => 0,
        }
    }

    /// The size of this command before its receive-side tail.
    pub open spec fn base_size(self) -> int {
        spec_base_size(
            self.send_statics@.len() as int,
            self.send_buffers@.len() as int,
            self.recv_buffers@.len() as int,
            self.exch_buffers@.len() as int,
            self.raw_data@.len() as int,
            self.special_total(),
        )
    }

    /// The total number of bytes [`Self::build`] emits for this composition.
    pub open spec fn total_size(self) -> int {
        spec_consumed_space(
            self.send_statics@.len() as int,
            self.send_buffers@.len() as int,
            self.recv_buffers@.len() as int,
            self.exch_buffers@.len() as int,
            self.recv_statics@.len() as int,
            self.raw_data@.len() as int,
            self.inline_buffer@.len() as int,
            self.special_total(),
            self.pointer_buf is Some,
        )
    }

    /// Well-formed: every cardinality ceiling holds, the receive-side
    /// constructs are mutually exclusive, and the whole command fits the
    /// 256-byte TLS command region. Every successful composition step
    /// preserves this.
    pub open spec fn wf(self) -> bool {
        &&& self.send_statics@.len() <= 15
        &&& self.send_buffers@.len() <= 15
        &&& self.recv_buffers@.len() <= 15
        &&& self.exch_buffers@.len() <= 15
        &&& self.recv_statics@.len() <= 13
        &&& (self.special_hdr matches Some(h) ==> h.wf())
        &&& spec_recv_list_exclusive(
            self.recv_statics@.len() as int,
            self.inline_buffer@.len() as int,
            self.pointer_buf is Some,
        )
        &&& self.total_size() <= MAX_TLS_BUFFER_SIZE
    }

    /// The header word pair [`Self::build`] derives from this composition:
    /// the kind tag, the four descriptor counts, the raw-data length, the
    /// receive mode, a zero receive-list offset and the special-header flag.
    pub open spec fn header_view(self) -> Header {
        spec_header_new(
            self.ty.spec_value(),
            self.send_statics@.len() as u64,
            self.send_buffers@.len() as u64,
            self.recv_buffers@.len() as u64,
            self.exch_buffers@.len() as u64,
            self.raw_data@.len() as u64,
            spec_recv_mode(
                self.recv_statics@.len() as int,
                self.inline_buffer@.len() as int,
                self.pointer_buf is Some,
            ),
            0,
            self.special_hdr is Some,
        )
    }

    /// The bytes of the special header, empty when none is present.
    pub open spec fn special_view(self) -> Seq<u8> {
        match self.special_hdr {
            Some(h) => h.byte_view(),
            None => Seq::empty(),
        }
    }

    /// The serialized command without its receive-side tail: header, special
    /// header, send statics, the three buffer runs, raw data.
    pub open spec fn base_view(self) -> Seq<u8> {
        self.header_view().byte_view() + self.special_view() + seq_bytes(self.send_statics@)
            + seq_bytes(self.send_buffers@) + seq_bytes(self.recv_buffers@) + seq_bytes(
            self.exch_buffers@,
        ) + seq_bytes(self.raw_data@)
    }

    /// The offset at which the inline buffer is written: the end of the raw
    /// data, rounded up to the next 16-byte boundary.
    pub open spec fn inline_offset(self) -> int {
        spec_align16(self.base_size())
    }

    /// The receive-side tail of the serialized command: the receive statics,
    /// or the zero padding and the inline buffer, or the pointer-buffer
    /// entry, or nothing.
    pub open spec fn tail_view(self) -> Seq<u8> {
        if self.recv_statics@.len() > 0 {
            seq_bytes(self.recv_statics@)
        } else if self.inline_buffer@.len() > 0 {
            zero_bytes(self.inline_offset() - self.base_size()) + self.inline_buffer@
        } else if self.pointer_buf is Some {
            self.pointer_buf.unwrap().byte_view()
        } else {
            Seq::empty()
        }
    }

    /// The exact bytes [`Self::build`] returns for this composition.
    pub open spec fn byte_view(self) -> Seq<u8> {
        self.base_view() + self.tail_view()
    }

    /// The special-header bytes are exactly `special_total` long.
    pub proof fn lemma_special_view_len(self)
        ensures
            self.special_view().len() == self.special_total(),
    {
        match self.special_hdr {
            Some(h) => {
                lemma_seq_bytes_len_u32(h.copy_handles@);
                lemma_seq_bytes_len_u32(h.move_handles@);
            },
            None => {},
        }
    }

    /// The untailed serialization is exactly `base_size` bytes long.
    pub proof fn lemma_base_view_len(self)
        ensures
            self.base_view().len() == self.base_size(),
    {
        self.lemma_special_view_len();
        lemma_seq_bytes_len_static(self.send_statics@);
        lemma_seq_bytes_len_buffer(self.send_buffers@);
        lemma_seq_bytes_len_buffer(self.recv_buffers@);
        lemma_seq_bytes_len_buffer(self.exch_buffers@);
        lemma_seq_bytes_len_u32(self.raw_data@);
    }

    /// Returns the serialized size of the special header, or 0 when none is
    /// present.
    fn special_bytes_len(&self) -> (r: usize)
        requires
            self.special_hdr matches Some(h) ==> h.wf(),
        ensures
            r as int == self.special_total(),
    {
        match &self.special_hdr {
            Some(h) => {
                let pids: usize = if h.process_id.is_some() {
                    1
                } else {
                    0
                };
                crate::header::consumed_space(pids, h.copy_handles.len(), h.move_handles.len())
            },
            None => 0,
        }
    }

    /// Constructs a new, empty command of the given kind.
    pub fn new(ty: CommandType) -> (r: HipcCommandBuilder)
        ensures
            r.ty == ty,
            r.send_statics@.len() == 0,
            r.send_buffers@.len() == 0,
            r.recv_buffers@.len() == 0,
            r.exch_buffers@.len() == 0,
            r.recv_statics@.len() == 0,
            r.special_hdr is None,
            r.pointer_buf is None,
            r.raw_data@.len() == 0,
            r.inline_buffer@.len() == 0,
            r.wf(),
            r.total_size() == 8,
    {
        HipcCommandBuilder {
            ty,
            send_statics: Vec::new(),
            send_buffers: Vec::new(),
            recv_buffers: Vec::new(),
            exch_buffers: Vec::new(),
            recv_statics: Vec::new(),
            special_hdr: None,
            pointer_buf: None,
            raw_data: Vec::new(),
            inline_buffer: Vec::new(),
        }
    }

    /// Adds a send static ("in pointer") to this command.
    ///
    /// Fails with [`HipcError::TooManySendStatics`] exactly when 15 are
    /// already present, and with [`HipcError::TlsCapExceeded`] exactly when
    /// the extended command would exceed 256 bytes.
    pub fn with_send_static(self, desc: StaticDescriptor) -> (r: Result<
        HipcCommandBuilder,
        HipcError,
    >)
        requires
            self.wf(),
        ensures
            ({
                let n = self.send_statics@.len() as int;
                let new_total = spec_consumed_space(
                    n + 1,
                    self.send_buffers@.len() as int,
                    self.recv_buffers@.len() as int,
                    self.exch_buffers@.len() as int,
                    self.recv_statics@.len() as int,
                    self.raw_data@.len() as int,
                    self.inline_buffer@.len() as int,
                    self.special_total(),
                    self.pointer_buf is Some,
                );
                &&& (n >= 15 ==> r is Err && r->Err_0 == HipcError::TooManySendStatics)
                &&& (n < 15 && new_total > MAX_TLS_BUFFER_SIZE ==> r is Err && r->Err_0
                    == HipcError::TlsCapExceeded)
                &&& (n < 15 && new_total <= MAX_TLS_BUFFER_SIZE ==> r is Ok && {
                    let b = r->Ok_0;
                    &&& b.ty == self.ty
                    &&& b.send_statics@ == self.send_statics@.push(desc)
                    &&& b.send_buffers@ == self.send_buffers@
                    &&& b.recv_buffers@ == self.recv_buffers@
                    &&& b.exch_buffers@ == self.exch_buffers@
                    &&& b.recv_statics@ == self.recv_statics@
                    &&& b.special_hdr == self.special_hdr
                    &&& b.pointer_buf == self.pointer_buf
                    &&& b.raw_data@ == self.raw_data@
                    &&& b.inline_buffer@ == self.inline_buffer@
                    &&& b.wf()
                    &&& b.total_size() == new_total
                })
            }),
    {
        if self.send_statics.len() >= 15 {
            return Err(HipcError::TooManySendStatics);
        }
        let sh_total = self.special_bytes_len();
        proof {
            lemma_align16_bounds(self.base_size());
            lemma_align16_bounds(self.base_size() + 8);
        }
        let new_total = consumed_space(
            self.send_statics.len() + 1,
            self.send_buffers.len(),
            self.recv_buffers.len(),
            self.exch_buffers.len(),
            self.recv_statics.len(),
            self.raw_data.len(),
            self.inline_buffer.len(),
            sh_total,
            self.pointer_buf.is_some(),
        );
        if new_total > MAX_TLS_BUFFER_SIZE {
            return Err(HipcError::TlsCapExceeded);
        }
        let mut send_statics = self.send_statics;
        send_statics.push(desc);
        Ok(
            HipcCommandBuilder {
                ty: self.ty,
                send_statics,
                send_buffers: self.send_buffers,
                recv_buffers: self.recv_buffers,
                exch_buffers: self.exch_buffers,
                recv_statics: self.recv_statics,
                special_hdr: self.special_hdr,
                pointer_buf: self.pointer_buf,
                raw_data: self.raw_data,
                inline_buffer: self.inline_buffer,
            },
        )
    }

    /// Adds a send buffer to this command.
    ///
    /// Fails with [`HipcError::TooManySendBuffers`] exactly when 15 are
    /// already present, and with [`HipcError::TlsCapExceeded`] exactly when
    /// the extended command would exceed 256 bytes.
    pub fn with_send_buffer(self, desc: BufferDescriptor) -> (r: Result<
        HipcCommandBuilder,
        HipcError,
    >)
        requires
            self.wf(),
        ensures
            ({
                let n = self.send_buffers@.len() as int;
                let new_total = spec_consumed_space(
                    self.send_statics@.len() as int,
                    n + 1,
                    self.recv_buffers@.len() as int,
                    self.exch_buffers@.len() as int,
                    self.recv_statics@.len() as int,
                    self.raw_data@.len() as int,
                    self.inline_buffer@.len() as int,
                    self.special_total(),
                    self.pointer_buf is Some,
                );
                &&& (n >= 15 ==> r is Err && r->Err_0 == HipcError::TooManySendBuffers)
                &&& (n < 15 && new_total > MAX_TLS_BUFFER_SIZE ==> r is Err && r->Err_0
                    == HipcError::TlsCapExceeded)
                &&& (n < 15 && new_total <= MAX_TLS_BUFFER_SIZE ==> r is Ok && {
                    let b = r->Ok_0;
                    &&& b.ty == self.ty
                    &&& b.send_statics@ == self.send_statics@
                    &&& b.send_buffers@ == self.send_buffers@.push(desc)
                    &&& b.recv_buffers@ == self.recv_buffers@
                    &&& b.exch_buffers@ == self.exch_buffers@
                    &&& b.recv_statics@ == self.recv_statics@
                    &&& b.special_hdr == self.special_hdr
                    &&& b.pointer_buf == self.pointer_buf
                    &&& b.raw_data@ == self.raw_data@
                    &&& b.inline_buffer@ == self.inline_buffer@
                    &&& b.wf()
                    &&& b.total_size() == new_total
                })
            }),
    {
        if self.send_buffers.len() >= 15 {
            return Err(HipcError::TooManySendBuffers);
        }
        let sh_total = self.special_bytes_len();
        proof {
            lemma_align16_bounds(self.base_size());
            lemma_align16_bounds(self.base_size() + 12);
        }
        let new_total = consumed_space(
            self.send_statics.len(),
            self.send_buffers.len() + 1,
            self.recv_buffers.len(),
            self.exch_buffers.len(),
            self.recv_statics.len(),
            self.raw_data.len(),
            self.inline_buffer.len(),
            sh_total,
            self.pointer_buf.is_some(),
        );
        if new_total > MAX_TLS_BUFFER_SIZE {
            return Err(HipcError::TlsCapExceeded);
        }
        let mut send_buffers = self.send_buffers;
        send_buffers.push(desc);
        Ok(
            HipcCommandBuilder {
                ty: self.ty,
                send_statics: self.send_statics,
                send_buffers,
                recv_buffers: self.recv_buffers,
                exch_buffers: self.exch_buffers,
                recv_statics: self.recv_statics,
                special_hdr: self.special_hdr,
                pointer_buf: self.pointer_buf,
                raw_data: self.raw_data,
                inline_buffer: self.inline_buffer,
            },
        )
    }

    /// Adds a receive buffer to this command.
    ///
    /// Fails with [`HipcError::TooManyRecvBuffers`] exactly when 15 are
    /// already present, and with [`HipcError::TlsCapExceeded`] exactly when
    /// the extended command would exceed 256 bytes.
    pub fn with_recv_buffer(self, desc: BufferDescriptor) -> (r: Result<
        HipcCommandBuilder,
        HipcError,
    >)
        requires
            self.wf(),
        ensures
            ({
                let n = self.recv_buffers@.len() as int;
                let new_total = spec_consumed_space(
                    self.send_statics@.len() as int,
                    self.send_buffers@.len() as int,
                    n + 1,
                    self.exch_buffers@.len() as int,
                    self.recv_statics@.len() as int,
                    self.raw_data@.len() as int,
                    self.inline_buffer@.len() as int,
                    self.special_total(),
                    self.pointer_buf is Some,
                );
                &&& (n >= 15 ==> r is Err && r->Err_0 == HipcError::TooManyRecvBuffers)
                &&& (n < 15 && new_total > MAX_TLS_BUFFER_SIZE ==> r is Err && r->Err_0
                    == HipcError::TlsCapExceeded)
                &&& (n < 15 && new_total <= MAX_TLS_BUFFER_SIZE ==> r is Ok && {
                    let b = r->Ok_0;
                    &&& b.ty == self.ty
                    &&& b.send_statics@ == self.send_statics@
                    &&& b.send_buffers@ == self.send_buffers@
                    &&& b.recv_buffers@ == self.recv_buffers@.push(desc)
                    &&& b.exch_buffers@ == self.exch_buffers@
                    &&& b.recv_statics@ == self.recv_statics@
                    &&& b.special_hdr == self.special_hdr
                    &&& b.pointer_buf == self.pointer_buf
                    &&& b.raw_data@ == self.raw_data@
                    &&& b.inline_buffer@ == self.inline_buffer@
                    &&& b.wf()
                    &&& b.total_size() == new_total
                })
            }),
    {
        if self.recv_buffers.len() >= 15 {
            return Err(HipcError::TooManyRecvBuffers);
        }
        let sh_total = self.special_bytes_len();
        proof {
            lemma_align16_bounds(self.base_size());
            lemma_align16_bounds(self.base_size() + 12);
        }
        let new_total = consumed_space(
            self.send_statics.len(),
            self.send_buffers.len(),
            self.recv_buffers.len() + 1,
            self.exch_buffers.len(),
            self.recv_statics.len(),
            self.raw_data.len(),
            self.inline_buffer.len(),
            sh_total,
            self.pointer_buf.is_some(),
        );
        if new_total > MAX_TLS_BUFFER_SIZE {
            return Err(HipcError::TlsCapExceeded);
        }
        let mut recv_buffers = self.recv_buffers;
        recv_buffers.push(desc);
        Ok(
            HipcCommandBuilder {
                ty: self.ty,
                send_statics: self.send_statics,
                send_buffers: self.send_buffers,
                recv_buffers,
                exch_buffers: self.exch_buffers,
                recv_statics: self.recv_statics,
                special_hdr: self.special_hdr,
                pointer_buf: self.pointer_buf,
                raw_data: self.raw_data,
                inline_buffer: self.inline_buffer,
            },
        )
    }

    /// Adds an exchange buffer to this command.
    ///
    /// Fails with [`HipcError::TooManyExchBuffers`] exactly when 15 are
    /// already present, and with [`HipcError::TlsCapExceeded`] exactly when
    /// the extended command would exceed 256 bytes.
    pub fn with_exch_buffer(self, desc: BufferDescriptor) -> (r: Result<
        HipcCommandBuilder,
        HipcError,
    >)
        requires
            self.wf(),
        ensures
            ({
                let n = self.exch_buffers@.len() as int;
                let new_total = spec_consumed_space(
                    self.send_statics@.len() as int,
                    self.send_buffers@.len() as int,
                    self.recv_buffers@.len() as int,
                    n + 1,
                    self.recv_statics@.len() as int,
                    self.raw_data@.len() as int,
                    self.inline_buffer@.len() as int,
                    self.special_total(),
                    self.pointer_buf is Some,
                );
                &&& (n >= 15 ==> r is Err && r->Err_0 == HipcError::TooManyExchBuffers)
                &&& (n < 15 && new_total > MAX_TLS_BUFFER_SIZE ==> r is Err && r->Err_0
                    == HipcError::TlsCapExceeded)
                &&& (n < 15 && new_total <= MAX_TLS_BUFFER_SIZE ==> r is Ok && {
                    let b = r->Ok_0;
                    &&& b.ty == self.ty
                    &&& b.send_statics@ == self.send_statics@
                    &&& b.send_buffers@ == self.send_buffers@
                    &&& b.recv_buffers@ == self.recv_buffers@
                    &&& b.exch_buffers@ == self.exch_buffers@.push(desc)
                    &&& b.recv_statics@ == self.recv_statics@
                    &&& b.special_hdr == self.special_hdr
                    &&& b.pointer_buf == self.pointer_buf
                    &&& b.raw_data@ == self.raw_data@
                    &&& b.inline_buffer@ == self.inline_buffer@
                    &&& b.wf()
                    &&& b.total_size() == new_total
                })
            }),
    {
        if self.exch_buffers.len() >= 15 {
            return Err(HipcError::TooManyExchBuffers);
        }
        let sh_total = self.special_bytes_len();
        proof {
            lemma_align16_bounds(self.base_size());
            lemma_align16_bounds(self.base_size() + 12);
        }
        let new_total = consumed_space(
            self.send_statics.len(),
            self.send_buffers.len(),
            self.recv_buffers.len(),
            self.exch_buffers.len() + 1,
            self.recv_statics.len(),
            self.raw_data.len(),
            self.inline_buffer.len(),
            sh_total,
            self.pointer_buf.is_some(),
        );
        if new_total > MAX_TLS_BUFFER_SIZE {
            return Err(HipcError::TlsCapExceeded);
        }
        let mut exch_buffers = self.exch_buffers;
        exch_buffers.push(desc);
        Ok(
            HipcCommandBuilder {
                ty: self.ty,
                send_statics: self.send_statics,
                send_buffers: self.send_buffers,
                recv_buffers: self.recv_buffers,
                exch_buffers,
                recv_statics: self.recv_statics,
                special_hdr: self.special_hdr,
                pointer_buf: self.pointer_buf,
                raw_data: self.raw_data,
                inline_buffer: self.inline_buffer,
            },
        )
    }

    /// Adds a receive static ("out pointer") to this command.
    ///
    /// Fails with [`HipcError::TooManyRecvStatics`] exactly when 13 are
    /// already present, with [`HipcError::ReceiveListConflict`] exactly when
    /// an inline buffer or a pointer buffer is present, and with
    /// [`HipcError::TlsCapExceeded`] exactly when the extended command would
    /// exceed 256 bytes.
    pub fn with_recv_static(self, desc: ReceiveListEntry) -> (r: Result<
        HipcCommandBuilder,
        HipcError,
    >)
        requires
            self.wf(),
        ensures
            ({
                let n = self.recv_statics@.len() as int;
                let conflict = self.inline_buffer@.len() > 0 || self.pointer_buf is Some;
                let new_total = spec_consumed_space(
                    self.send_statics@.len() as int,
                    self.send_buffers@.len() as int,
                    self.recv_buffers@.len() as int,
                    self.exch_buffers@.len() as int,
                    n + 1,
                    self.raw_data@.len() as int,
                    0,
                    self.special_total(),
                    false,
                );
                &&& (n >= 13 ==> r is Err && r->Err_0 == HipcError::TooManyRecvStatics)
                &&& (n < 13 && conflict ==> r is Err && r->Err_0 == HipcError::ReceiveListConflict)
                &&& (n < 13 && !conflict && new_total > MAX_TLS_BUFFER_SIZE ==> r is Err && r->Err_0
                    == HipcError::TlsCapExceeded)
                &&& (n < 13 && !conflict && new_total <= MAX_TLS_BUFFER_SIZE ==> r is Ok && {
                    let b = r->Ok_0;
                    &&& b.ty == self.ty
                    &&& b.send_statics@ == self.send_statics@
                    &&& b.send_buffers@ == self.send_buffers@
                    &&& b.recv_buffers@ == self.recv_buffers@
                    &&& b.exch_buffers@ == self.exch_buffers@
                    &&& b.recv_statics@ == self.recv_statics@.push(desc)
                    &&& b.special_hdr == self.special_hdr
                    &&& b.pointer_buf == self.pointer_buf
                    &&& b.raw_data@ == self.raw_data@
                    &&& b.inline_buffer@ == self.inline_buffer@
                    &&& b.wf()
                    &&& b.total_size() == new_total
                })
            }),
    {
        if self.recv_statics.len() >= 13 {
            return Err(HipcError::TooManyRecvStatics);
        }
        if self.inline_buffer.len() > 0 || self.pointer_buf.is_some() {
            return Err(HipcError::ReceiveListConflict);
        }
        let sh_total = self.special_bytes_len();
        proof {
            lemma_align16_bounds(self.base_size());
        }
        let new_total = consumed_space(
            self.send_statics.len(),
            self.send_buffers.len(),
            self.recv_buffers.len(),
            self.exch_buffers.len(),
            self.recv_statics.len() + 1,
            self.raw_data.len(),
            0,
            sh_total,
            false,
        );
        if new_total > MAX_TLS_BUFFER_SIZE {
            return Err(HipcError::TlsCapExceeded);
        }
        let mut recv_statics = self.recv_statics;
        recv_statics.push(desc);
        Ok(
            HipcCommandBuilder {
                ty: self.ty,
                send_statics: self.send_statics,
                send_buffers: self.send_buffers,
                recv_buffers: self.recv_buffers,
                exch_buffers: self.exch_buffers,
                recv_statics,
                special_hdr: self.special_hdr,
                pointer_buf: self.pointer_buf,
                raw_data: self.raw_data,
                inline_buffer: self.inline_buffer,
            },
        )
    }

    /// Adds the special header to this command.
    ///
    /// Fails with [`HipcError::TooManySpecialHeaders`] exactly when one is
    /// already present, and with [`HipcError::TlsCapExceeded`] exactly when
    /// the extended command would exceed 256 bytes.
    pub fn with_special_header(self, header: SpecialHeaderBuilder) -> (r: Result<
        HipcCommandBuilder,
        HipcError,
    >)
        requires
            self.wf(),
            header.wf(),
        ensures
            ({
                let new_total = spec_consumed_space(
                    self.send_statics@.len() as int,
                    self.send_buffers@.len() as int,
                    self.recv_buffers@.len() as int,
                    self.exch_buffers@.len() as int,
                    self.recv_statics@.len() as int,
                    self.raw_data@.len() as int,
                    self.inline_buffer@.len() as int,
                    header.total_size(),
                    self.pointer_buf is Some,
                );
                &&& (self.special_hdr is Some ==> r is Err && r->Err_0
                    == HipcError::TooManySpecialHeaders)
                &&& (self.special_hdr is None && new_total > MAX_TLS_BUFFER_SIZE ==> r is Err
                    && r->Err_0 == HipcError::TlsCapExceeded)
                &&& (self.special_hdr is None && new_total <= MAX_TLS_BUFFER_SIZE ==> r is Ok && {
                    let b = r->Ok_0;
                    &&& b.ty == self.ty
                    &&& b.send_statics@ == self.send_statics@
                    &&& b.send_buffers@ == self.send_buffers@
                    &&& b.recv_buffers@ == self.recv_buffers@
                    &&& b.exch_buffers@ == self.exch_buffers@
                    &&& b.recv_statics@ == self.recv_statics@
                    &&& b.special_hdr == Some(header)
                    &&& b.pointer_buf == self.pointer_buf
                    &&& b.raw_data@ == self.raw_data@
                    &&& b.inline_buffer@ == self.inline_buffer@
                    &&& b.wf()
                    &&& b.total_size() == new_total
                })
            }),
    {
        if self.special_hdr.is_some() {
            return Err(HipcError::TooManySpecialHeaders);
        }
        let pids: usize = if header.process_id.is_some() {
            1
        } else {
            0
        };
        let sh_total = crate::header::consumed_space(
            pids,
            header.copy_handles.len(),
            header.move_handles.len(),
        );
        proof {
            lemma_align16_bounds(self.base_size());
            lemma_align16_bounds(self.base_size() + header.total_size());
        }
        let new_total = consumed_space(
            self.send_statics.len(),
            self.send_buffers.len(),
            self.recv_buffers.len(),
            self.exch_buffers.len(),
            self.recv_statics.len(),
            self.raw_data.len(),
            self.inline_buffer.len(),
            sh_total,
            self.pointer_buf.is_some(),
        );
        if new_total > MAX_TLS_BUFFER_SIZE {
            return Err(HipcError::TlsCapExceeded);
        }
        Ok(
            HipcCommandBuilder {
                ty: self.ty,
                send_statics: self.send_statics,
                send_buffers: self.send_buffers,
                recv_buffers: self.recv_buffers,
                exch_buffers: self.exch_buffers,
                recv_statics: self.recv_statics,
                special_hdr: Some(header),
                pointer_buf: self.pointer_buf,
                raw_data: self.raw_data,
                inline_buffer: self.inline_buffer,
            },
        )
    }

    /// Adds the pointer buffer to this command.
    ///
    /// Fails with [`HipcError::TooManyPointerBuffers`] exactly when one is
    /// already present, with [`HipcError::ReceiveListConflict`] exactly when
    /// receive statics or an inline buffer are present, and with
    /// [`HipcError::TlsCapExceeded`] exactly when the extended command would
    /// exceed 256 bytes.
    pub fn with_pointer_buffer(self, desc: ReceiveListEntry) -> (r: Result<
        HipcCommandBuilder,
        HipcError,
    >)
        requires
            self.wf(),
        ensures
            ({
                let conflict = self.recv_statics@.len() > 0 || self.inline_buffer@.len() > 0;
                let new_total = spec_consumed_space(
                    self.send_statics@.len() as int,
                    self.send_buffers@.len() as int,
                    self.recv_buffers@.len() as int,
                    self.exch_buffers@.len() as int,
                    0,
                    self.raw_data@.len() as int,
                    0,
                    self.special_total(),
                    true,
                );
                &&& (self.pointer_buf is Some ==> r is Err && r->Err_0
                    == HipcError::TooManyPointerBuffers)
                &&& (self.pointer_buf is None && conflict ==> r is Err && r->Err_0
                    == HipcError::ReceiveListConflict)
                &&& (self.pointer_buf is None && !conflict && new_total > MAX_TLS_BUFFER_SIZE ==> r
                    is Err && r->Err_0 == HipcError::TlsCapExceeded)
                &&& (self.pointer_buf is None && !conflict && new_total <= MAX_TLS_BUFFER_SIZE ==> r
                    is Ok && {
                    let b = r->Ok_0;
                    &&& b.ty == self.ty
                    &&& b.send_statics@ == self.send_statics@
                    &&& b.send_buffers@ == self.send_buffers@
                    &&& b.recv_buffers@ == self.recv_buffers@
                    &&& b.exch_buffers@ == self.exch_buffers@
                    &&& b.recv_statics@ == self.recv_statics@
                    &&& b.special_hdr == self.special_hdr
                    &&& b.pointer_buf == Some(desc)
                    &&& b.raw_data@ == self.raw_data@
                    &&& b.inline_buffer@ == self.inline_buffer@
                    &&& b.wf()
                    &&& b.total_size() == new_total
                })
            }),
    {
        if self.pointer_buf.is_some() {
            return Err(HipcError::TooManyPointerBuffers);
        }
        if self.recv_statics.len() > 0 || self.inline_buffer.len() > 0 {
            return Err(HipcError::ReceiveListConflict);
        }
        let sh_total = self.special_bytes_len();
        proof {
            lemma_align16_bounds(self.base_size());
        }
        let new_total = consumed_space(
            self.send_statics.len(),
            self.send_buffers.len(),
            self.recv_buffers.len(),
            self.exch_buffers.len(),
            0,
            self.raw_data.len(),
            0,
            sh_total,
            true,
        );
        if new_total > MAX_TLS_BUFFER_SIZE {
            return Err(HipcError::TlsCapExceeded);
        }
        Ok(
            HipcCommandBuilder {
                ty: self.ty,
                send_statics: self.send_statics,
                send_buffers: self.send_buffers,
                recv_buffers: self.recv_buffers,
                exch_buffers: self.exch_buffers,
                recv_statics: self.recv_statics,
                special_hdr: self.special_hdr,
                pointer_buf: Some(desc),
                raw_data: self.raw_data,
                inline_buffer: self.inline_buffer,
            },
        )
    }

    /// Sets the raw-data payload of this command, replacing any prior one.
    ///
    /// Fails with [`HipcError::TlsCapExceeded`] exactly when the command
    /// with the new payload would exceed 256 bytes.
    pub fn with_raw_data<T: IntoWords>(self, data: T) -> (r: Result<HipcCommandBuilder, HipcError>)
        requires
            self.wf(),
        ensures
            ({
                let new_total = spec_consumed_space(
                    self.send_statics@.len() as int,
                    self.send_buffers@.len() as int,
                    self.recv_buffers@.len() as int,
                    self.exch_buffers@.len() as int,
                    self.recv_statics@.len() as int,
                    data.word_view().len() as int,
                    self.inline_buffer@.len() as int,
                    self.special_total(),
                    self.pointer_buf is Some,
                );
                &&& (new_total > MAX_TLS_BUFFER_SIZE ==> r is Err && r->Err_0
                    == HipcError::TlsCapExceeded)
                &&& (new_total <= MAX_TLS_BUFFER_SIZE ==> r is Ok && {
                    let b = r->Ok_0;
                    &&& b.ty == self.ty
                    &&& b.send_statics@ == self.send_statics@
                    &&& b.send_buffers@ == self.send_buffers@
                    &&& b.recv_buffers@ == self.recv_buffers@
                    &&& b.exch_buffers@ == self.exch_buffers@
                    &&& b.recv_statics@ == self.recv_statics@
                    &&& b.special_hdr == self.special_hdr
                    &&& b.pointer_buf == self.pointer_buf
                    &&& b.raw_data@ == data.word_view()
                    &&& b.inline_buffer@ == self.inline_buffer@
                    &&& b.wf()
                    &&& b.total_size() == new_total
                })
            }),
    {
        let words = data.into_words();
        let ghost new_base = spec_base_size(
            self.send_statics@.len() as int,
            self.send_buffers@.len() as int,
            self.recv_buffers@.len() as int,
            self.exch_buffers@.len() as int,
            words@.len() as int,
            self.special_total(),
        );
        proof {
            lemma_align16_bounds(self.base_size());
            lemma_align16_bounds(new_base);
        }
        if words.len() > 62 {
            return Err(HipcError::TlsCapExceeded);
        }
        let sh_total = self.special_bytes_len();
        let new_total = consumed_space(
            self.send_statics.len(),
            self.send_buffers.len(),
            self.recv_buffers.len(),
            self.exch_buffers.len(),
            self.recv_statics.len(),
            words.len(),
            self.inline_buffer.len(),
            sh_total,
            self.pointer_buf.is_some(),
        );
        if new_total > MAX_TLS_BUFFER_SIZE {
            return Err(HipcError::TlsCapExceeded);
        }
        Ok(
            HipcCommandBuilder {
                ty: self.ty,
                send_statics: self.send_statics,
                send_buffers: self.send_buffers,
                recv_buffers: self.recv_buffers,
                exch_buffers: self.exch_buffers,
                recv_statics: self.recv_statics,
                special_hdr: self.special_hdr,
                pointer_buf: self.pointer_buf,
                raw_data: words,
                inline_buffer: self.inline_buffer,
            },
        )
    }

    /// Sets the inline buffer of this command, replacing any prior one.
    ///
    /// Fails with [`HipcError::ReceiveListConflict`] exactly when the buffer
    /// is non-empty while receive statics or a pointer buffer are present,
    /// and with [`HipcError::TlsCapExceeded`] exactly when the command with
    /// the new buffer would exceed 256 bytes.
    pub fn with_inline_buffer<T: IntoBytes>(self, data: T) -> (r: Result<
        HipcCommandBuilder,
        HipcError,
    >)
        requires
            self.wf(),
        ensures
            ({
                let len = data.byte_view().len() as int;
                let conflict = len > 0 && (self.recv_statics@.len() > 0 || self.pointer_buf
                    is Some);
                let new_total = spec_consumed_space(
                    self.send_statics@.len() as int,
                    self.send_buffers@.len() as int,
                    self.recv_buffers@.len() as int,
                    self.exch_buffers@.len() as int,
                    self.recv_statics@.len() as int,
                    self.raw_data@.len() as int,
                    len,
                    self.special_total(),
                    self.pointer_buf is Some,
                );
                &&& (conflict ==> r is Err && r->Err_0 == HipcError::ReceiveListConflict)
                &&& (!conflict && new_total > MAX_TLS_BUFFER_SIZE ==> r is Err && r->Err_0
                    == HipcError::TlsCapExceeded)
                &&& (!conflict && new_total <= MAX_TLS_BUFFER_SIZE ==> r is Ok && {
                    let b = r->Ok_0;
                    &&& b.ty == self.ty
                    &&& b.send_statics@ == self.send_statics@
                    &&& b.send_buffers@ == self.send_buffers@
                    &&& b.recv_buffers@ == self.recv_buffers@
                    &&& b.exch_buffers@ == self.exch_buffers@
                    &&& b.recv_statics@ == self.recv_statics@
                    &&& b.special_hdr == self.special_hdr
                    &&& b.pointer_buf == self.pointer_buf
                    &&& b.raw_data@ == self.raw_data@
                    &&& b.inline_buffer@ == data.byte_view()
                    &&& b.wf()
                    &&& b.total_size() == new_total
                })
            }),
    {
        let bytes = data.into_bytes();
        if bytes.len() > 0 && (self.recv_statics.len() > 0 || self.pointer_buf.is_some()) {
            return Err(HipcError::ReceiveListConflict);
        }
        proof {
            lemma_align16_bounds(self.base_size());
        }
        if bytes.len() > 248 {
            return Err(HipcError::TlsCapExceeded);
        }
        let sh_total = self.special_bytes_len();
        let new_total = consumed_space(
            self.send_statics.len(),
            self.send_buffers.len(),
            self.recv_buffers.len(),
            self.exch_buffers.len(),
            self.recv_statics.len(),
            self.raw_data.len(),
            bytes.len(),
            sh_total,
            self.pointer_buf.is_some(),
        );
        if new_total > MAX_TLS_BUFFER_SIZE {
            return Err(HipcError::TlsCapExceeded);
        }
        Ok(
            HipcCommandBuilder {
                ty: self.ty,
                send_statics: self.send_statics,
                send_buffers: self.send_buffers,
                recv_buffers: self.recv_buffers,
                exch_buffers: self.exch_buffers,
                recv_statics: self.recv_statics,
                special_hdr: self.special_hdr,
                pointer_buf: self.pointer_buf,
                raw_data: self.raw_data,
                inline_buffer: bytes,
            },
        )
    }

    /// Serializes the command into a byte vector of exactly
    /// [`Self::total_size`] bytes: the 8-byte header, the special header if
    /// present, the send statics, the send, receive and exchange buffers,
    /// the raw-data words, and the receive-side tail — each 32-bit word
    /// little-endian, the inline buffer zero-padded to the next 16-byte
    /// boundary.
    #[verifier::rlimit(60)]
    pub fn build(self) -> (r: Vec<u8>)
        requires
            self.wf(),
        ensures
            r@ == self.byte_view(),
            r@.len() == self.total_size(),
            r@.len() <= MAX_TLS_BUFFER_SIZE,
    {
        proof {
            lemma_align16_bounds(self.base_size());
            self.lemma_base_view_len();
        }
        let HipcCommandBuilder {
            ty,
            send_statics,
            send_buffers,
            recv_buffers,
            exch_buffers,
            recv_statics,
            special_hdr,
            pointer_buf,
            raw_data,
            inline_buffer,
        } = self;
        let recv_mode = get_recv_mode(recv_statics.len(), inline_buffer.len(), pointer_buf.is_some());
        let header = Header::new(
            ty.value(),
            send_statics.len(),
            send_buffers.len(),
            recv_buffers.len(),
            exch_buffers.len(),
            raw_data.len(),
            recv_mode,
            0,
            special_hdr.is_some(),
        );
        proof {
            assert(header == self.header_view());
        }
        let mut out = header.into_bytes();
        match special_hdr {
            Some(h) => {
                let mut sh_bytes = h.build();
                out.append(&mut sh_bytes);
            },
            None => {},
        }
        proof {
            assert(out@ =~= self.header_view().byte_view() + self.special_view());
        }
        append_all(&mut out, &send_statics);
        append_all(&mut out, &send_buffers);
        append_all(&mut out, &recv_buffers);
        append_all(&mut out, &exch_buffers);
        append_all(&mut out, &raw_data);
        proof {
            assert(out@ =~= self.base_view());
            assert(out@.len() == self.base_size());
        }
        if inline_buffer.len() > 0 {
            let pad: usize = (16 - out.len() % 16) % 16;
            let mut k: usize = 0;
            while k < pad
                invariant
                    k <= pad,
                    out@ == self.base_view() + zero_bytes(k as int),
                decreases pad - k,
            {
                out.push(0u8);
                proof {
                    assert(self.base_view() + zero_bytes(k + 1) =~= (self.base_view() + zero_bytes(
                        k as int,
                    )).push(0u8));
                }
                k = k + 1;
            }
            proof {
                assert(pad as int == self.inline_offset() - self.base_size());
            }
            let mut ib = inline_buffer;
            out.append(&mut ib);
        } else {
            if let Some(p) = pointer_buf {
                let mut pb = p.into_bytes();
                out.append(&mut pb);
            }
            append_all(&mut out, &recv_statics);
        }
        proof {
            lemma_seq_bytes_len_receive_list(recv_statics@);
            assert(out@ =~= self.byte_view());
        }
        out
    }
}

/// Creates a new, empty builder for a command of the given kind.
pub fn new_builder(ty: CommandType) -> (r: HipcCommandBuilder)
    ensures
        r.ty == ty,
        r.send_statics@.len() == 0,
        r.send_buffers@.len() == 0,
        r.recv_buffers@.len() == 0,
        r.exch_buffers@.len() == 0,
        r.recv_statics@.len() == 0,
        r.special_hdr is None,
        r.pointer_buf is None,
        r.raw_data@.len() == 0,
        r.inline_buffer@.len() == 0,
        r.wf(),
        r.total_size() == 8,
{
    HipcCommandBuilder::new(ty)
}

/// Mutual-exclusion law: a well-formed composition — hence any that
/// [`HipcCommandBuilder::build`] accepts — has at most one of receive
/// statics, an inline buffer and a pointer buffer.
pub proof fn lemma_wf_mutual_exclusion(c: HipcCommandBuilder)
    requires
        c.wf(),
    ensures
        !(c.recv_statics@.len() > 0 && c.inline_buffer@.len() > 0),
        !(c.recv_statics@.len() > 0 && c.pointer_buf is Some),
        !(c.inline_buffer@.len() > 0 && c.pointer_buf is Some),
{
}

/// Receive-mode law: the 4-bit mode field of the header that
/// [`HipcCommandBuilder::build`] emits is `recv_statics + 2` when receive
/// statics are present, else 1 with an inline buffer, else 2 with a pointer
/// buffer, else 0.
pub proof fn lemma_header_receive_mode(c: HipcCommandBuilder)
    requires
        c.wf(),
    ensures
        c.header_view().spec_receive_static_mode() == spec_recv_mode(
            c.recv_statics@.len() as int,
            c.inline_buffer@.len() as int,
            c.pointer_buf is Some,
        ),
{
    let mode = spec_recv_mode(
        c.recv_statics@.len() as int,
        c.inline_buffer@.len() as int,
        c.pointer_buf is Some,
    );
    lemma_header_round_trip(
        c.ty.spec_value(),
        c.send_statics@.len() as u64,
        c.send_buffers@.len() as u64,
        c.recv_buffers@.len() as u64,
        c.exch_buffers@.len() as u64,
        c.raw_data@.len() as u64,
        mode,
        0,
        c.special_hdr is Some,
    );
    assert(mode < 16);
}

/// Alignment law: when an inline buffer is present,
/// [`HipcCommandBuilder::build`] writes it at the next 16-byte boundary
/// after the raw data — an offset divisible by 16 — with the gap
/// zero-padded.
pub proof fn lemma_inline_buffer_alignment(c: HipcCommandBuilder)
    requires
        c.wf(),
        c.inline_buffer@.len() > 0,
    ensures
        c.inline_offset() % 16 == 0,
        c.base_size() <= c.inline_offset() < c.base_size() + 16,
        c.byte_view().subrange(
            c.inline_offset(),
            c.inline_offset() + c.inline_buffer@.len() as int,
        ) == c.inline_buffer@,
{
    lemma_align16_bounds(c.base_size());
    c.lemma_base_view_len();
    assert(c.byte_view().subrange(
        c.inline_offset(),
        c.inline_offset() + c.inline_buffer@.len() as int,
    ) =~= c.inline_buffer@);
}

} // verus!
