//! Builder and serializer for the Horizon IPC (HIPC) request format used by
//! the Nintendo Switch kernel.
//!
//! A caller assembles a typed command out of descriptors, an optional special
//! header carrying handles and a process ID, a raw-data payload, and at most
//! one receive-side construct, and then serializes it to the exact byte
//! sequence the kernel expects to find in the thread's TLS command region.

use vstd::prelude::*;

pub mod command;
pub mod header;
pub mod packed;

verus! {

/// Command kind for HIPC commands, a 16-bit tag placed in header word 0
/// bits `[0..16]`.
#[derive(Clone, Copy, Debug, PartialEq, Eq, Structural)]
pub enum CommandType {
    /// An invalid command kind, also used by servers when issuing a response
    /// to the client.
    Invalid,
    /// An older form of a request command.
    LegacyRequest,
    /// Closes the session.
    Close,
    /// An older form of a control command.
    LegacyControl,
    /// A command to the server to perform some operation, or to receive some
    /// data.
    Request,
    /// A command to the server to manage the connection, usually.
    Control,
    /// The same kind of command as [`CommandType::Request`], except with a
    /// token included.
    RequestWithContext,
    /// The same kind of command as [`CommandType::Control`], except with a
    /// token included.
    ControlWithContext,
}

impl CommandType {
    /// The 16-bit wire tag of this command kind.
    pub open spec fn spec_value(self) -> u16 {
        match self {
            CommandType::Invalid => 0x0,
            CommandType::LegacyRequest => 0x1,
            CommandType::Close => 0x2,
            CommandType::LegacyControl => 0x3,
            CommandType::Request => 0x4,
            CommandType::Control => 0x5,
            CommandType::RequestWithContext => 0x6,
            CommandType::ControlWithContext => 0x7,
        }
    }

    /// Returns the 16-bit wire tag of this command kind.
    pub fn value(self) -> (r: u16)
        ensures
            r == self.spec_value(),
    {
        match self {
            CommandType::Invalid => 0x0,
            CommandType::LegacyRequest => 0x1,
            CommandType::Close => 0x2,
            CommandType::LegacyControl => 0x3,
            CommandType::Request => 0x4,
            CommandType::Control => 0x5,
            CommandType::RequestWithContext => 0x6,
            CommandType::ControlWithContext => 0x7,
        }
    }
}

/// A composition failure: a cardinality ceiling was hit, a mutual-exclusion
/// rule among the receive-side constructs was violated, or the serialized
/// command would exceed the 256-byte TLS command region.
///
/// Every failure is surfaced at the configuration step that causes it; a
/// composition that never failed serializes without any error path.
#[derive(Clone, Copy, Debug, PartialEq, Eq, Structural)]
pub enum HipcError {
    /// More than 15 send statics were added.
    TooManySendStatics,
    /// More than 15 send buffers were added.
    TooManySendBuffers,
    /// More than 15 receive buffers were added.
    TooManyRecvBuffers,
    /// More than 15 exchange buffers were added.
    TooManyExchBuffers,
    /// More than 13 receive statics were added.
    TooManyRecvStatics,
    /// A second special header was added.
    TooManySpecialHeaders,
    /// A second pointer buffer was added.
    TooManyPointerBuffers,
    /// A second process ID was added to a special header.
    TooManyProcessIds,
    /// More than 15 copy handles were added to a special header.
    TooManyCopyHandles,
    /// More than 15 move handles were added to a special header.
    TooManyMoveHandles,
    /// More than one of receive statics, inline buffer and pointer buffer
    /// would be present at once.
    ReceiveListConflict,
    /// The serialized command would exceed the 256-byte TLS cap.
    TlsCapExceeded,
}

/// Conversion into the sequence of 32-bit words of a raw-data payload.
pub trait IntoWords {
    /// The words the value stands for.
    spec fn word_view(&self) -> Seq<u32>;

    /// Returns the words the value stands for.
    fn into_words(self) -> (r: Vec<u32>)
        ensures
            r@ == self.word_view(),
    ;
}

impl IntoWords for Vec<u32> {
    open spec fn word_view(&self) -> Seq<u32> {
        self@
    }

    fn into_words(self) -> (r: Vec<u32>) {
        self
    }
}

/// Conversion into a serialized byte sequence, little-endian throughout.
pub trait IntoBytes {
    /// The bytes the value serializes to.
    spec fn byte_view(&self) -> Seq<u8>;

    /// Returns the bytes the value serializes to.
    fn into_bytes(self) -> (r: Vec<u8>)
        ensures
            r@ == self.byte_view(),
    ;
}

impl IntoBytes for Vec<u8> {
    open spec fn byte_view(&self) -> Seq<u8> {
        self@
    }

    fn into_bytes(self) -> (r: Vec<u8>) {
        self
    }
}

/// The concatenated serializations of a sequence of values, in order.
pub open spec fn seq_bytes<T: IntoBytes>(s: Seq<T>) -> Seq<u8>
    decreases s.len(),
{
    if s.len() == 0 {
        Seq::empty()
    } else {
        seq_bytes(s.drop_last()) + s.last().byte_view()
    }
}

/// Appends the serialization of every element of `items` to `out`, in order.
pub(crate) fn append_all<T: IntoBytes + Copy>(out: &mut Vec<u8>, items: &Vec<T>)
    ensures
        final(out)@ == old(out)@ + seq_bytes(items@),
{
    let mut i: usize = 0;
    proof {
        assert(old(out)@ + seq_bytes(items@.subrange(0, 0)) =~= old(out)@);
    }
    while i < items.len()
        invariant
            i <= items@.len(),
            out@ == old(out)@ + seq_bytes(items@.subrange(0, i as int)),
        decreases items@.len() - i,
    {
        let item: T = items[i];
        let mut bytes = item.into_bytes();
        out.append(&mut bytes);
        proof {
            assert(items@.subrange(0, i + 1).drop_last() =~= items@.subrange(0, i as int));
            assert(items@.subrange(0, i + 1).last() == items@[i as int]);
            assert(out@ =~= old(out)@ + seq_bytes(items@.subrange(0, i + 1)));
        }
        i = i + 1;
    }
    proof {
        assert(items@.subrange(0, items@.len() as int) =~= items@);
    }
}

} // verus!
