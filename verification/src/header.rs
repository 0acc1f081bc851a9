//! Builder for the optional special header of a HIPC command.
//!
//! The special header carries up to one process-ID request, up to 15 copy
//! handles and up to 15 move handles. It serializes as the packed 4-byte
//! header word, then the process ID (8 bytes) if present, then each copy
//! handle and each move handle (4 bytes each), in insertion order,
//! little-endian throughout.

use vstd::prelude::*;

use crate::HipcError;
use crate::IntoBytes;
use crate::append_all;
use crate::packed::SpecialHeader;
use crate::packed::lemma_seq_bytes_len_u32;
use crate::packed::spec_special_new;
use crate::packed::spec_u64_le;
use crate::seq_bytes;

verus! {

/// The number of bytes a special header with the given composition occupies:
/// the 4-byte header word, 8 bytes per process ID, 4 bytes per handle.
pub open spec fn spec_consumed_space(pids: int, copy: int, move_: int) -> int {
    4 + 8 * pids + 4 * copy + 4 * move_
}

/// Calculates the number of bytes a special header with `pids` process IDs,
/// `copy` copy handles and `move_` move handles consumes when serialized.
pub fn consumed_space(pids: usize, copy: usize, move_: usize) -> (r: usize)
    requires
        spec_consumed_space(pids as int, copy as int, move_ as int) <= usize::MAX,
    ensures
        r as int == spec_consumed_space(pids as int, copy as int, move_ as int),
{
    4 + 8 * pids + 4 * copy + 4 * move_
}

/// Builder for the optional special header in HIPC commands.
///
/// Composition is by extension: each `with_` step consumes the builder and
/// returns the extended one, or the composition failure the step causes. The
/// 4-byte header word is always serialized, even when the builder carries no
/// process ID and no handles.
#[derive(Debug)]
pub struct SpecialHeaderBuilder {
    /// The process ID the kernel is asked to send, if any.
    pub process_id: Option<u64>,
    /// The handles the kernel will copy, in insertion order.
    pub copy_handles: Vec<u32>,
    /// The handles the kernel will move, in insertion order.
    pub move_handles: Vec<u32>,
}

impl SpecialHeaderBuilder {
    /// 1 when a process ID is present, else 0.
    pub open spec fn spec_pid_count(self) -> int {
        if self.process_id is Some {
            1
        } else {
            0
        }
    }

    /// The builder respects the special-header cardinality ceilings.
    pub open spec fn wf(self) -> bool {
        &&& self.copy_handles@.len() <= 15
        &&& self.move_handles@.len() <= 15
    }

    /// The exact number of bytes [`Self::build`] returns.
    pub open spec fn total_size(self) -> int {
        spec_consumed_space(
            self.spec_pid_count(),
            self.copy_handles@.len() as int,
            self.move_handles@.len() as int,
        )
    }

    /// The exact bytes [`Self::build`] returns: the packed header word, then
    /// the process ID if present, then the copy handles, then the move
    /// handles, little-endian throughout.
    pub open spec fn byte_view(self) -> Seq<u8> {
        spec_special_new(
            self.process_id is Some,
            self.copy_handles@.len() as u64,
            self.move_handles@.len() as u64,
        ).byte_view() + (match self.process_id {
            Some(pid) => spec_u64_le(pid),
            None => Seq::empty(),
        }) + seq_bytes(self.copy_handles@) + seq_bytes(self.move_handles@)
    }

    /// Constructs a new, empty special header: no process ID, no handles.
    ///
    /// Its serialization is the lone 4-byte header word.
    pub fn new() -> (r: SpecialHeaderBuilder)
        ensures
            r.process_id is None,
            r.copy_handles@.len() == 0,
            r.move_handles@.len() == 0,
            r.wf(),
            r.total_size() == 4,
    {
        SpecialHeaderBuilder {
            process_id: None,
            copy_handles: Vec::new(),
            move_handles: Vec::new(),
        }
    }

    /// Configures the special header to carry the given process ID.
    ///
    /// Fails with [`HipcError::TooManyProcessIds`] exactly when a process ID
    /// is already present; otherwise the returned builder differs from this
    /// one only in carrying `process_id`.
    pub fn with_program_id(self, process_id: u64) -> (r: Result<SpecialHeaderBuilder, HipcError>)
        ensures
            self.process_id is Some ==> r is Err && r->Err_0 == HipcError::TooManyProcessIds,
            self.process_id is None ==> {
                &&& r is Ok
                &&& r->Ok_0.process_id == Some(process_id)
                &&& r->Ok_0.copy_handles@ == self.copy_handles@
                &&& r->Ok_0.move_handles@ == self.move_handles@
            },
    {
        if self.process_id.is_some() {
            Err(HipcError::TooManyProcessIds)
        } else {
            Ok(
                SpecialHeaderBuilder {
                    process_id: Some(process_id),
                    copy_handles: self.copy_handles,
                    move_handles: self.move_handles,
                },
            )
        }
    }

    /// Configures the special header so that the kernel copies the given
    /// handle to the receiver.
    ///
    /// Fails with [`HipcError::TooManyCopyHandles`] exactly when 15 copy
    /// handles are already present; otherwise the returned builder differs
    /// from this one only in the appended handle.
    pub fn with_copy_handle(self, handle: u32) -> (r: Result<SpecialHeaderBuilder, HipcError>)
        ensures
            self.copy_handles@.len() >= 15 ==> r is Err && r->Err_0
                == HipcError::TooManyCopyHandles,
            self.copy_handles@.len() < 15 ==> {
                &&& r is Ok
                &&& r->Ok_0.process_id == self.process_id
                &&& r->Ok_0.copy_handles@ == self.copy_handles@.push(handle)
                &&& r->Ok_0.move_handles@ == self.move_handles@
            },
    {
        if self.copy_handles.len() >= 15 {
            Err(HipcError::TooManyCopyHandles)
        } else {
            let mut copy_handles = self.copy_handles;
            copy_handles.push(handle);
            Ok(
                SpecialHeaderBuilder {
                    process_id: self.process_id,
                    copy_handles,
                    move_handles: self.move_handles,
                },
            )
        }
    }

    /// Configures the special header so that the kernel moves the given
    /// handle to the receiver.
    ///
    /// Fails with [`HipcError::TooManyMoveHandles`] exactly when 15 move
    /// handles are already present; otherwise the returned builder differs
    /// from this one only in the appended handle.
    pub fn with_move_handle(self, handle: u32) -> (r: Result<SpecialHeaderBuilder, HipcError>)
        ensures
            self.move_handles@.len() >= 15 ==> r is Err && r->Err_0
                == HipcError::TooManyMoveHandles,
            self.move_handles@.len() < 15 ==> {
                &&& r is Ok
                &&& r->Ok_0.process_id == self.process_id
                &&& r->Ok_0.copy_handles@ == self.copy_handles@
                &&& r->Ok_0.move_handles@ == self.move_handles@.push(handle)
            },
    {
        if self.move_handles.len() >= 15 {
            Err(HipcError::TooManyMoveHandles)
        } else {
            let mut move_handles = self.move_handles;
            move_handles.push(handle);
            Ok(
                SpecialHeaderBuilder {
                    process_id: self.process_id,
                    copy_handles: self.copy_handles,
                    move_handles,
                },
            )
        }
    }

    /// Serializes the special header into the smallest byte vector that can
    /// hold it: the 4-byte packed word, the process ID if present, then the
    /// copy and move handles in insertion order.
    pub fn build(self) -> (r: Vec<u8>)
        ensures
            r@ == self.byte_view(),
            r@.len() == self.total_size(),
    {
        let word = SpecialHeader::new(
            self.process_id.is_some(),
            self.copy_handles.len(),
            self.move_handles.len(),
        );
        let mut out = word.into_bytes();
        if let Some(pid) = self.process_id {
            let mut pid_bytes = pid.into_bytes();
            out.append(&mut pid_bytes);
        }
        append_all(&mut out, &self.copy_handles);
        append_all(&mut out, &self.move_handles);
        proof {
            lemma_seq_bytes_len_u32(self.copy_handles@);
            lemma_seq_bytes_len_u32(self.move_handles@);
            assert(out@ =~= self.byte_view());
        }
        out
    }
}

/// Constructs a new, empty special header builder.
pub fn new_builder() -> (r: SpecialHeaderBuilder)
    ensures
        r.process_id is None,
        r.copy_handles@.len() == 0,
        r.move_handles@.len() == 0,
        r.wf(),
        r.total_size() == 4,
{
    SpecialHeaderBuilder::new()
}

} // verus!
