//! Asking the firmware for the memory map, and reading what it hands back.

use crate::efi::handoff::FirmwareHandoff;
use crate::efi::memory::{EfiMemoryDescriptor, DESCRIPTOR_SIZE, PAGE_SIZE};
use crate::efi::status::EfiStatus;
use crate::efi::tables::EfiMapKey;
use vstd::arithmetic::div_mod::{
    lemma_div_is_ordered, lemma_div_multiples_vanish, lemma_fundamental_div_mod,
    lemma_fundamental_div_mod_converse, lemma_mod_bound, lemma_mod_multiples_vanish,
    lemma_small_mod,
};
use vstd::prelude::*;

verus! {

/// Capacity of the buffer that the first query offers to the firmware.
pub const INITIAL_CAPACITY: usize = 4096;

/// Why no memory map could be had. None of these can be recovered from: the
/// boot sequence stops with it.
#[derive(Clone, Copy, Debug, PartialEq, Eq, Structural)]
pub enum MemoryMapError {
    /// The firmware call ended with this status, which is not success and
    /// gives no larger size to try again with.
    Firmware(EfiStatus),
    /// The firmware places descriptors closer together than one descriptor
    /// is long.
    StrideTooSmall,
    /// The firmware reports more bytes than the buffer holds.
    SizeExceedsBuffer,
    /// The reported bytes end inside the fields of the last descriptor.
    TruncatedDescriptor,
}

/// What the firmware hands back from one query, beside the buffer it filled.
#[derive(Clone, Copy, Debug, PartialEq, Eq, Structural)]
pub struct MemoryMapReply {
    /// How the call ended.
    pub status: EfiStatus,
    /// Bytes of the map: those written on success, those needed where the
    /// buffer was too small.
    pub size: usize,
    /// Key of this map.
    pub key: EfiMapKey,
    /// Distance in bytes from one descriptor to the next.
    pub descriptor_size: usize,
    /// Version of the descriptor format.
    pub descriptor_version: u32,
}

/// One memory map as the firmware reported it: the regions in the order
/// given, and what the firmware said of the map as a whole.
#[derive(Debug)]
pub struct MemoryMap {
    /// The regions, in the firmware's order.
    pub descriptors: Vec<EfiMemoryDescriptor>,
    /// Bytes that the map took up in the buffer.
    pub size: usize,
    /// Distance in bytes from one descriptor to the next.
    pub descriptor_size: usize,
    /// Version of the descriptor format.
    pub descriptor_version: u32,
    /// Key of this map, to be shown when the boot services are left.
    pub key: EfiMapKey,
}

/// What the caller is to do next on the way to a memory map.
#[derive(Debug)]
pub enum MemoryMapStep {
    /// The firmware's services are not available: there is nothing to ask,
    /// and no map.
    Unavailable,
    /// Call the firmware with a buffer of this many bytes and come back with
    /// the reply.
    Query { capacity: usize },
    /// The map is complete.
    Done(MemoryMap),
    /// Stop the machine and report this.
    Fatal(MemoryMapError),
}

/// What a reply amounts to, for a buffer of a given capacity.
pub enum ReplyKind {
    /// Success, with a map that the buffer holds whole.
    Complete,
    /// The buffer was too small, and the firmware names a larger size.
    Retry,
    /// Anything else.
    Halt(MemoryMapError),
}

/// What is wrong with the firmware's account of a map of `size` bytes with
/// descriptors `stride` bytes apart in a buffer of `capacity` bytes, if
/// anything is.
pub open spec fn layout_error(capacity: nat, size: usize, stride: usize) -> Option<
    MemoryMapError,
> {
    if stride < DESCRIPTOR_SIZE {
        Some(MemoryMapError::StrideTooSmall)
    } else if size > capacity {
        Some(MemoryMapError::SizeExceedsBuffer)
    } else if 0 < size % stride < DESCRIPTOR_SIZE {
        Some(MemoryMapError::TruncatedDescriptor)
    } else {
        None
    }
}

/// How many descriptors start below `size` when they lie `stride` bytes
/// apart from offset 0.
pub open spec fn descriptor_count(size: usize, stride: usize) -> nat {
    if size == 0 || stride == 0 {
        0
    } else {
        ((size - 1) / (stride as int) + 1) as nat
    }
}

/// The descriptors of a map of `size` bytes at the start of `bytes`, one
/// every `stride` bytes.
pub open spec fn descriptors_in(bytes: Seq<u8>, size: usize, stride: usize) -> Seq<
    EfiMemoryDescriptor,
> {
    Seq::new(
        descriptor_count(size, stride),
        |k: int|
            EfiMemoryDescriptor::decoded(bytes.subrange(k * stride, k * stride + DESCRIPTOR_SIZE)),
    )
}

/// What a reply amounts to for a buffer of `capacity` bytes. Only the status
/// for success counts as success, and only the status for a buffer that was
/// too small, together with a size above the capacity, asks for another try.
pub open spec fn reply_kind(reply: MemoryMapReply, capacity: nat) -> ReplyKind {
    match reply.status {
        EfiStatus::EfiSuccess => match layout_error(capacity, reply.size, reply.descriptor_size) {
            Some(error) => ReplyKind::Halt(error),
            None => ReplyKind::Complete,
        },
        EfiStatus::EfiBufferTooSmall => if reply.size > capacity {
            ReplyKind::Retry
        } else {
            ReplyKind::Halt(MemoryMapError::Firmware(reply.status))
        },
        status => ReplyKind::Halt(MemoryMapError::Firmware(status)),
    }
}

/// Bytes of all the regions in `descriptors` that are free for the kernel
/// once the boot services have been left.
pub open spec fn total_usable_bytes(descriptors: Seq<EfiMemoryDescriptor>) -> nat
    decreases descriptors.len(),
{
    if descriptors.len() == 0 {
        0
    } else {
        total_usable_bytes(descriptors.drop_last()) + descriptors.last().usable_bytes()
    }
}

/// The usable bytes of the first regions never exceed those of all.
pub proof fn lemma_total_usable_bytes_grows(descriptors: Seq<EfiMemoryDescriptor>, k: int)
    requires
        0 <= k <= descriptors.len(),
    ensures
        total_usable_bytes(descriptors.subrange(0, k)) <= total_usable_bytes(descriptors),
    decreases descriptors.len(),
{
    if k == descriptors.len() {
        assert(descriptors.subrange(0, k) =~= descriptors);
    } else {
        lemma_total_usable_bytes_grows(descriptors.drop_last(), k);
        assert(descriptors.drop_last().subrange(0, k) =~= descriptors.subrange(0, k));
    }
}

/// A region that is not usable adds nothing to the total, wherever it is put
/// in.
pub proof fn lemma_unusable_region_adds_nothing(
    descriptors: Seq<EfiMemoryDescriptor>,
    at: int,
    region: EfiMemoryDescriptor,
)
    requires
        0 <= at <= descriptors.len(),
        !region.memory_type().avail_post_exit_boot_services(),
    ensures
        total_usable_bytes(descriptors.insert(at, region)) == total_usable_bytes(descriptors),
    decreases descriptors.len(),
{
    let longer = descriptors.insert(at, region);
    if at == descriptors.len() {
        assert(longer.drop_last() =~= descriptors);
    } else {
        lemma_unusable_region_adds_nothing(descriptors.drop_last(), at, region);
        assert(longer.drop_last() =~= descriptors.drop_last().insert(at, region));
    }
}

/// A query that is made again with the size that the firmware asked for has
/// room for a map of that size: a successful reply with whole descriptors is
/// then complete, and the capacity has grown.
pub proof fn lemma_retry_has_room(first: MemoryMapReply, capacity: nat, second: MemoryMapReply)
    requires
        reply_kind(first, capacity) is Retry,
        second.status is EfiSuccess,
        second.size <= first.size,
        second.descriptor_size >= DESCRIPTOR_SIZE,
        second.size % second.descriptor_size == 0,
    ensures
        first.size > capacity,
        reply_kind(second, first.size as nat) is Complete,
{
}

/// Where descriptor `k` starts below `size`, its fields end at or below
/// `size`, and it is the last one exactly when no further stride fits.
proof fn lemma_descriptor_step(capacity: nat, size: usize, stride: usize, k: nat)
    requires
        layout_error(capacity, size, stride) is None,
        k * stride < size,
    ensures
        k * stride + DESCRIPTOR_SIZE <= size,
        size - k * stride <= stride ==> descriptor_count(size, stride) == k + 1,
        size - k * stride > stride ==> descriptor_count(size, stride) > k + 1,
{
    let d = stride as int;
    let left = size - k * stride;
    assert(k * stride == d * k) by (nonlinear_arith)
        requires
            d == stride,
    ;
    lemma_mod_multiples_vanish(-(k as int), size as int, d);
    assert(d * (-(k as int)) + size == left) by (nonlinear_arith)
        requires
            left == size - d * k,
    ;
    assert(left % d == size % stride);
    if left < d {
        lemma_small_mod(left as nat, d as nat);
    }
    if left <= d {
        lemma_fundamental_div_mod_converse(size - 1, d, k as int, left - 1);
    } else {
        assert((k + 1) * d <= size - 1) by (nonlinear_arith)
            requires
                size - d * k > d,
        ;
        lemma_div_is_ordered((k + 1) * d, size - 1, d);
        lemma_div_multiples_vanish((k + 1) as int, d);
    }
}

/// In a map without a layout error, the fields of every descriptor that is
/// read lie inside the bytes that the firmware reported, and those inside
/// the buffer.
pub proof fn lemma_descriptor_inside_map(capacity: nat, size: usize, stride: usize, k: nat)
    requires
        layout_error(capacity, size, stride) is None,
        k < descriptor_count(size, stride),
    ensures
        k * stride + DESCRIPTOR_SIZE <= size <= capacity,
{
    let d = stride as int;
    let q = (size - 1) / d;
    lemma_fundamental_div_mod(size - 1, d);
    lemma_mod_bound(size - 1, d);
    assert(k * stride <= size - 1) by (nonlinear_arith)
        requires
            k <= q,
            d * q <= size - 1,
            d == stride,
            d > 0,
    ;
    lemma_descriptor_step(capacity, size, stride, k);
}

/// Reads the descriptors of a map of `size` bytes at the start of `bytes`,
/// one every `stride` bytes: as many as start below `size`. The stride may
/// be longer than a descriptor; what lies between two descriptors is passed
/// over.
pub fn parse_descriptors(bytes: &[u8], size: usize, stride: usize) -> (r: Result<
    Vec<EfiMemoryDescriptor>,
    MemoryMapError,
>)
    ensures
        match layout_error(bytes@.len(), size, stride) {
            Some(error) => r == Err::<Vec<EfiMemoryDescriptor>, MemoryMapError>(error),
            None => r matches Ok(descriptors) && descriptors@ == descriptors_in(
                bytes@,
                size,
                stride,
            ),
        },
{
    if stride < DESCRIPTOR_SIZE {
        return Err(MemoryMapError::StrideTooSmall);
    }
    if size > bytes.len() {
        return Err(MemoryMapError::SizeExceedsBuffer);
    }
    let rest = size % stride;
    if 0 < rest && rest < DESCRIPTOR_SIZE {
        return Err(MemoryMapError::TruncatedDescriptor);
    }
    let mut descriptors: Vec<EfiMemoryDescriptor> = Vec::new();
    let mut off: usize = 0;
    while off < size
        invariant
            layout_error(bytes@.len(), size, stride) is None,
            off < size ==> off == descriptors@.len() * stride,
            off >= size ==> descriptors@.len() == descriptor_count(size, stride),
            descriptors@.len() <= descriptor_count(size, stride),
            forall|k: int|
                0 <= k < descriptors@.len() ==> descriptors@[k] == EfiMemoryDescriptor::decoded(
                    #[trigger] bytes@.subrange(k * stride, k * stride + DESCRIPTOR_SIZE),
                ),
        decreases size - off,
    {
        proof {
            lemma_descriptor_step(bytes@.len(), size, stride, descriptors@.len());
        }
        let descriptor = EfiMemoryDescriptor::decode(bytes, off);
        descriptors.push(descriptor);
        if size - off <= stride {
            off = size;
        } else {
            off = off + stride;
            assert(off == descriptors@.len() * stride) by (nonlinear_arith)
                requires
                    off == (descriptors@.len() - 1) * stride + stride,
            ;
        }
    }
    assert(descriptors@ =~= descriptors_in(bytes@, size, stride));
    Ok(descriptors)
}

/// Adds up the bytes of the regions that are free for the kernel once the
/// boot services have been left, 4096 for each page; regions of every other
/// type count for nothing. `None` where the total does not fit in 64 bits.
pub fn free_memory(descriptors: &[EfiMemoryDescriptor]) -> (total: Option<u64>)
    ensures
        total == if total_usable_bytes(descriptors@) <= u64::MAX {
            Some(total_usable_bytes(descriptors@) as u64)
        } else {
            None
        },
{
    let mut total: u64 = 0;
    let mut i: usize = 0;
    assert(descriptors@.subrange(0, 0) =~= Seq::<EfiMemoryDescriptor>::empty());
    while i < descriptors.len()
        invariant
            i <= descriptors@.len(),
            total == total_usable_bytes(descriptors@.subrange(0, i as int)),
        decreases descriptors@.len() - i,
    {
        proof {
            let through = descriptors@.subrange(0, i + 1);
            assert(through.drop_last() =~= descriptors@.subrange(0, i as int));
            assert(through.last() == descriptors@[i as int]);
            lemma_total_usable_bytes_grows(descriptors@, i + 1);
        }
        if descriptors[i].memory_type().avail_post_exit_boot_services() {
            let bytes = match descriptors[i].number_of_pages.checked_mul(PAGE_SIZE) {
                Some(bytes) => bytes,
                None => { return None; },
            };
            total = match total.checked_add(bytes) {
                Some(sum) => sum,
                None => { return None; },
            };
        }
        i = i + 1;
    }
    assert(descriptors@.subrange(0, i as int) =~= descriptors@);
    Some(total)
}

/// Starts the request for the memory map: with the firmware's services
/// unavailable there is nothing to ask, otherwise the firmware is to be
/// called with a buffer of `INITIAL_CAPACITY` bytes.
pub fn get_memory_map(handoff: &FirmwareHandoff) -> (step: MemoryMapStep)
    ensures
        match handoff@ {
            None => step is Unavailable,
            Some(_) => step == (MemoryMapStep::Query { capacity: INITIAL_CAPACITY }),
        },
{
    match handoff.current() {
        None => MemoryMapStep::Unavailable,
        Some(_) => MemoryMapStep::Query { capacity: INITIAL_CAPACITY },
    }
}

/// Takes the firmware's reply to a query made with `buffer` and says what
/// comes next. On success the map is read from the buffer; a buffer that was
/// too small is answered with a new query for the size that the firmware
/// asks for; every other reply ends the boot.
pub fn memory_map_reply(reply: &MemoryMapReply, buffer: &[u8]) -> (step: MemoryMapStep)
    ensures
        match reply_kind(*reply, buffer@.len()) {
            ReplyKind::Complete => {
                &&& step matches MemoryMapStep::Done(map)
                &&& map.descriptors@ == descriptors_in(buffer@, reply.size, reply.descriptor_size)
                &&& map.size == reply.size
                &&& map.descriptor_size == reply.descriptor_size
                &&& map.descriptor_version == reply.descriptor_version
                &&& map.key == reply.key
            },
            ReplyKind::Retry => step == (MemoryMapStep::Query { capacity: reply.size }),
            ReplyKind::Halt(error) => step == MemoryMapStep::Fatal(error),
        },
{
    match reply.status {
        EfiStatus::EfiSuccess => match parse_descriptors(buffer, reply.size, reply.descriptor_size) {
            Ok(descriptors) => MemoryMapStep::Done(
                MemoryMap {
                    descriptors,
                    size: reply.size,
                    descriptor_size: reply.descriptor_size,
                    descriptor_version: reply.descriptor_version,
                    key: reply.key,
                },
            ),
            Err(error) => MemoryMapStep::Fatal(error),
        },
        EfiStatus::EfiBufferTooSmall => if reply.size > buffer.len() {
            MemoryMapStep::Query { capacity: reply.size }
        } else {
            MemoryMapStep::Fatal(MemoryMapError::Firmware(reply.status))
        },
        status => MemoryMapStep::Fatal(MemoryMapError::Firmware(status)),
    }
}

} // verus!
