//! Vulkan helpers: API version packing, the API's integer constants, the
//! entry-point slots that the loader fills, and the memory-type choice that
//! the Vulkan capture hook makes.

use vstd::prelude::*;

verus! {

// The API's integer constants, named without their `VK_` prefix.
pub const ATTACHMENT_UNUSED: u32 = 4294967295u32;
pub const FALSE: u32 = 0u32;
pub const KHR_EXTERNAL_MEMORY_CAPABILITIES_SPEC_VERSION: u32 = 1u32;
pub const KHR_EXTERNAL_MEMORY_SPEC_VERSION: u32 = 1u32;
pub const KHR_EXTERNAL_MEMORY_WIN32_SPEC_VERSION: u32 = 1u32;
pub const LUID_SIZE: u32 = 8u32;
pub const LUID_SIZE_KHR: u32 = 8u32;
pub const MAX_DESCRIPTION_SIZE: u32 = 256u32;
pub const MAX_EXTENSION_NAME_SIZE: u32 = 256u32;
pub const MAX_MEMORY_HEAPS: u32 = 16u32;
pub const MAX_MEMORY_TYPES: u32 = 32u32;
pub const MAX_PHYSICAL_DEVICE_NAME_SIZE: u32 = 256u32;
pub const QUEUE_FAMILY_EXTERNAL: u32 = 4294967294u32;
pub const QUEUE_FAMILY_EXTERNAL_KHR: u32 = 4294967294u32;
pub const QUEUE_FAMILY_IGNORED: u32 = 4294967295u32;
pub const REMAINING_ARRAY_LAYERS: u32 = 4294967295u32;
pub const REMAINING_MIP_LEVELS: u32 = 4294967295u32;
pub const SUBPASS_EXTERNAL: u32 = 4294967295u32;
pub const TRUE: u32 = 1u32;
pub const UUID_SIZE: u32 = 16u32;
pub const WHOLE_SIZE: u32 = 4294967295u32;

/// Packs an API version: major in the top ten bits, minor in the next ten,
/// patch in the low twelve (bits shifted past the top are dropped).
pub open spec fn packed_version(major: u32, minor: u32, patch: u32) -> u32 {
    (major << 22u32) | (minor << 12u32) | patch
}

/// Packs an API version as `VK_MAKE_VERSION` does.
pub fn make_version(major: u32, minor: u32, patch: u32) -> (r: u32)
    ensures
        r == packed_version(major, minor, patch),
{
    (major << 22u32) | (minor << 12u32) | patch
}

/// The major number of a packed version (`VK_VERSION_MAJOR`).
pub fn version_major(version: u32) -> (r: u32)
    ensures
        r == version >> 22u32,
{
    version >> 22u32
}

/// The minor number of a packed version (`VK_VERSION_MINOR`).
pub fn version_minor(version: u32) -> (r: u32)
    ensures
        r == (version >> 12u32) & 0x3ffu32,
{
    (version >> 12u32) & 0x3ffu32
}

/// The patch number of a packed version (`VK_VERSION_PATCH`).
pub fn version_patch(version: u32) -> (r: u32)
    ensures
        r == version & 0xfffu32,
{
    version & 0xfffu32
}

/// Unpacking a packed version gives back its parts, as long as each part
/// fits in its field.
pub proof fn lemma_version_roundtrip(major: u32, minor: u32, patch: u32)
    requires
        major < 1024,
        minor < 1024,
        patch < 4096,
    ensures
        packed_version(major, minor, patch) >> 22u32 == major,
        (packed_version(major, minor, patch) >> 12u32) & 0x3ffu32 == minor,
        packed_version(major, minor, patch) & 0xfffu32 == patch,
{
    assert(((major << 22u32) | (minor << 12u32) | patch) >> 22u32 == major) by (bit_vector)
        requires
            major < 1024u32,
            minor < 1024u32,
            patch < 4096u32,
    ;
    assert((((major << 22u32) | (minor << 12u32) | patch) >> 12u32) & 0x3ffu32 == minor)
        by (bit_vector)
        requires
            major < 1024u32,
            minor < 1024u32,
            patch < 4096u32,
    ;
    assert(((major << 22u32) | (minor << 12u32) | patch) & 0xfffu32 == patch) by (bit_vector)
        requires
            major < 1024u32,
            minor < 1024u32,
            patch < 4096u32,
    ;
}

/// Every packed version is the packing of its own parts.
pub proof fn lemma_version_repack(version: u32)
    ensures
        packed_version(version >> 22u32, (version >> 12u32) & 0x3ffu32, version & 0xfffu32)
            == version,
{
    assert((((version >> 22u32) << 22u32) | (((version >> 12u32) & 0x3ffu32) << 12u32) | (version
        & 0xfffu32)) == version) by (bit_vector);
}

/// A slot that holds the address to call for an API entry point: the entry
/// point's own address once it is loaded, and otherwise the address of a trap
/// that panics when called.
#[derive(Clone, Copy)]
pub struct FnPtr {
    ptr: usize,
    is_loaded: bool,
}

/// The address that a slot built from the loader's answer `ptr` holds: the
/// answer itself, or `trap` when the loader answered with a null address.
pub open spec fn slot_address(ptr: usize, trap: usize) -> usize {
    if ptr != 0 {
        ptr
    } else {
        trap
    }
}

impl FnPtr {
    /// The address held: the entry point's, or the trap's when not loaded.
    pub closed spec fn address(self) -> usize {
        self.ptr
    }

    /// Whether a real entry point was loaded.
    pub closed spec fn loaded(self) -> bool {
        self.is_loaded
    }

    /// A loaded slot never holds the null address.
    pub closed spec fn wf(self) -> bool {
        self.is_loaded ==> self.ptr != 0
    }

    /// A slot for the address `ptr` that the loader returned; a null address
    /// leaves the slot unloaded, holding the address of the panicking `trap`.
    pub fn new(ptr: usize, trap: usize) -> (r: FnPtr)
        ensures
            r.wf(),
            r.loaded() == (ptr != 0),
            r.address() == slot_address(ptr, trap),
    {
        if ptr != 0 {
            FnPtr { ptr, is_loaded: true }
        } else {
            FnPtr { ptr: trap, is_loaded: false }
        }
    }

    /// Replaces the slot's content as `new` would build it.
    pub fn set_ptr(&mut self, ptr: usize, trap: usize)
        ensures
            final(self).wf(),
            final(self).loaded() == (ptr != 0),
            final(self).address() == slot_address(ptr, trap),
    {
        let fresh = Self::new(ptr, trap);
        self.ptr = fresh.ptr;
        self.is_loaded = fresh.is_loaded;
    }

    /// Fills an unloaded slot from a loaded alias of the same entry point;
    /// any other slot is left as it is.
    pub fn aliased(&mut self, other: &FnPtr)
        ensures
            !old(self).loaded() && other.loaded() ==> *final(self) == *other,
            !(!old(self).loaded() && other.loaded()) ==> *final(self) == *old(self),
    {
        if !self.is_loaded && other.is_loaded {
            *self = *other;
        }
    }

    /// Whether the slot holds a loaded entry point.
    pub fn is_loaded(&self) -> (r: bool)
        ensures
            r == self.loaded(),
    {
        self.is_loaded
    }

    /// The address held by the slot.
    pub fn ptr(&self) -> (r: usize)
        ensures
            r == self.address(),
    {
        self.ptr
    }
}

/// Aliasing never unloads a slot, and keeps slots well formed.
pub proof fn lemma_aliasing_keeps_loaded(before: FnPtr, other: FnPtr, after: FnPtr)
    requires
        before.wf(),
        other.wf(),
        !before.loaded() && other.loaded() ==> after == other,
        !(!before.loaded() && other.loaded()) ==> after == before,
    ensures
        before.loaded() ==> after == before,
        after.wf(),
        after.loaded() == (before.loaded() || other.loaded()),
{
}

/// Whether bit `i` of `bits` is set.
pub open spec fn bit_set(bits: u32, i: u32) -> bool {
    (1u32 << i) & bits != 0
}

/// The index that the Vulkan capture hook picks among `count` memory types:
/// the highest `i < count` whose bit is set in `flag_bits`, or zero if none.
pub open spec fn chosen_memory_type(count: u32, flag_bits: u32) -> u32
    decreases count,
{
    if count == 0 {
        0
    } else if bit_set(flag_bits, (count - 1) as u32) {
        (count - 1) as u32
    } else {
        chosen_memory_type((count - 1) as u32, flag_bits)
    }
}

/// Picks the memory type for the imported shared image.
pub fn select_memory_type_index(memory_type_count: u32, flag_bits: u32) -> (r: u32)
    requires
        memory_type_count <= MAX_MEMORY_TYPES,
    ensures
        r == chosen_memory_type(memory_type_count, flag_bits),
        memory_type_count > 0 ==> r < memory_type_count,
{
    let mut idx: u32 = 0;
    let mut i: u32 = 0;
    while i < memory_type_count
        invariant
            i <= memory_type_count <= 32,
            idx == chosen_memory_type(i, flag_bits),
            i > 0 ==> idx < i,
        decreases memory_type_count - i,
    {
        if (1u32 << i) & flag_bits != 0 {
            idx = i;
        }
        i += 1;
    }
    idx
}

} // verus!
