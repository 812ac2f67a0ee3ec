//! Vulkan enumerations, handles and plain-data structures, laid out as the
//! C API defines them. Each enumeration carries the integer that the API uses
//! for it, given by `raw_value` and returned by `to_raw`.

use vstd::prelude::*;

verus! {

#[allow(non_camel_case_types)]
pub type VkBool32 = u32;

#[allow(non_camel_case_types)]
pub type VkFlags = u32;

#[allow(non_camel_case_types)]
pub type VkDeviceSize = u64;

#[allow(non_camel_case_types)]
pub type VkQueueFlags = VkFlags;

#[allow(non_camel_case_types)]
pub type VkMemoryPropertyFlags = VkFlags;

#[allow(non_camel_case_types)]
pub type VkMemoryHeapFlags = VkFlags;

#[allow(non_camel_case_types)]
pub type VkAccessFlags = VkFlags;

#[allow(non_camel_case_types)]
pub type VkShaderStageFlags = VkFlags;

#[allow(non_camel_case_types)]
pub type VkColorComponentFlags = VkFlags;

#[allow(non_camel_case_types)]
pub type VkFormatFeatureFlags = VkFlags;

#[allow(non_camel_case_types)]
pub type VkImageAspectFlags = VkFlags;

#[allow(non_camel_case_types)]
pub type VkSparseMemoryBindFlags = VkFlags;

#[allow(non_camel_case_types)]
pub type VkSparseImageFormatFlags = VkFlags;

#[allow(non_camel_case_types)]
pub type VkPipelineStageFlags = VkFlags;

#[allow(non_camel_case_types)]
pub type VkSampleCountFlags = VkFlags;

#[allow(non_camel_case_types)]
pub type VkAttachmentDescriptionFlags = VkFlags;

#[allow(non_camel_case_types)]
pub type VkDependencyFlags = VkFlags;

#[allow(non_camel_case_types)]
pub type VkExternalMemoryHandleTypeFlags = VkFlags;

#[allow(non_camel_case_types)]
pub type VkExternalMemoryFeatureFlags = VkFlags;


/// An opaque non-dispatchable Vulkan handle.
#[derive(Copy, Clone)]
pub struct VkDeviceMemory(u64);

/// An opaque non-dispatchable Vulkan handle.
#[derive(Copy, Clone)]
pub struct VkCommandPool(u64);

/// An opaque non-dispatchable Vulkan handle.
#[derive(Copy, Clone)]
pub struct VkBuffer(u64);

/// An opaque non-dispatchable Vulkan handle.
#[derive(Copy, Clone)]
pub struct VkBufferView(u64);

/// An opaque non-dispatchable Vulkan handle.
#[derive(Copy, Clone)]
pub struct VkImage(u64);

/// An opaque non-dispatchable Vulkan handle.
#[derive(Copy, Clone)]
pub struct VkImageView(u64);

/// An opaque non-dispatchable Vulkan handle.
#[derive(Copy, Clone)]
pub struct VkShaderModule(u64);

/// An opaque non-dispatchable Vulkan handle.
#[derive(Copy, Clone)]
pub struct VkPipeline(u64);

/// An opaque non-dispatchable Vulkan handle.
#[derive(Copy, Clone)]
pub struct VkPipelineLayout(u64);

/// An opaque non-dispatchable Vulkan handle.
#[derive(Copy, Clone)]
pub struct VkSampler(u64);

/// An opaque non-dispatchable Vulkan handle.
#[derive(Copy, Clone)]
pub struct VkDescriptorSet(u64);

/// An opaque non-dispatchable Vulkan handle.
#[derive(Copy, Clone)]
pub struct VkDescriptorSetLayout(u64);

/// An opaque non-dispatchable Vulkan handle.
#[derive(Copy, Clone)]
pub struct VkDescriptorPool(u64);

/// An opaque non-dispatchable Vulkan handle.
#[derive(Copy, Clone)]
pub struct VkFence(u64);

/// An opaque non-dispatchable Vulkan handle.
#[derive(Copy, Clone)]
pub struct VkSemaphore(u64);

/// An opaque non-dispatchable Vulkan handle.
#[derive(Copy, Clone)]
pub struct VkEvent(u64);

/// An opaque non-dispatchable Vulkan handle.
#[derive(Copy, Clone)]
pub struct VkQueryPool(u64);

/// An opaque non-dispatchable Vulkan handle.
#[derive(Copy, Clone)]
pub struct VkFramebuffer(u64);

/// An opaque non-dispatchable Vulkan handle.
#[derive(Copy, Clone)]
pub struct VkRenderPass(u64);

/// An opaque non-dispatchable Vulkan handle.
#[derive(Copy, Clone)]
pub struct VkPipelineCache(u64);

#[allow(non_camel_case_types)]
#[derive(Copy, Clone, PartialEq, Eq, Structural, Debug)]
pub enum VkAttachmentLoadOp {
    VK_ATTACHMENT_LOAD_OP_LOAD,
    VK_ATTACHMENT_LOAD_OP_CLEAR,
    VK_ATTACHMENT_LOAD_OP_DONT_CARE,
}

impl VkAttachmentLoadOp {
    /// The integer that the Vulkan API uses for this value.
    pub open spec fn raw_value(self) -> i32 {
        match self {
            VkAttachmentLoadOp::VK_ATTACHMENT_LOAD_OP_LOAD => 0i32,
            VkAttachmentLoadOp::VK_ATTACHMENT_LOAD_OP_CLEAR => 1i32,
            VkAttachmentLoadOp::VK_ATTACHMENT_LOAD_OP_DONT_CARE => 2i32,
        }
    }

    /// The integer that the Vulkan API uses for this value.
    pub fn to_raw(self) -> (r: i32)
        ensures
            r == self.raw_value(),
    {
        match self {
            VkAttachmentLoadOp::VK_ATTACHMENT_LOAD_OP_LOAD => 0i32,
            VkAttachmentLoadOp::VK_ATTACHMENT_LOAD_OP_CLEAR => 1i32,
            VkAttachmentLoadOp::VK_ATTACHMENT_LOAD_OP_DONT_CARE => 2i32,
        }
    }
}

#[allow(non_camel_case_types)]
#[derive(Copy, Clone, PartialEq, Eq, Structural, Debug)]
pub enum VkAttachmentStoreOp {
    VK_ATTACHMENT_STORE_OP_STORE,
    VK_ATTACHMENT_STORE_OP_DONT_CARE,
}

impl VkAttachmentStoreOp {
    /// The integer that the Vulkan API uses for this value.
    pub open spec fn raw_value(self) -> i32 {
        match self {
            VkAttachmentStoreOp::VK_ATTACHMENT_STORE_OP_STORE => 0i32,
            VkAttachmentStoreOp::VK_ATTACHMENT_STORE_OP_DONT_CARE => 1i32,
        }
    }

    /// The integer that the Vulkan API uses for this value.
    pub fn to_raw(self) -> (r: i32)
        ensures
            r == self.raw_value(),
    {
        match self {
            VkAttachmentStoreOp::VK_ATTACHMENT_STORE_OP_STORE => 0i32,
            VkAttachmentStoreOp::VK_ATTACHMENT_STORE_OP_DONT_CARE => 1i32,
        }
    }
}

#[allow(non_camel_case_types)]
#[derive(Copy, Clone, PartialEq, Eq, Structural, Debug)]
pub enum VkBlendFactor {
    VK_BLEND_FACTOR_ZERO,
    VK_BLEND_FACTOR_ONE,
    VK_BLEND_FACTOR_SRC_COLOR,
    VK_BLEND_FACTOR_ONE_MINUS_SRC_COLOR,
    VK_BLEND_FACTOR_DST_COLOR,
    VK_BLEND_FACTOR_ONE_MINUS_DST_COLOR,
    VK_BLEND_FACTOR_SRC_ALPHA,
    VK_BLEND_FACTOR_ONE_MINUS_SRC_ALPHA,
    VK_BLEND_FACTOR_DST_ALPHA,
    VK_BLEND_FACTOR_ONE_MINUS_DST_ALPHA,
    VK_BLEND_FACTOR_CONSTANT_COLOR,
    VK_BLEND_FACTOR_ONE_MINUS_CONSTANT_COLOR,
    VK_BLEND_FACTOR_CONSTANT_ALPHA,
    VK_BLEND_FACTOR_ONE_MINUS_CONSTANT_ALPHA,
    VK_BLEND_FACTOR_SRC_ALPHA_SATURATE,
    VK_BLEND_FACTOR_SRC1_COLOR,
    VK_BLEND_FACTOR_ONE_MINUS_SRC1_COLOR,
    VK_BLEND_FACTOR_SRC1_ALPHA,
    VK_BLEND_FACTOR_ONE_MINUS_SRC1_ALPHA,
}

impl VkBlendFactor {
    /// The integer that the Vulkan API uses for this value.
    pub open spec fn raw_value(self) -> i32 {
        match self {
            VkBlendFactor::VK_BLEND_FACTOR_ZERO => 0i32,
            VkBlendFactor::VK_BLEND_FACTOR_ONE => 1i32,
            VkBlendFactor::VK_BLEND_FACTOR_SRC_COLOR => 2i32,
            VkBlendFactor::VK_BLEND_FACTOR_ONE_MINUS_SRC_COLOR => 3i32,
            VkBlendFactor::VK_BLEND_FACTOR_DST_COLOR => 4i32,
            VkBlendFactor::VK_BLEND_FACTOR_ONE_MINUS_DST_COLOR => 5i32,
            VkBlendFactor::VK_BLEND_FACTOR_SRC_ALPHA => 6i32,
            VkBlendFactor::VK_BLEND_FACTOR_ONE_MINUS_SRC_ALPHA => 7i32,
            VkBlendFactor::VK_BLEND_FACTOR_DST_ALPHA => 8i32,
            VkBlendFactor::VK_BLEND_FACTOR_ONE_MINUS_DST_ALPHA => 9i32,
            VkBlendFactor::VK_BLEND_FACTOR_CONSTANT_COLOR => 10i32,
            VkBlendFactor::VK_BLEND_FACTOR_ONE_MINUS_CONSTANT_COLOR => 11i32,
            VkBlendFactor::VK_BLEND_FACTOR_CONSTANT_ALPHA => 12i32,
            VkBlendFactor::VK_BLEND_FACTOR_ONE_MINUS_CONSTANT_ALPHA => 13i32,
            VkBlendFactor::VK_BLEND_FACTOR_SRC_ALPHA_SATURATE => 14i32,
            VkBlendFactor::VK_BLEND_FACTOR_SRC1_COLOR => 15i32,
            VkBlendFactor::VK_BLEND_FACTOR_ONE_MINUS_SRC1_COLOR => 16i32,
            VkBlendFactor::VK_BLEND_FACTOR_SRC1_ALPHA => 17i32,
            VkBlendFactor::VK_BLEND_FACTOR_ONE_MINUS_SRC1_ALPHA => 18i32,
        }
    }

    /// The integer that the Vulkan API uses for this value.
    pub fn to_raw(self) -> (r: i32)
        ensures
            r == self.raw_value(),
    {
        match self {
            VkBlendFactor::VK_BLEND_FACTOR_ZERO => 0i32,
            VkBlendFactor::VK_BLEND_FACTOR_ONE => 1i32,
            VkBlendFactor::VK_BLEND_FACTOR_SRC_COLOR => 2i32,
            VkBlendFactor::VK_BLEND_FACTOR_ONE_MINUS_SRC_COLOR => 3i32,
            VkBlendFactor::VK_BLEND_FACTOR_DST_COLOR => 4i32,
            VkBlendFactor::VK_BLEND_FACTOR_ONE_MINUS_DST_COLOR => 5i32,
            VkBlendFactor::VK_BLEND_FACTOR_SRC_ALPHA => 6i32,
            VkBlendFactor::VK_BLEND_FACTOR_ONE_MINUS_SRC_ALPHA => 7i32,
            VkBlendFactor::VK_BLEND_FACTOR_DST_ALPHA => 8i32,
            VkBlendFactor::VK_BLEND_FACTOR_ONE_MINUS_DST_ALPHA => 9i32,
            VkBlendFactor::VK_BLEND_FACTOR_CONSTANT_COLOR => 10i32,
            VkBlendFactor::VK_BLEND_FACTOR_ONE_MINUS_CONSTANT_COLOR => 11i32,
            VkBlendFactor::VK_BLEND_FACTOR_CONSTANT_ALPHA => 12i32,
            VkBlendFactor::VK_BLEND_FACTOR_ONE_MINUS_CONSTANT_ALPHA => 13i32,
            VkBlendFactor::VK_BLEND_FACTOR_SRC_ALPHA_SATURATE => 14i32,
            VkBlendFactor::VK_BLEND_FACTOR_SRC1_COLOR => 15i32,
            VkBlendFactor::VK_BLEND_FACTOR_ONE_MINUS_SRC1_COLOR => 16i32,
            VkBlendFactor::VK_BLEND_FACTOR_SRC1_ALPHA => 17i32,
            VkBlendFactor::VK_BLEND_FACTOR_ONE_MINUS_SRC1_ALPHA => 18i32,
        }
    }
}

#[allow(non_camel_case_types)]
#[derive(Copy, Clone, PartialEq, Eq, Structural, Debug)]
pub enum VkBlendOp {
    VK_BLEND_OP_ADD,
    VK_BLEND_OP_SUBTRACT,
    VK_BLEND_OP_REVERSE_SUBTRACT,
    VK_BLEND_OP_MIN,
    VK_BLEND_OP_MAX,
}

impl VkBlendOp {
    /// The integer that the Vulkan API uses for this value.
    pub open spec fn raw_value(self) -> i32 {
        match self {
            VkBlendOp::VK_BLEND_OP_ADD => 0i32,
            VkBlendOp::VK_BLEND_OP_SUBTRACT => 1i32,
            VkBlendOp::VK_BLEND_OP_REVERSE_SUBTRACT => 2i32,
            VkBlendOp::VK_BLEND_OP_MIN => 3i32,
            VkBlendOp::VK_BLEND_OP_MAX => 4i32,
        }
    }

    /// The integer that the Vulkan API uses for this value.
    pub fn to_raw(self) -> (r: i32)
        ensures
            r == self.raw_value(),
    {
        match self {
            VkBlendOp::VK_BLEND_OP_ADD => 0i32,
            VkBlendOp::VK_BLEND_OP_SUBTRACT => 1i32,
            VkBlendOp::VK_BLEND_OP_REVERSE_SUBTRACT => 2i32,
            VkBlendOp::VK_BLEND_OP_MIN => 3i32,
            VkBlendOp::VK_BLEND_OP_MAX => 4i32,
        }
    }
}

#[allow(non_camel_case_types)]
#[derive(Copy, Clone, PartialEq, Eq, Structural, Debug)]
pub enum VkBorderColor {
    VK_BORDER_COLOR_FLOAT_TRANSPARENT_BLACK,
    VK_BORDER_COLOR_INT_TRANSPARENT_BLACK,
    VK_BORDER_COLOR_FLOAT_OPAQUE_BLACK,
    VK_BORDER_COLOR_INT_OPAQUE_BLACK,
    VK_BORDER_COLOR_FLOAT_OPAQUE_WHITE,
    VK_BORDER_COLOR_INT_OPAQUE_WHITE,
}

impl VkBorderColor {
    /// The integer that the Vulkan API uses for this value.
    pub open spec fn raw_value(self) -> i32 {
        match self {
            VkBorderColor::VK_BORDER_COLOR_FLOAT_TRANSPARENT_BLACK => 0i32,
            VkBorderColor::VK_BORDER_COLOR_INT_TRANSPARENT_BLACK => 1i32,
            VkBorderColor::VK_BORDER_COLOR_FLOAT_OPAQUE_BLACK => 2i32,
            VkBorderColor::VK_BORDER_COLOR_INT_OPAQUE_BLACK => 3i32,
            VkBorderColor::VK_BORDER_COLOR_FLOAT_OPAQUE_WHITE => 4i32,
            VkBorderColor::VK_BORDER_COLOR_INT_OPAQUE_WHITE => 5i32,
        }
    }

    /// The integer that the Vulkan API uses for this value.
    pub fn to_raw(self) -> (r: i32)
        ensures
            r == self.raw_value(),
    {
        match self {
            VkBorderColor::VK_BORDER_COLOR_FLOAT_TRANSPARENT_BLACK => 0i32,
            VkBorderColor::VK_BORDER_COLOR_INT_TRANSPARENT_BLACK => 1i32,
            VkBorderColor::VK_BORDER_COLOR_FLOAT_OPAQUE_BLACK => 2i32,
            VkBorderColor::VK_BORDER_COLOR_INT_OPAQUE_BLACK => 3i32,
            VkBorderColor::VK_BORDER_COLOR_FLOAT_OPAQUE_WHITE => 4i32,
            VkBorderColor::VK_BORDER_COLOR_INT_OPAQUE_WHITE => 5i32,
        }
    }
}

#[allow(non_camel_case_types)]
#[derive(Copy, Clone, PartialEq, Eq, Structural, Debug)]
pub enum VkPipelineCacheHeaderVersion {
    VK_PIPELINE_CACHE_HEADER_VERSION_ONE,
}

impl VkPipelineCacheHeaderVersion {
    /// The integer that the Vulkan API uses for this value.
    pub open spec fn raw_value(self) -> i32 {
        match self {
            VkPipelineCacheHeaderVersion::VK_PIPELINE_CACHE_HEADER_VERSION_ONE => 1i32,
        }
    }

    /// The integer that the Vulkan API uses for this value.
    pub fn to_raw(self) -> (r: i32)
        ensures
            r == self.raw_value(),
    {
        match self {
            VkPipelineCacheHeaderVersion::VK_PIPELINE_CACHE_HEADER_VERSION_ONE => 1i32,
        }
    }
}

#[allow(non_camel_case_types)]
#[derive(Copy, Clone, PartialEq, Eq, Structural, Debug)]
pub enum VkBufferCreateFlagBits {
    VK_BUFFER_CREATE_SPARSE_BINDING_BIT,
    VK_BUFFER_CREATE_SPARSE_RESIDENCY_BIT,
    VK_BUFFER_CREATE_SPARSE_ALIASED_BIT,
}

impl VkBufferCreateFlagBits {
    /// The integer that the Vulkan API uses for this value.
    pub open spec fn raw_value(self) -> i32 {
        match self {
            VkBufferCreateFlagBits::VK_BUFFER_CREATE_SPARSE_BINDING_BIT => 1i32,
            VkBufferCreateFlagBits::VK_BUFFER_CREATE_SPARSE_RESIDENCY_BIT => 2i32,
            VkBufferCreateFlagBits::VK_BUFFER_CREATE_SPARSE_ALIASED_BIT => 4i32,
        }
    }

    /// The integer that the Vulkan API uses for this value.
    pub fn to_raw(self) -> (r: i32)
        ensures
            r == self.raw_value(),
    {
        match self {
            VkBufferCreateFlagBits::VK_BUFFER_CREATE_SPARSE_BINDING_BIT => 1i32,
            VkBufferCreateFlagBits::VK_BUFFER_CREATE_SPARSE_RESIDENCY_BIT => 2i32,
            VkBufferCreateFlagBits::VK_BUFFER_CREATE_SPARSE_ALIASED_BIT => 4i32,
        }
    }
}

#[allow(non_camel_case_types)]
#[derive(Copy, Clone, PartialEq, Eq, Structural, Debug)]
pub enum VkBufferUsageFlagBits {
    VK_BUFFER_USAGE_TRANSFER_SRC_BIT,
    VK_BUFFER_USAGE_TRANSFER_DST_BIT,
    VK_BUFFER_USAGE_UNIFORM_TEXEL_BUFFER_BIT,
    VK_BUFFER_USAGE_STORAGE_TEXEL_BUFFER_BIT,
    VK_BUFFER_USAGE_UNIFORM_BUFFER_BIT,
    VK_BUFFER_USAGE_STORAGE_BUFFER_BIT,
    VK_BUFFER_USAGE_INDEX_BUFFER_BIT,
    VK_BUFFER_USAGE_VERTEX_BUFFER_BIT,
    VK_BUFFER_USAGE_INDIRECT_BUFFER_BIT,
}

impl VkBufferUsageFlagBits {
    /// The integer that the Vulkan API uses for this value.
    pub open spec fn raw_value(self) -> i32 {
        match self {
            VkBufferUsageFlagBits::VK_BUFFER_USAGE_TRANSFER_SRC_BIT => 1i32,
            VkBufferUsageFlagBits::VK_BUFFER_USAGE_TRANSFER_DST_BIT => 2i32,
            VkBufferUsageFlagBits::VK_BUFFER_USAGE_UNIFORM_TEXEL_BUFFER_BIT => 4i32,
            VkBufferUsageFlagBits::VK_BUFFER_USAGE_STORAGE_TEXEL_BUFFER_BIT => 8i32,
            VkBufferUsageFlagBits::VK_BUFFER_USAGE_UNIFORM_BUFFER_BIT => 16i32,
            VkBufferUsageFlagBits::VK_BUFFER_USAGE_STORAGE_BUFFER_BIT => 32i32,
            VkBufferUsageFlagBits::VK_BUFFER_USAGE_INDEX_BUFFER_BIT => 64i32,
            VkBufferUsageFlagBits::VK_BUFFER_USAGE_VERTEX_BUFFER_BIT => 128i32,
            VkBufferUsageFlagBits::VK_BUFFER_USAGE_INDIRECT_BUFFER_BIT => 256i32,
        }
    }

    /// The integer that the Vulkan API uses for this value.
    pub fn to_raw(self) -> (r: i32)
        ensures
            r == self.raw_value(),
    {
        match self {
            VkBufferUsageFlagBits::VK_BUFFER_USAGE_TRANSFER_SRC_BIT => 1i32,
            VkBufferUsageFlagBits::VK_BUFFER_USAGE_TRANSFER_DST_BIT => 2i32,
            VkBufferUsageFlagBits::VK_BUFFER_USAGE_UNIFORM_TEXEL_BUFFER_BIT => 4i32,
            VkBufferUsageFlagBits::VK_BUFFER_USAGE_STORAGE_TEXEL_BUFFER_BIT => 8i32,
            VkBufferUsageFlagBits::VK_BUFFER_USAGE_UNIFORM_BUFFER_BIT => 16i32,
            VkBufferUsageFlagBits::VK_BUFFER_USAGE_STORAGE_BUFFER_BIT => 32i32,
            VkBufferUsageFlagBits::VK_BUFFER_USAGE_INDEX_BUFFER_BIT => 64i32,
            VkBufferUsageFlagBits::VK_BUFFER_USAGE_VERTEX_BUFFER_BIT => 128i32,
            VkBufferUsageFlagBits::VK_BUFFER_USAGE_INDIRECT_BUFFER_BIT => 256i32,
        }
    }
}

#[allow(non_camel_case_types)]
#[derive(Copy, Clone, PartialEq, Eq, Structural, Debug)]
pub enum VkColorComponentFlagBits {
    VK_COLOR_COMPONENT_R_BIT,
    VK_COLOR_COMPONENT_G_BIT,
    VK_COLOR_COMPONENT_B_BIT,
    VK_COLOR_COMPONENT_A_BIT,
}

impl VkColorComponentFlagBits {
    /// The integer that the Vulkan API uses for this value.
    pub open spec fn raw_value(self) -> i32 {
        match self {
            VkColorComponentFlagBits::VK_COLOR_COMPONENT_R_BIT => 1i32,
            VkColorComponentFlagBits::VK_COLOR_COMPONENT_G_BIT => 2i32,
            VkColorComponentFlagBits::VK_COLOR_COMPONENT_B_BIT => 4i32,
            VkColorComponentFlagBits::VK_COLOR_COMPONENT_A_BIT => 8i32,
        }
    }

    /// The integer that the Vulkan API uses for this value.
    pub fn to_raw(self) -> (r: i32)
        ensures
            r == self.raw_value(),
    {
        match self {
            VkColorComponentFlagBits::VK_COLOR_COMPONENT_R_BIT => 1i32,
            VkColorComponentFlagBits::VK_COLOR_COMPONENT_G_BIT => 2i32,
            VkColorComponentFlagBits::VK_COLOR_COMPONENT_B_BIT => 4i32,
            VkColorComponentFlagBits::VK_COLOR_COMPONENT_A_BIT => 8i32,
        }
    }
}

#[allow(non_camel_case_types)]
#[derive(Copy, Clone, PartialEq, Eq, Structural, Debug)]
pub enum VkComponentSwizzle {
    VK_COMPONENT_SWIZZLE_IDENTITY,
    VK_COMPONENT_SWIZZLE_ZERO,
    VK_COMPONENT_SWIZZLE_ONE,
    VK_COMPONENT_SWIZZLE_R,
    VK_COMPONENT_SWIZZLE_G,
    VK_COMPONENT_SWIZZLE_B,
    VK_COMPONENT_SWIZZLE_A,
}

impl VkComponentSwizzle {
    /// The integer that the Vulkan API uses for this value.
    pub open spec fn raw_value(self) -> i32 {
        match self {
            VkComponentSwizzle::VK_COMPONENT_SWIZZLE_IDENTITY => 0i32,
            VkComponentSwizzle::VK_COMPONENT_SWIZZLE_ZERO => 1i32,
            VkComponentSwizzle::VK_COMPONENT_SWIZZLE_ONE => 2i32,
            VkComponentSwizzle::VK_COMPONENT_SWIZZLE_R => 3i32,
            VkComponentSwizzle::VK_COMPONENT_SWIZZLE_G => 4i32,
            VkComponentSwizzle::VK_COMPONENT_SWIZZLE_B => 5i32,
            VkComponentSwizzle::VK_COMPONENT_SWIZZLE_A => 6i32,
        }
    }

    /// The integer that the Vulkan API uses for this value.
    pub fn to_raw(self) -> (r: i32)
        ensures
            r == self.raw_value(),
    {
        match self {
            VkComponentSwizzle::VK_COMPONENT_SWIZZLE_IDENTITY => 0i32,
            VkComponentSwizzle::VK_COMPONENT_SWIZZLE_ZERO => 1i32,
            VkComponentSwizzle::VK_COMPONENT_SWIZZLE_ONE => 2i32,
            VkComponentSwizzle::VK_COMPONENT_SWIZZLE_R => 3i32,
            VkComponentSwizzle::VK_COMPONENT_SWIZZLE_G => 4i32,
            VkComponentSwizzle::VK_COMPONENT_SWIZZLE_B => 5i32,
            VkComponentSwizzle::VK_COMPONENT_SWIZZLE_A => 6i32,
        }
    }
}

#[allow(non_camel_case_types)]
#[derive(Copy, Clone, PartialEq, Eq, Structural, Debug)]
pub enum VkCommandPoolCreateFlagBits {
    VK_COMMAND_POOL_CREATE_TRANSIENT_BIT,
    VK_COMMAND_POOL_CREATE_RESET_COMMAND_BUFFER_BIT,
}

impl VkCommandPoolCreateFlagBits {
    /// The integer that the Vulkan API uses for this value.
    pub open spec fn raw_value(self) -> i32 {
        match self {
            VkCommandPoolCreateFlagBits::VK_COMMAND_POOL_CREATE_TRANSIENT_BIT => 1i32,
            VkCommandPoolCreateFlagBits::VK_COMMAND_POOL_CREATE_RESET_COMMAND_BUFFER_BIT => 2i32,
        }
    }

    /// The integer that the Vulkan API uses for this value.
    pub fn to_raw(self) -> (r: i32)
        ensures
            r == self.raw_value(),
    {
        match self {
            VkCommandPoolCreateFlagBits::VK_COMMAND_POOL_CREATE_TRANSIENT_BIT => 1i32,
            VkCommandPoolCreateFlagBits::VK_COMMAND_POOL_CREATE_RESET_COMMAND_BUFFER_BIT => 2i32,
        }
    }
}

#[allow(non_camel_case_types)]
#[derive(Copy, Clone, PartialEq, Eq, Structural, Debug)]
pub enum VkCommandPoolResetFlagBits {
    VK_COMMAND_POOL_RESET_RELEASE_RESOURCES_BIT,
}

impl VkCommandPoolResetFlagBits {
    /// The integer that the Vulkan API uses for this value.
    pub open spec fn raw_value(self) -> i32 {
        match self {
            VkCommandPoolResetFlagBits::VK_COMMAND_POOL_RESET_RELEASE_RESOURCES_BIT => 1i32,
        }
    }

    /// The integer that the Vulkan API uses for this value.
    pub fn to_raw(self) -> (r: i32)
        ensures
            r == self.raw_value(),
    {
        match self {
            VkCommandPoolResetFlagBits::VK_COMMAND_POOL_RESET_RELEASE_RESOURCES_BIT => 1i32,
        }
    }
}

#[allow(non_camel_case_types)]
#[derive(Copy, Clone, PartialEq, Eq, Structural, Debug)]
pub enum VkCommandBufferResetFlagBits {
    VK_COMMAND_BUFFER_RESET_RELEASE_RESOURCES_BIT,
}

impl VkCommandBufferResetFlagBits {
    /// The integer that the Vulkan API uses for this value.
    pub open spec fn raw_value(self) -> i32 {
        match self {
            VkCommandBufferResetFlagBits::VK_COMMAND_BUFFER_RESET_RELEASE_RESOURCES_BIT => 1i32,
        }
    }

    /// The integer that the Vulkan API uses for this value.
    pub fn to_raw(self) -> (r: i32)
        ensures
            r == self.raw_value(),
    {
        match self {
            VkCommandBufferResetFlagBits::VK_COMMAND_BUFFER_RESET_RELEASE_RESOURCES_BIT => 1i32,
        }
    }
}

#[allow(non_camel_case_types)]
#[derive(Copy, Clone, PartialEq, Eq, Structural, Debug)]
pub enum VkCommandBufferLevel {
    VK_COMMAND_BUFFER_LEVEL_PRIMARY,
    VK_COMMAND_BUFFER_LEVEL_SECONDARY,
}

impl VkCommandBufferLevel {
    /// The integer that the Vulkan API uses for this value.
    pub open spec fn raw_value(self) -> i32 {
        match self {
            VkCommandBufferLevel::VK_COMMAND_BUFFER_LEVEL_PRIMARY => 0i32,
            VkCommandBufferLevel::VK_COMMAND_BUFFER_LEVEL_SECONDARY => 1i32,
        }
    }

    /// The integer that the Vulkan API uses for this value.
    pub fn to_raw(self) -> (r: i32)
        ensures
            r == self.raw_value(),
    {
        match self {
            VkCommandBufferLevel::VK_COMMAND_BUFFER_LEVEL_PRIMARY => 0i32,
            VkCommandBufferLevel::VK_COMMAND_BUFFER_LEVEL_SECONDARY => 1i32,
        }
    }
}

#[allow(non_camel_case_types)]
#[derive(Copy, Clone, PartialEq, Eq, Structural, Debug)]
pub enum VkCommandBufferUsageFlagBits {
    VK_COMMAND_BUFFER_USAGE_ONE_TIME_SUBMIT_BIT,
    VK_COMMAND_BUFFER_USAGE_RENDER_PASS_CONTINUE_BIT,
    VK_COMMAND_BUFFER_USAGE_SIMULTANEOUS_USE_BIT,
}

impl VkCommandBufferUsageFlagBits {
    /// The integer that the Vulkan API uses for this value.
    pub open spec fn raw_value(self) -> i32 {
        match self {
            VkCommandBufferUsageFlagBits::VK_COMMAND_BUFFER_USAGE_ONE_TIME_SUBMIT_BIT => 1i32,
            VkCommandBufferUsageFlagBits::VK_COMMAND_BUFFER_USAGE_RENDER_PASS_CONTINUE_BIT => 2i32,
            VkCommandBufferUsageFlagBits::VK_COMMAND_BUFFER_USAGE_SIMULTANEOUS_USE_BIT => 4i32,
        }
    }

    /// The integer that the Vulkan API uses for this value.
    pub fn to_raw(self) -> (r: i32)
        ensures
            r == self.raw_value(),
    {
        match self {
            VkCommandBufferUsageFlagBits::VK_COMMAND_BUFFER_USAGE_ONE_TIME_SUBMIT_BIT => 1i32,
            VkCommandBufferUsageFlagBits::VK_COMMAND_BUFFER_USAGE_RENDER_PASS_CONTINUE_BIT => 2i32,
            VkCommandBufferUsageFlagBits::VK_COMMAND_BUFFER_USAGE_SIMULTANEOUS_USE_BIT => 4i32,
        }
    }
}

#[allow(non_camel_case_types)]
#[derive(Copy, Clone, PartialEq, Eq, Structural, Debug)]
pub enum VkCompareOp {
    VK_COMPARE_OP_NEVER,
    VK_COMPARE_OP_LESS,
    VK_COMPARE_OP_EQUAL,
    VK_COMPARE_OP_LESS_OR_EQUAL,
    VK_COMPARE_OP_GREATER,
    VK_COMPARE_OP_NOT_EQUAL,
    VK_COMPARE_OP_GREATER_OR_EQUAL,
    VK_COMPARE_OP_ALWAYS,
}

impl VkCompareOp {
    /// The integer that the Vulkan API uses for this value.
    pub open spec fn raw_value(self) -> i32 {
        match self {
            VkCompareOp::VK_COMPARE_OP_NEVER => 0i32,
            VkCompareOp::VK_COMPARE_OP_LESS => 1i32,
            VkCompareOp::VK_COMPARE_OP_EQUAL => 2i32,
            VkCompareOp::VK_COMPARE_OP_LESS_OR_EQUAL => 3i32,
            VkCompareOp::VK_COMPARE_OP_GREATER => 4i32,
            VkCompareOp::VK_COMPARE_OP_NOT_EQUAL => 5i32,
            VkCompareOp::VK_COMPARE_OP_GREATER_OR_EQUAL => 6i32,
            VkCompareOp::VK_COMPARE_OP_ALWAYS => 7i32,
        }
    }

    /// The integer that the Vulkan API uses for this value.
    pub fn to_raw(self) -> (r: i32)
        ensures
            r == self.raw_value(),
    {
        match self {
            VkCompareOp::VK_COMPARE_OP_NEVER => 0i32,
            VkCompareOp::VK_COMPARE_OP_LESS => 1i32,
            VkCompareOp::VK_COMPARE_OP_EQUAL => 2i32,
            VkCompareOp::VK_COMPARE_OP_LESS_OR_EQUAL => 3i32,
            VkCompareOp::VK_COMPARE_OP_GREATER => 4i32,
            VkCompareOp::VK_COMPARE_OP_NOT_EQUAL => 5i32,
            VkCompareOp::VK_COMPARE_OP_GREATER_OR_EQUAL => 6i32,
            VkCompareOp::VK_COMPARE_OP_ALWAYS => 7i32,
        }
    }
}

#[allow(non_camel_case_types)]
#[derive(Copy, Clone, PartialEq, Eq, Structural, Debug)]
pub enum VkCullModeFlagBits {
    VK_CULL_MODE_NONE,
    VK_CULL_MODE_FRONT_BIT,
    VK_CULL_MODE_BACK_BIT,
    VK_CULL_MODE_FRONT_AND_BACK,
}

impl VkCullModeFlagBits {
    /// The integer that the Vulkan API uses for this value.
    pub open spec fn raw_value(self) -> i32 {
        match self {
            VkCullModeFlagBits::VK_CULL_MODE_NONE => 0i32,
            VkCullModeFlagBits::VK_CULL_MODE_FRONT_BIT => 1i32,
            VkCullModeFlagBits::VK_CULL_MODE_BACK_BIT => 2i32,
            VkCullModeFlagBits::VK_CULL_MODE_FRONT_AND_BACK => 3i32,
        }
    }

    /// The integer that the Vulkan API uses for this value.
    pub fn to_raw(self) -> (r: i32)
        ensures
            r == self.raw_value(),
    {
        match self {
            VkCullModeFlagBits::VK_CULL_MODE_NONE => 0i32,
            VkCullModeFlagBits::VK_CULL_MODE_FRONT_BIT => 1i32,
            VkCullModeFlagBits::VK_CULL_MODE_BACK_BIT => 2i32,
            VkCullModeFlagBits::VK_CULL_MODE_FRONT_AND_BACK => 3i32,
        }
    }
}

#[allow(non_camel_case_types)]
#[derive(Copy, Clone, PartialEq, Eq, Structural, Debug)]
pub enum VkDescriptorType {
    VK_DESCRIPTOR_TYPE_SAMPLER,
    VK_DESCRIPTOR_TYPE_COMBINED_IMAGE_SAMPLER,
    VK_DESCRIPTOR_TYPE_SAMPLED_IMAGE,
    VK_DESCRIPTOR_TYPE_STORAGE_IMAGE,
    VK_DESCRIPTOR_TYPE_UNIFORM_TEXEL_BUFFER,
    VK_DESCRIPTOR_TYPE_STORAGE_TEXEL_BUFFER,
    VK_DESCRIPTOR_TYPE_UNIFORM_BUFFER,
    VK_DESCRIPTOR_TYPE_STORAGE_BUFFER,
    VK_DESCRIPTOR_TYPE_UNIFORM_BUFFER_DYNAMIC,
    VK_DESCRIPTOR_TYPE_STORAGE_BUFFER_DYNAMIC,
    VK_DESCRIPTOR_TYPE_INPUT_ATTACHMENT,
}

impl VkDescriptorType {
    /// The integer that the Vulkan API uses for this value.
    pub open spec fn raw_value(self) -> i32 {
        match self {
            VkDescriptorType::VK_DESCRIPTOR_TYPE_SAMPLER => 0i32,
            VkDescriptorType::VK_DESCRIPTOR_TYPE_COMBINED_IMAGE_SAMPLER => 1i32,
            VkDescriptorType::VK_DESCRIPTOR_TYPE_SAMPLED_IMAGE => 2i32,
            VkDescriptorType::VK_DESCRIPTOR_TYPE_STORAGE_IMAGE => 3i32,
            VkDescriptorType::VK_DESCRIPTOR_TYPE_UNIFORM_TEXEL_BUFFER => 4i32,
            VkDescriptorType::VK_DESCRIPTOR_TYPE_STORAGE_TEXEL_BUFFER => 5i32,
            VkDescriptorType::VK_DESCRIPTOR_TYPE_UNIFORM_BUFFER => 6i32,
            VkDescriptorType::VK_DESCRIPTOR_TYPE_STORAGE_BUFFER => 7i32,
            VkDescriptorType::VK_DESCRIPTOR_TYPE_UNIFORM_BUFFER_DYNAMIC => 8i32,
            VkDescriptorType::VK_DESCRIPTOR_TYPE_STORAGE_BUFFER_DYNAMIC => 9i32,
            VkDescriptorType::VK_DESCRIPTOR_TYPE_INPUT_ATTACHMENT => 10i32,
        }
    }

    /// The integer that the Vulkan API uses for this value.
    pub fn to_raw(self) -> (r: i32)
        ensures
            r == self.raw_value(),
    {
        match self {
            VkDescriptorType::VK_DESCRIPTOR_TYPE_SAMPLER => 0i32,
            VkDescriptorType::VK_DESCRIPTOR_TYPE_COMBINED_IMAGE_SAMPLER => 1i32,
            VkDescriptorType::VK_DESCRIPTOR_TYPE_SAMPLED_IMAGE => 2i32,
            VkDescriptorType::VK_DESCRIPTOR_TYPE_STORAGE_IMAGE => 3i32,
            VkDescriptorType::VK_DESCRIPTOR_TYPE_UNIFORM_TEXEL_BUFFER => 4i32,
            VkDescriptorType::VK_DESCRIPTOR_TYPE_STORAGE_TEXEL_BUFFER => 5i32,
            VkDescriptorType::VK_DESCRIPTOR_TYPE_UNIFORM_BUFFER => 6i32,
            VkDescriptorType::VK_DESCRIPTOR_TYPE_STORAGE_BUFFER => 7i32,
            VkDescriptorType::VK_DESCRIPTOR_TYPE_UNIFORM_BUFFER_DYNAMIC => 8i32,
            VkDescriptorType::VK_DESCRIPTOR_TYPE_STORAGE_BUFFER_DYNAMIC => 9i32,
            VkDescriptorType::VK_DESCRIPTOR_TYPE_INPUT_ATTACHMENT => 10i32,
        }
    }
}

#[allow(non_camel_case_types)]
#[derive(Copy, Clone, PartialEq, Eq, Structural, Debug)]
pub enum VkDynamicState {
    VK_DYNAMIC_STATE_VIEWPORT,
    VK_DYNAMIC_STATE_SCISSOR,
    VK_DYNAMIC_STATE_LINE_WIDTH,
    VK_DYNAMIC_STATE_DEPTH_BIAS,
    VK_DYNAMIC_STATE_BLEND_CONSTANTS,
    VK_DYNAMIC_STATE_DEPTH_BOUNDS,
    VK_DYNAMIC_STATE_STENCIL_COMPARE_MASK,
    VK_DYNAMIC_STATE_STENCIL_WRITE_MASK,
    VK_DYNAMIC_STATE_STENCIL_REFERENCE,
}

impl VkDynamicState {
    /// The integer that the Vulkan API uses for this value.
    pub open spec fn raw_value(self) -> i32 {
        match self {
            VkDynamicState::VK_DYNAMIC_STATE_VIEWPORT => 0i32,
            VkDynamicState::VK_DYNAMIC_STATE_SCISSOR => 1i32,
            VkDynamicState::VK_DYNAMIC_STATE_LINE_WIDTH => 2i32,
            VkDynamicState::VK_DYNAMIC_STATE_DEPTH_BIAS => 3i32,
            VkDynamicState::VK_DYNAMIC_STATE_BLEND_CONSTANTS => 4i32,
            VkDynamicState::VK_DYNAMIC_STATE_DEPTH_BOUNDS => 5i32,
            VkDynamicState::VK_DYNAMIC_STATE_STENCIL_COMPARE_MASK => 6i32,
            VkDynamicState::VK_DYNAMIC_STATE_STENCIL_WRITE_MASK => 7i32,
            VkDynamicState::VK_DYNAMIC_STATE_STENCIL_REFERENCE => 8i32,
        }
    }

    /// The integer that the Vulkan API uses for this value.
    pub fn to_raw(self) -> (r: i32)
        ensures
            r == self.raw_value(),
    {
        match self {
            VkDynamicState::VK_DYNAMIC_STATE_VIEWPORT => 0i32,
            VkDynamicState::VK_DYNAMIC_STATE_SCISSOR => 1i32,
            VkDynamicState::VK_DYNAMIC_STATE_LINE_WIDTH => 2i32,
            VkDynamicState::VK_DYNAMIC_STATE_DEPTH_BIAS => 3i32,
            VkDynamicState::VK_DYNAMIC_STATE_BLEND_CONSTANTS => 4i32,
            VkDynamicState::VK_DYNAMIC_STATE_DEPTH_BOUNDS => 5i32,
            VkDynamicState::VK_DYNAMIC_STATE_STENCIL_COMPARE_MASK => 6i32,
            VkDynamicState::VK_DYNAMIC_STATE_STENCIL_WRITE_MASK => 7i32,
            VkDynamicState::VK_DYNAMIC_STATE_STENCIL_REFERENCE => 8i32,
        }
    }
}

#[allow(non_camel_case_types)]
#[derive(Copy, Clone, PartialEq, Eq, Structural, Debug)]
pub enum VkFenceCreateFlagBits {
    VK_FENCE_CREATE_SIGNALED_BIT,
}

impl VkFenceCreateFlagBits {
    /// The integer that the Vulkan API uses for this value.
    pub open spec fn raw_value(self) -> i32 {
        match self {
            VkFenceCreateFlagBits::VK_FENCE_CREATE_SIGNALED_BIT => 1i32,
        }
    }

    /// The integer that the Vulkan API uses for this value.
    pub fn to_raw(self) -> (r: i32)
        ensures
            r == self.raw_value(),
    {
        match self {
            VkFenceCreateFlagBits::VK_FENCE_CREATE_SIGNALED_BIT => 1i32,
        }
    }
}

#[allow(non_camel_case_types)]
#[derive(Copy, Clone, PartialEq, Eq, Structural, Debug)]
pub enum VkPolygonMode {
    VK_POLYGON_MODE_FILL,
    VK_POLYGON_MODE_LINE,
    VK_POLYGON_MODE_POINT,
}

impl VkPolygonMode {
    /// The integer that the Vulkan API uses for this value.
    pub open spec fn raw_value(self) -> i32 {
        match self {
            VkPolygonMode::VK_POLYGON_MODE_FILL => 0i32,
            VkPolygonMode::VK_POLYGON_MODE_LINE => 1i32,
            VkPolygonMode::VK_POLYGON_MODE_POINT => 2i32,
        }
    }

    /// The integer that the Vulkan API uses for this value.
    pub fn to_raw(self) -> (r: i32)
        ensures
            r == self.raw_value(),
    {
        match self {
            VkPolygonMode::VK_POLYGON_MODE_FILL => 0i32,
            VkPolygonMode::VK_POLYGON_MODE_LINE => 1i32,
            VkPolygonMode::VK_POLYGON_MODE_POINT => 2i32,
        }
    }
}

#[allow(non_camel_case_types)]
#[derive(Copy, Clone, PartialEq, Eq, Structural, Debug)]
pub enum VkFormat {
    VK_FORMAT_UNDEFINED,
    VK_FORMAT_R4G4_UNORM_PACK8,
    VK_FORMAT_R4G4B4A4_UNORM_PACK16,
    VK_FORMAT_B4G4R4A4_UNORM_PACK16,
    VK_FORMAT_R5G6B5_UNORM_PACK16,
    VK_FORMAT_B5G6R5_UNORM_PACK16,
    VK_FORMAT_R5G5B5A1_UNORM_PACK16,
    VK_FORMAT_B5G5R5A1_UNORM_PACK16,
    VK_FORMAT_A1R5G5B5_UNORM_PACK16,
    VK_FORMAT_R8_UNORM,
    VK_FORMAT_R8_SNORM,
    VK_FORMAT_R8_USCALED,
    VK_FORMAT_R8_SSCALED,
    VK_FORMAT_R8_UINT,
    VK_FORMAT_R8_SINT,
    VK_FORMAT_R8_SRGB,
    VK_FORMAT_R8G8_UNORM,
    VK_FORMAT_R8G8_SNORM,
    VK_FORMAT_R8G8_USCALED,
    VK_FORMAT_R8G8_SSCALED,
    VK_FORMAT_R8G8_UINT,
    VK_FORMAT_R8G8_SINT,
    VK_FORMAT_R8G8_SRGB,
    VK_FORMAT_R8G8B8_UNORM,
    VK_FORMAT_R8G8B8_SNORM,
    VK_FORMAT_R8G8B8_USCALED,
    VK_FORMAT_R8G8B8_SSCALED,
    VK_FORMAT_R8G8B8_UINT,
    VK_FORMAT_R8G8B8_SINT,
    VK_FORMAT_R8G8B8_SRGB,
    VK_FORMAT_B8G8R8_UNORM,
    VK_FORMAT_B8G8R8_SNORM,
    VK_FORMAT_B8G8R8_USCALED,
    VK_FORMAT_B8G8R8_SSCALED,
    VK_FORMAT_B8G8R8_UINT,
    VK_FORMAT_B8G8R8_SINT,
    VK_FORMAT_B8G8R8_SRGB,
    VK_FORMAT_R8G8B8A8_UNORM,
    VK_FORMAT_R8G8B8A8_SNORM,
    VK_FORMAT_R8G8B8A8_USCALED,
    VK_FORMAT_R8G8B8A8_SSCALED,
    VK_FORMAT_R8G8B8A8_UINT,
    VK_FORMAT_R8G8B8A8_SINT,
    VK_FORMAT_R8G8B8A8_SRGB,
    VK_FORMAT_B8G8R8A8_UNORM,
    VK_FORMAT_B8G8R8A8_SNORM,
    VK_FORMAT_B8G8R8A8_USCALED,
    VK_FORMAT_B8G8R8A8_SSCALED,
    VK_FORMAT_B8G8R8A8_UINT,
    VK_FORMAT_B8G8R8A8_SINT,
    VK_FORMAT_B8G8R8A8_SRGB,
    VK_FORMAT_A8B8G8R8_UNORM_PACK32,
    VK_FORMAT_A8B8G8R8_SNORM_PACK32,
    VK_FORMAT_A8B8G8R8_USCALED_PACK32,
    VK_FORMAT_A8B8G8R8_SSCALED_PACK32,
    VK_FORMAT_A8B8G8R8_UINT_PACK32,
    VK_FORMAT_A8B8G8R8_SINT_PACK32,
    VK_FORMAT_A8B8G8R8_SRGB_PACK32,
    VK_FORMAT_A2R10G10B10_UNORM_PACK32,
    VK_FORMAT_A2R10G10B10_SNORM_PACK32,
    VK_FORMAT_A2R10G10B10_USCALED_PACK32,
    VK_FORMAT_A2R10G10B10_SSCALED_PACK32,
    VK_FORMAT_A2R10G10B10_UINT_PACK32,
    VK_FORMAT_A2R10G10B10_SINT_PACK32,
    VK_FORMAT_A2B10G10R10_UNORM_PACK32,
    VK_FORMAT_A2B10G10R10_SNORM_PACK32,
    VK_FORMAT_A2B10G10R10_USCALED_PACK32,
    VK_FORMAT_A2B10G10R10_SSCALED_PACK32,
    VK_FORMAT_A2B10G10R10_UINT_PACK32,
    VK_FORMAT_A2B10G10R10_SINT_PACK32,
    VK_FORMAT_R16_UNORM,
    VK_FORMAT_R16_SNORM,
    VK_FORMAT_R16_USCALED,
    VK_FORMAT_R16_SSCALED,
    VK_FORMAT_R16_UINT,
    VK_FORMAT_R16_SINT,
    VK_FORMAT_R16_SFLOAT,
    VK_FORMAT_R16G16_UNORM,
    VK_FORMAT_R16G16_SNORM,
    VK_FORMAT_R16G16_USCALED,
    VK_FORMAT_R16G16_SSCALED,
    VK_FORMAT_R16G16_UINT,
    VK_FORMAT_R16G16_SINT,
    VK_FORMAT_R16G16_SFLOAT,
    VK_FORMAT_R16G16B16_UNORM,
    VK_FORMAT_R16G16B16_SNORM,
    VK_FORMAT_R16G16B16_USCALED,
    VK_FORMAT_R16G16B16_SSCALED,
    VK_FORMAT_R16G16B16_UINT,
    VK_FORMAT_R16G16B16_SINT,
    VK_FORMAT_R16G16B16_SFLOAT,
    VK_FORMAT_R16G16B16A16_UNORM,
    VK_FORMAT_R16G16B16A16_SNORM,
    VK_FORMAT_R16G16B16A16_USCALED,
    VK_FORMAT_R16G16B16A16_SSCALED,
    VK_FORMAT_R16G16B16A16_UINT,
    VK_FORMAT_R16G16B16A16_SINT,
    VK_FORMAT_R16G16B16A16_SFLOAT,
    VK_FORMAT_R32_UINT,
    VK_FORMAT_R32_SINT,
    VK_FORMAT_R32_SFLOAT,
    VK_FORMAT_R32G32_UINT,
    VK_FORMAT_R32G32_SINT,
    VK_FORMAT_R32G32_SFLOAT,
    VK_FORMAT_R32G32B32_UINT,
    VK_FORMAT_R32G32B32_SINT,
    VK_FORMAT_R32G32B32_SFLOAT,
    VK_FORMAT_R32G32B32A32_UINT,
    VK_FORMAT_R32G32B32A32_SINT,
    VK_FORMAT_R32G32B32A32_SFLOAT,
    VK_FORMAT_R64_UINT,
    VK_FORMAT_R64_SINT,
    VK_FORMAT_R64_SFLOAT,
    VK_FORMAT_R64G64_UINT,
    VK_FORMAT_R64G64_SINT,
    VK_FORMAT_R64G64_SFLOAT,
    VK_FORMAT_R64G64B64_UINT,
    VK_FORMAT_R64G64B64_SINT,
    VK_FORMAT_R64G64B64_SFLOAT,
    VK_FORMAT_R64G64B64A64_UINT,
    VK_FORMAT_R64G64B64A64_SINT,
    VK_FORMAT_R64G64B64A64_SFLOAT,
    VK_FORMAT_B10G11R11_UFLOAT_PACK32,
    VK_FORMAT_E5B9G9R9_UFLOAT_PACK32,
    VK_FORMAT_D16_UNORM,
    VK_FORMAT_X8_D24_UNORM_PACK32,
    VK_FORMAT_D32_SFLOAT,
    VK_FORMAT_S8_UINT,
    VK_FORMAT_D16_UNORM_S8_UINT,
    VK_FORMAT_D24_UNORM_S8_UINT,
    VK_FORMAT_D32_SFLOAT_S8_UINT,
    VK_FORMAT_BC1_RGB_UNORM_BLOCK,
    VK_FORMAT_BC1_RGB_SRGB_BLOCK,
    VK_FORMAT_BC1_RGBA_UNORM_BLOCK,
    VK_FORMAT_BC1_RGBA_SRGB_BLOCK,
    VK_FORMAT_BC2_UNORM_BLOCK,
    VK_FORMAT_BC2_SRGB_BLOCK,
    VK_FORMAT_BC3_UNORM_BLOCK,
    VK_FORMAT_BC3_SRGB_BLOCK,
    VK_FORMAT_BC4_UNORM_BLOCK,
    VK_FORMAT_BC4_SNORM_BLOCK,
    VK_FORMAT_BC5_UNORM_BLOCK,
    VK_FORMAT_BC5_SNORM_BLOCK,
    VK_FORMAT_BC6H_UFLOAT_BLOCK,
    VK_FORMAT_BC6H_SFLOAT_BLOCK,
    VK_FORMAT_BC7_UNORM_BLOCK,
    VK_FORMAT_BC7_SRGB_BLOCK,
    VK_FORMAT_ETC2_R8G8B8_UNORM_BLOCK,
    VK_FORMAT_ETC2_R8G8B8_SRGB_BLOCK,
    VK_FORMAT_ETC2_R8G8B8A1_UNORM_BLOCK,
    VK_FORMAT_ETC2_R8G8B8A1_SRGB_BLOCK,
    VK_FORMAT_ETC2_R8G8B8A8_UNORM_BLOCK,
    VK_FORMAT_ETC2_R8G8B8A8_SRGB_BLOCK,
    VK_FORMAT_EAC_R11_UNORM_BLOCK,
    VK_FORMAT_EAC_R11_SNORM_BLOCK,
    VK_FORMAT_EAC_R11G11_UNORM_BLOCK,
    VK_FORMAT_EAC_R11G11_SNORM_BLOCK,
    VK_FORMAT_ASTC_4x4_UNORM_BLOCK,
    VK_FORMAT_ASTC_4x4_SRGB_BLOCK,
    VK_FORMAT_ASTC_5x4_UNORM_BLOCK,
    VK_FORMAT_ASTC_5x4_SRGB_BLOCK,
    VK_FORMAT_ASTC_5x5_UNORM_BLOCK,
    VK_FORMAT_ASTC_5x5_SRGB_BLOCK,
    VK_FORMAT_ASTC_6x5_UNORM_BLOCK,
    VK_FORMAT_ASTC_6x5_SRGB_BLOCK,
    VK_FORMAT_ASTC_6x6_UNORM_BLOCK,
    VK_FORMAT_ASTC_6x6_SRGB_BLOCK,
    VK_FORMAT_ASTC_8x5_UNORM_BLOCK,
    VK_FORMAT_ASTC_8x5_SRGB_BLOCK,
    VK_FORMAT_ASTC_8x6_UNORM_BLOCK,
    VK_FORMAT_ASTC_8x6_SRGB_BLOCK,
    VK_FORMAT_ASTC_8x8_UNORM_BLOCK,
    VK_FORMAT_ASTC_8x8_SRGB_BLOCK,
    VK_FORMAT_ASTC_10x5_UNORM_BLOCK,
    VK_FORMAT_ASTC_10x5_SRGB_BLOCK,
    VK_FORMAT_ASTC_10x6_UNORM_BLOCK,
    VK_FORMAT_ASTC_10x6_SRGB_BLOCK,
    VK_FORMAT_ASTC_10x8_UNORM_BLOCK,
    VK_FORMAT_ASTC_10x8_SRGB_BLOCK,
    VK_FORMAT_ASTC_10x10_UNORM_BLOCK,
    VK_FORMAT_ASTC_10x10_SRGB_BLOCK,
    VK_FORMAT_ASTC_12x10_UNORM_BLOCK,
    VK_FORMAT_ASTC_12x10_SRGB_BLOCK,
    VK_FORMAT_ASTC_12x12_UNORM_BLOCK,
    VK_FORMAT_ASTC_12x12_SRGB_BLOCK,
}

impl VkFormat {
    /// The integer that the Vulkan API uses for this value.
    pub open spec fn raw_value(self) -> i32 {
        match self {
            VkFormat::VK_FORMAT_UNDEFINED => 0i32,
            VkFormat::VK_FORMAT_R4G4_UNORM_PACK8 => 1i32,
            VkFormat::VK_FORMAT_R4G4B4A4_UNORM_PACK16 => 2i32,
            VkFormat::VK_FORMAT_B4G4R4A4_UNORM_PACK16 => 3i32,
            VkFormat::VK_FORMAT_R5G6B5_UNORM_PACK16 => 4i32,
            VkFormat::VK_FORMAT_B5G6R5_UNORM_PACK16 => 5i32,
            VkFormat::VK_FORMAT_R5G5B5A1_UNORM_PACK16 => 6i32,
            VkFormat::VK_FORMAT_B5G5R5A1_UNORM_PACK16 => 7i32,
            VkFormat::VK_FORMAT_A1R5G5B5_UNORM_PACK16 => 8i32,
            VkFormat::VK_FORMAT_R8_UNORM => 9i32,
            VkFormat::VK_FORMAT_R8_SNORM => 10i32,
            VkFormat::VK_FORMAT_R8_USCALED => 11i32,
            VkFormat::VK_FORMAT_R8_SSCALED => 12i32,
            VkFormat::VK_FORMAT_R8_UINT => 13i32,
            VkFormat::VK_FORMAT_R8_SINT => 14i32,
            VkFormat::VK_FORMAT_R8_SRGB => 15i32,
            VkFormat::VK_FORMAT_R8G8_UNORM => 16i32,
            VkFormat::VK_FORMAT_R8G8_SNORM => 17i32,
            VkFormat::VK_FORMAT_R8G8_USCALED => 18i32,
            VkFormat::VK_FORMAT_R8G8_SSCALED => 19i32,
            VkFormat::VK_FORMAT_R8G8_UINT => 20i32,
            VkFormat::VK_FORMAT_R8G8_SINT => 21i32,
            VkFormat::VK_FORMAT_R8G8_SRGB => 22i32,
            VkFormat::VK_FORMAT_R8G8B8_UNORM => 23i32,
            VkFormat::VK_FORMAT_R8G8B8_SNORM => 24i32,
            VkFormat::VK_FORMAT_R8G8B8_USCALED => 25i32,
            VkFormat::VK_FORMAT_R8G8B8_SSCALED => 26i32,
            VkFormat::VK_FORMAT_R8G8B8_UINT => 27i32,
            VkFormat::VK_FORMAT_R8G8B8_SINT => 28i32,
            VkFormat::VK_FORMAT_R8G8B8_SRGB => 29i32,
            VkFormat::VK_FORMAT_B8G8R8_UNORM => 30i32,
            VkFormat::VK_FORMAT_B8G8R8_SNORM => 31i32,
            VkFormat::VK_FORMAT_B8G8R8_USCALED => 32i32,
            VkFormat::VK_FORMAT_B8G8R8_SSCALED => 33i32,
            VkFormat::VK_FORMAT_B8G8R8_UINT => 34i32,
            VkFormat::VK_FORMAT_B8G8R8_SINT => 35i32,
            VkFormat::VK_FORMAT_B8G8R8_SRGB => 36i32,
            VkFormat::VK_FORMAT_R8G8B8A8_UNORM => 37i32,
            VkFormat::VK_FORMAT_R8G8B8A8_SNORM => 38i32,
            VkFormat::VK_FORMAT_R8G8B8A8_USCALED => 39i32,
            VkFormat::VK_FORMAT_R8G8B8A8_SSCALED => 40i32,
            VkFormat::VK_FORMAT_R8G8B8A8_UINT => 41i32,
            VkFormat::VK_FORMAT_R8G8B8A8_SINT => 42i32,
            VkFormat::VK_FORMAT_R8G8B8A8_SRGB => 43i32,
            VkFormat::VK_FORMAT_B8G8R8A8_UNORM => 44i32,
            VkFormat::VK_FORMAT_B8G8R8A8_SNORM => 45i32,
            VkFormat::VK_FORMAT_B8G8R8A8_USCALED => 46i32,
            VkFormat::VK_FORMAT_B8G8R8A8_SSCALED => 47i32,
            VkFormat::VK_FORMAT_B8G8R8A8_UINT => 48i32,
            VkFormat::VK_FORMAT_B8G8R8A8_SINT => 49i32,
            VkFormat::VK_FORMAT_B8G8R8A8_SRGB => 50i32,
            VkFormat::VK_FORMAT_A8B8G8R8_UNORM_PACK32 => 51i32,
            VkFormat::VK_FORMAT_A8B8G8R8_SNORM_PACK32 => 52i32,
            VkFormat::VK_FORMAT_A8B8G8R8_USCALED_PACK32 => 53i32,
            VkFormat::VK_FORMAT_A8B8G8R8_SSCALED_PACK32 => 54i32,
            VkFormat::VK_FORMAT_A8B8G8R8_UINT_PACK32 => 55i32,
            VkFormat::VK_FORMAT_A8B8G8R8_SINT_PACK32 => 56i32,
            VkFormat::VK_FORMAT_A8B8G8R8_SRGB_PACK32 => 57i32,
            VkFormat::VK_FORMAT_A2R10G10B10_UNORM_PACK32 => 58i32,
            VkFormat::VK_FORMAT_A2R10G10B10_SNORM_PACK32 => 59i32,
            VkFormat::VK_FORMAT_A2R10G10B10_USCALED_PACK32 => 60i32,
            VkFormat::VK_FORMAT_A2R10G10B10_SSCALED_PACK32 => 61i32,
            VkFormat::VK_FORMAT_A2R10G10B10_UINT_PACK32 => 62i32,
            VkFormat::VK_FORMAT_A2R10G10B10_SINT_PACK32 => 63i32,
            VkFormat::VK_FORMAT_A2B10G10R10_UNORM_PACK32 => 64i32,
            VkFormat::VK_FORMAT_A2B10G10R10_SNORM_PACK32 => 65i32,
            VkFormat::VK_FORMAT_A2B10G10R10_USCALED_PACK32 => 66i32,
            VkFormat::VK_FORMAT_A2B10G10R10_SSCALED_PACK32 => 67i32,
            VkFormat::VK_FORMAT_A2B10G10R10_UINT_PACK32 => 68i32,
            VkFormat::VK_FORMAT_A2B10G10R10_SINT_PACK32 => 69i32,
            VkFormat::VK_FORMAT_R16_UNORM => 70i32,
            VkFormat::VK_FORMAT_R16_SNORM => 71i32,
            VkFormat::VK_FORMAT_R16_USCALED => 72i32,
            VkFormat::VK_FORMAT_R16_SSCALED => 73i32,
            VkFormat::VK_FORMAT_R16_UINT => 74i32,
            VkFormat::VK_FORMAT_R16_SINT => 75i32,
            VkFormat::VK_FORMAT_R16_SFLOAT => 76i32,
            VkFormat::VK_FORMAT_R16G16_UNORM => 77i32,
            VkFormat::VK_FORMAT_R16G16_SNORM => 78i32,
            VkFormat::VK_FORMAT_R16G16_USCALED => 79i32,
            VkFormat::VK_FORMAT_R16G16_SSCALED => 80i32,
            VkFormat::VK_FORMAT_R16G16_UINT => 81i32,
            VkFormat::VK_FORMAT_R16G16_SINT => 82i32,
            VkFormat::VK_FORMAT_R16G16_SFLOAT => 83i32,
            VkFormat::VK_FORMAT_R16G16B16_UNORM => 84i32,
            VkFormat::VK_FORMAT_R16G16B16_SNORM => 85i32,
            VkFormat::VK_FORMAT_R16G16B16_USCALED => 86i32,
            VkFormat::VK_FORMAT_R16G16B16_SSCALED => 87i32,
            VkFormat::VK_FORMAT_R16G16B16_UINT => 88i32,
            VkFormat::VK_FORMAT_R16G16B16_SINT => 89i32,
            VkFormat::VK_FORMAT_R16G16B16_SFLOAT => 90i32,
            VkFormat::VK_FORMAT_R16G16B16A16_UNORM => 91i32,
            VkFormat::VK_FORMAT_R16G16B16A16_SNORM => 92i32,
            VkFormat::VK_FORMAT_R16G16B16A16_USCALED => 93i32,
            VkFormat::VK_FORMAT_R16G16B16A16_SSCALED => 94i32,
            VkFormat::VK_FORMAT_R16G16B16A16_UINT => 95i32,
            VkFormat::VK_FORMAT_R16G16B16A16_SINT => 96i32,
            VkFormat::VK_FORMAT_R16G16B16A16_SFLOAT => 97i32,
            VkFormat::VK_FORMAT_R32_UINT => 98i32,
            VkFormat::VK_FORMAT_R32_SINT => 99i32,
            VkFormat::VK_FORMAT_R32_SFLOAT => 100i32,
            VkFormat::VK_FORMAT_R32G32_UINT => 101i32,
            VkFormat::VK_FORMAT_R32G32_SINT => 102i32,
            VkFormat::VK_FORMAT_R32G32_SFLOAT => 103i32,
            VkFormat::VK_FORMAT_R32G32B32_UINT => 104i32,
            VkFormat::VK_FORMAT_R32G32B32_SINT => 105i32,
            VkFormat::VK_FORMAT_R32G32B32_SFLOAT => 106i32,
            VkFormat::VK_FORMAT_R32G32B32A32_UINT => 107i32,
            VkFormat::VK_FORMAT_R32G32B32A32_SINT => 108i32,
            VkFormat::VK_FORMAT_R32G32B32A32_SFLOAT => 109i32,
            VkFormat::VK_FORMAT_R64_UINT => 110i32,
            VkFormat::VK_FORMAT_R64_SINT => 111i32,
            VkFormat::VK_FORMAT_R64_SFLOAT => 112i32,
            VkFormat::VK_FORMAT_R64G64_UINT => 113i32,
            VkFormat::VK_FORMAT_R64G64_SINT => 114i32,
            VkFormat::VK_FORMAT_R64G64_SFLOAT => 115i32,
            VkFormat::VK_FORMAT_R64G64B64_UINT => 116i32,
            VkFormat::VK_FORMAT_R64G64B64_SINT => 117i32,
            VkFormat::VK_FORMAT_R64G64B64_SFLOAT => 118i32,
            VkFormat::VK_FORMAT_R64G64B64A64_UINT => 119i32,
            VkFormat::VK_FORMAT_R64G64B64A64_SINT => 120i32,
            VkFormat::VK_FORMAT_R64G64B64A64_SFLOAT => 121i32,
            VkFormat::VK_FORMAT_B10G11R11_UFLOAT_PACK32 => 122i32,
            VkFormat::VK_FORMAT_E5B9G9R9_UFLOAT_PACK32 => 123i32,
            VkFormat::VK_FORMAT_D16_UNORM => 124i32,
            VkFormat::VK_FORMAT_X8_D24_UNORM_PACK32 => 125i32,
            VkFormat::VK_FORMAT_D32_SFLOAT => 126i32,
            VkFormat::VK_FORMAT_S8_UINT => 127i32,
            VkFormat::VK_FORMAT_D16_UNORM_S8_UINT => 128i32,
            VkFormat::VK_FORMAT_D24_UNORM_S8_UINT => 129i32,
            VkFormat::VK_FORMAT_D32_SFLOAT_S8_UINT => 130i32,
            VkFormat::VK_FORMAT_BC1_RGB_UNORM_BLOCK => 131i32,
            VkFormat::VK_FORMAT_BC1_RGB_SRGB_BLOCK => 132i32,
            VkFormat::VK_FORMAT_BC1_RGBA_UNORM_BLOCK => 133i32,
            VkFormat::VK_FORMAT_BC1_RGBA_SRGB_BLOCK => 134i32,
            VkFormat::VK_FORMAT_BC2_UNORM_BLOCK => 135i32,
            VkFormat::VK_FORMAT_BC2_SRGB_BLOCK => 136i32,
            VkFormat::VK_FORMAT_BC3_UNORM_BLOCK => 137i32,
            VkFormat::VK_FORMAT_BC3_SRGB_BLOCK => 138i32,
            VkFormat::VK_FORMAT_BC4_UNORM_BLOCK => 139i32,
            VkFormat::VK_FORMAT_BC4_SNORM_BLOCK => 140i32,
            VkFormat::VK_FORMAT_BC5_UNORM_BLOCK => 141i32,
            VkFormat::VK_FORMAT_BC5_SNORM_BLOCK => 142i32,
            VkFormat::VK_FORMAT_BC6H_UFLOAT_BLOCK => 143i32,
            VkFormat::VK_FORMAT_BC6H_SFLOAT_BLOCK => 144i32,
            VkFormat::VK_FORMAT_BC7_UNORM_BLOCK => 145i32,
            VkFormat::VK_FORMAT_BC7_SRGB_BLOCK => 146i32,
            VkFormat::VK_FORMAT_ETC2_R8G8B8_UNORM_BLOCK => 147i32,
            VkFormat::VK_FORMAT_ETC2_R8G8B8_SRGB_BLOCK => 148i32,
            VkFormat::VK_FORMAT_ETC2_R8G8B8A1_UNORM_BLOCK => 149i32,
            VkFormat::VK_FORMAT_ETC2_R8G8B8A1_SRGB_BLOCK => 150i32,
            VkFormat::VK_FORMAT_ETC2_R8G8B8A8_UNORM_BLOCK => 151i32,
            VkFormat::VK_FORMAT_ETC2_R8G8B8A8_SRGB_BLOCK => 152i32,
            VkFormat::VK_FORMAT_EAC_R11_UNORM_BLOCK => 153i32,
            VkFormat::VK_FORMAT_EAC_R11_SNORM_BLOCK => 154i32,
            VkFormat::VK_FORMAT_EAC_R11G11_UNORM_BLOCK => 155i32,
            VkFormat::VK_FORMAT_EAC_R11G11_SNORM_BLOCK => 156i32,
            VkFormat::VK_FORMAT_ASTC_4x4_UNORM_BLOCK => 157i32,
            VkFormat::VK_FORMAT_ASTC_4x4_SRGB_BLOCK => 158i32,
            VkFormat::VK_FORMAT_ASTC_5x4_UNORM_BLOCK => 159i32,
            VkFormat::VK_FORMAT_ASTC_5x4_SRGB_BLOCK => 160i32,
            VkFormat::VK_FORMAT_ASTC_5x5_UNORM_BLOCK => 161i32,
            VkFormat::VK_FORMAT_ASTC_5x5_SRGB_BLOCK => 162i32,
            VkFormat::VK_FORMAT_ASTC_6x5_UNORM_BLOCK => 163i32,
            VkFormat::VK_FORMAT_ASTC_6x5_SRGB_BLOCK => 164i32,
            VkFormat::VK_FORMAT_ASTC_6x6_UNORM_BLOCK => 165i32,
            VkFormat::VK_FORMAT_ASTC_6x6_SRGB_BLOCK => 166i32,
            VkFormat::VK_FORMAT_ASTC_8x5_UNORM_BLOCK => 167i32,
            VkFormat::VK_FORMAT_ASTC_8x5_SRGB_BLOCK => 168i32,
            VkFormat::VK_FORMAT_ASTC_8x6_UNORM_BLOCK => 169i32,
            VkFormat::VK_FORMAT_ASTC_8x6_SRGB_BLOCK => 170i32,
            VkFormat::VK_FORMAT_ASTC_8x8_UNORM_BLOCK => 171i32,
            VkFormat::VK_FORMAT_ASTC_8x8_SRGB_BLOCK => 172i32,
            VkFormat::VK_FORMAT_ASTC_10x5_UNORM_BLOCK => 173i32,
            VkFormat::VK_FORMAT_ASTC_10x5_SRGB_BLOCK => 174i32,
            VkFormat::VK_FORMAT_ASTC_10x6_UNORM_BLOCK => 175i32,
            VkFormat::VK_FORMAT_ASTC_10x6_SRGB_BLOCK => 176i32,
            VkFormat::VK_FORMAT_ASTC_10x8_UNORM_BLOCK => 177i32,
            VkFormat::VK_FORMAT_ASTC_10x8_SRGB_BLOCK => 178i32,
            VkFormat::VK_FORMAT_ASTC_10x10_UNORM_BLOCK => 179i32,
            VkFormat::VK_FORMAT_ASTC_10x10_SRGB_BLOCK => 180i32,
            VkFormat::VK_FORMAT_ASTC_12x10_UNORM_BLOCK => 181i32,
            VkFormat::VK_FORMAT_ASTC_12x10_SRGB_BLOCK => 182i32,
            VkFormat::VK_FORMAT_ASTC_12x12_UNORM_BLOCK => 183i32,
            VkFormat::VK_FORMAT_ASTC_12x12_SRGB_BLOCK => 184i32,
        }
    }

    /// The integer that the Vulkan API uses for this value.
    pub fn to_raw(self) -> (r: i32)
        ensures
            r == self.raw_value(),
    {
        match self {
            VkFormat::VK_FORMAT_UNDEFINED => 0i32,
            VkFormat::VK_FORMAT_R4G4_UNORM_PACK8 => 1i32,
            VkFormat::VK_FORMAT_R4G4B4A4_UNORM_PACK16 => 2i32,
            VkFormat::VK_FORMAT_B4G4R4A4_UNORM_PACK16 => 3i32,
            VkFormat::VK_FORMAT_R5G6B5_UNORM_PACK16 => 4i32,
            VkFormat::VK_FORMAT_B5G6R5_UNORM_PACK16 => 5i32,
            VkFormat::VK_FORMAT_R5G5B5A1_UNORM_PACK16 => 6i32,
            VkFormat::VK_FORMAT_B5G5R5A1_UNORM_PACK16 => 7i32,
            VkFormat::VK_FORMAT_A1R5G5B5_UNORM_PACK16 => 8i32,
            VkFormat::VK_FORMAT_R8_UNORM => 9i32,
            VkFormat::VK_FORMAT_R8_SNORM => 10i32,
            VkFormat::VK_FORMAT_R8_USCALED => 11i32,
            VkFormat::VK_FORMAT_R8_SSCALED => 12i32,
            VkFormat::VK_FORMAT_R8_UINT => 13i32,
            VkFormat::VK_FORMAT_R8_SINT => 14i32,
            VkFormat::VK_FORMAT_R8_SRGB => 15i32,
            VkFormat::VK_FORMAT_R8G8_UNORM => 16i32,
            VkFormat::VK_FORMAT_R8G8_SNORM => 17i32,
            VkFormat::VK_FORMAT_R8G8_USCALED => 18i32,
            VkFormat::VK_FORMAT_R8G8_SSCALED => 19i32,
            VkFormat::VK_FORMAT_R8G8_UINT => 20i32,
            VkFormat::VK_FORMAT_R8G8_SINT => 21i32,
            VkFormat::VK_FORMAT_R8G8_SRGB => 22i32,
            VkFormat::VK_FORMAT_R8G8B8_UNORM => 23i32,
            VkFormat::VK_FORMAT_R8G8B8_SNORM => 24i32,
            VkFormat::VK_FORMAT_R8G8B8_USCALED => 25i32,
            VkFormat::VK_FORMAT_R8G8B8_SSCALED => 26i32,
            VkFormat::VK_FORMAT_R8G8B8_UINT => 27i32,
            VkFormat::VK_FORMAT_R8G8B8_SINT => 28i32,
            VkFormat::VK_FORMAT_R8G8B8_SRGB => 29i32,
            VkFormat::VK_FORMAT_B8G8R8_UNORM => 30i32,
            VkFormat::VK_FORMAT_B8G8R8_SNORM => 31i32,
            VkFormat::VK_FORMAT_B8G8R8_USCALED => 32i32,
            VkFormat::VK_FORMAT_B8G8R8_SSCALED => 33i32,
            VkFormat::VK_FORMAT_B8G8R8_UINT => 34i32,
            VkFormat::VK_FORMAT_B8G8R8_SINT => 35i32,
            VkFormat::VK_FORMAT_B8G8R8_SRGB => 36i32,
            VkFormat::VK_FORMAT_R8G8B8A8_UNORM => 37i32,
            VkFormat::VK_FORMAT_R8G8B8A8_SNORM => 38i32,
            VkFormat::VK_FORMAT_R8G8B8A8_USCALED => 39i32,
            VkFormat::VK_FORMAT_R8G8B8A8_SSCALED => 40i32,
            VkFormat::VK_FORMAT_R8G8B8A8_UINT => 41i32,
            VkFormat::VK_FORMAT_R8G8B8A8_SINT => 42i32,
            VkFormat::VK_FORMAT_R8G8B8A8_SRGB => 43i32,
            VkFormat::VK_FORMAT_B8G8R8A8_UNORM => 44i32,
            VkFormat::VK_FORMAT_B8G8R8A8_SNORM => 45i32,
            VkFormat::VK_FORMAT_B8G8R8A8_USCALED => 46i32,
            VkFormat::VK_FORMAT_B8G8R8A8_SSCALED => 47i32,
            VkFormat::VK_FORMAT_B8G8R8A8_UINT => 48i32,
            VkFormat::VK_FORMAT_B8G8R8A8_SINT => 49i32,
            VkFormat::VK_FORMAT_B8G8R8A8_SRGB => 50i32,
            VkFormat::VK_FORMAT_A8B8G8R8_UNORM_PACK32 => 51i32,
            VkFormat::VK_FORMAT_A8B8G8R8_SNORM_PACK32 => 52i32,
            VkFormat::VK_FORMAT_A8B8G8R8_USCALED_PACK32 => 53i32,
            VkFormat::VK_FORMAT_A8B8G8R8_SSCALED_PACK32 => 54i32,
            VkFormat::VK_FORMAT_A8B8G8R8_UINT_PACK32 => 55i32,
            VkFormat::VK_FORMAT_A8B8G8R8_SINT_PACK32 => 56i32,
            VkFormat::VK_FORMAT_A8B8G8R8_SRGB_PACK32 => 57i32,
            VkFormat::VK_FORMAT_A2R10G10B10_UNORM_PACK32 => 58i32,
            VkFormat::VK_FORMAT_A2R10G10B10_SNORM_PACK32 => 59i32,
            VkFormat::VK_FORMAT_A2R10G10B10_USCALED_PACK32 => 60i32,
            VkFormat::VK_FORMAT_A2R10G10B10_SSCALED_PACK32 => 61i32,
            VkFormat::VK_FORMAT_A2R10G10B10_UINT_PACK32 => 62i32,
            VkFormat::VK_FORMAT_A2R10G10B10_SINT_PACK32 => 63i32,
            VkFormat::VK_FORMAT_A2B10G10R10_UNORM_PACK32 => 64i32,
            VkFormat::VK_FORMAT_A2B10G10R10_SNORM_PACK32 => 65i32,
            VkFormat::VK_FORMAT_A2B10G10R10_USCALED_PACK32 => 66i32,
            VkFormat::VK_FORMAT_A2B10G10R10_SSCALED_PACK32 => 67i32,
            VkFormat::VK_FORMAT_A2B10G10R10_UINT_PACK32 => 68i32,
            VkFormat::VK_FORMAT_A2B10G10R10_SINT_PACK32 => 69i32,
            VkFormat::VK_FORMAT_R16_UNORM => 70i32,
            VkFormat::VK_FORMAT_R16_SNORM => 71i32,
            VkFormat::VK_FORMAT_R16_USCALED => 72i32,
            VkFormat::VK_FORMAT_R16_SSCALED => 73i32,
            VkFormat::VK_FORMAT_R16_UINT => 74i32,
            VkFormat::VK_FORMAT_R16_SINT => 75i32,
            VkFormat::VK_FORMAT_R16_SFLOAT => 76i32,
            VkFormat::VK_FORMAT_R16G16_UNORM => 77i32,
            VkFormat::VK_FORMAT_R16G16_SNORM => 78i32,
            VkFormat::VK_FORMAT_R16G16_USCALED => 79i32,
            VkFormat::VK_FORMAT_R16G16_SSCALED => 80i32,
            VkFormat::VK_FORMAT_R16G16_UINT => 81i32,
            VkFormat::VK_FORMAT_R16G16_SINT => 82i32,
            VkFormat::VK_FORMAT_R16G16_SFLOAT => 83i32,
            VkFormat::VK_FORMAT_R16G16B16_UNORM => 84i32,
            VkFormat::VK_FORMAT_R16G16B16_SNORM => 85i32,
            VkFormat::VK_FORMAT_R16G16B16_USCALED => 86i32,
            VkFormat::VK_FORMAT_R16G16B16_SSCALED => 87i32,
            VkFormat::VK_FORMAT_R16G16B16_UINT => 88i32,
            VkFormat::VK_FORMAT_R16G16B16_SINT => 89i32,
            VkFormat::VK_FORMAT_R16G16B16_SFLOAT => 90i32,
            VkFormat::VK_FORMAT_R16G16B16A16_UNORM => 91i32,
            VkFormat::VK_FORMAT_R16G16B16A16_SNORM => 92i32,
            VkFormat::VK_FORMAT_R16G16B16A16_USCALED => 93i32,
            VkFormat::VK_FORMAT_R16G16B16A16_SSCALED => 94i32,
            VkFormat::VK_FORMAT_R16G16B16A16_UINT => 95i32,
            VkFormat::VK_FORMAT_R16G16B16A16_SINT => 96i32,
            VkFormat::VK_FORMAT_R16G16B16A16_SFLOAT => 97i32,
            VkFormat::VK_FORMAT_R32_UINT => 98i32,
            VkFormat::VK_FORMAT_R32_SINT => 99i32,
            VkFormat::VK_FORMAT_R32_SFLOAT => 100i32,
            VkFormat::VK_FORMAT_R32G32_UINT => 101i32,
            VkFormat::VK_FORMAT_R32G32_SINT => 102i32,
            VkFormat::VK_FORMAT_R32G32_SFLOAT => 103i32,
            VkFormat::VK_FORMAT_R32G32B32_UINT => 104i32,
            VkFormat::VK_FORMAT_R32G32B32_SINT => 105i32,
            VkFormat::VK_FORMAT_R32G32B32_SFLOAT => 106i32,
            VkFormat::VK_FORMAT_R32G32B32A32_UINT => 107i32,
            VkFormat::VK_FORMAT_R32G32B32A32_SINT => 108i32,
            VkFormat::VK_FORMAT_R32G32B32A32_SFLOAT => 109i32,
            VkFormat::VK_FORMAT_R64_UINT => 110i32,
            VkFormat::VK_FORMAT_R64_SINT => 111i32,
            VkFormat::VK_FORMAT_R64_SFLOAT => 112i32,
            VkFormat::VK_FORMAT_R64G64_UINT => 113i32,
            VkFormat::VK_FORMAT_R64G64_SINT => 114i32,
            VkFormat::VK_FORMAT_R64G64_SFLOAT => 115i32,
            VkFormat::VK_FORMAT_R64G64B64_UINT => 116i32,
            VkFormat::VK_FORMAT_R64G64B64_SINT => 117i32,
            VkFormat::VK_FORMAT_R64G64B64_SFLOAT => 118i32,
            VkFormat::VK_FORMAT_R64G64B64A64_UINT => 119i32,
            VkFormat::VK_FORMAT_R64G64B64A64_SINT => 120i32,
            VkFormat::VK_FORMAT_R64G64B64A64_SFLOAT => 121i32,
            VkFormat::VK_FORMAT_B10G11R11_UFLOAT_PACK32 => 122i32,
            VkFormat::VK_FORMAT_E5B9G9R9_UFLOAT_PACK32 => 123i32,
            VkFormat::VK_FORMAT_D16_UNORM => 124i32,
            VkFormat::VK_FORMAT_X8_D24_UNORM_PACK32 => 125i32,
            VkFormat::VK_FORMAT_D32_SFLOAT => 126i32,
            VkFormat::VK_FORMAT_S8_UINT => 127i32,
            VkFormat::VK_FORMAT_D16_UNORM_S8_UINT => 128i32,
            VkFormat::VK_FORMAT_D24_UNORM_S8_UINT => 129i32,
            VkFormat::VK_FORMAT_D32_SFLOAT_S8_UINT => 130i32,
            VkFormat::VK_FORMAT_BC1_RGB_UNORM_BLOCK => 131i32,
            VkFormat::VK_FORMAT_BC1_RGB_SRGB_BLOCK => 132i32,
            VkFormat::VK_FORMAT_BC1_RGBA_UNORM_BLOCK => 133i32,
            VkFormat::VK_FORMAT_BC1_RGBA_SRGB_BLOCK => 134i32,
            VkFormat::VK_FORMAT_BC2_UNORM_BLOCK => 135i32,
            VkFormat::VK_FORMAT_BC2_SRGB_BLOCK => 136i32,
            VkFormat::VK_FORMAT_BC3_UNORM_BLOCK => 137i32,
            VkFormat::VK_FORMAT_BC3_SRGB_BLOCK => 138i32,
            VkFormat::VK_FORMAT_BC4_UNORM_BLOCK => 139i32,
            VkFormat::VK_FORMAT_BC4_SNORM_BLOCK => 140i32,
            VkFormat::VK_FORMAT_BC5_UNORM_BLOCK => 141i32,
            VkFormat::VK_FORMAT_BC5_SNORM_BLOCK => 142i32,
            VkFormat::VK_FORMAT_BC6H_UFLOAT_BLOCK => 143i32,
            VkFormat::VK_FORMAT_BC6H_SFLOAT_BLOCK => 144i32,
            VkFormat::VK_FORMAT_BC7_UNORM_BLOCK => 145i32,
            VkFormat::VK_FORMAT_BC7_SRGB_BLOCK => 146i32,
            VkFormat::VK_FORMAT_ETC2_R8G8B8_UNORM_BLOCK => 147i32,
            VkFormat::VK_FORMAT_ETC2_R8G8B8_SRGB_BLOCK => 148i32,
            VkFormat::VK_FORMAT_ETC2_R8G8B8A1_UNORM_BLOCK => 149i32,
            VkFormat::VK_FORMAT_ETC2_R8G8B8A1_SRGB_BLOCK => 150i32,
            VkFormat::VK_FORMAT_ETC2_R8G8B8A8_UNORM_BLOCK => 151i32,
            VkFormat::VK_FORMAT_ETC2_R8G8B8A8_SRGB_BLOCK => 152i32,
            VkFormat::VK_FORMAT_EAC_R11_UNORM_BLOCK => 153i32,
            VkFormat::VK_FORMAT_EAC_R11_SNORM_BLOCK => 154i32,
            VkFormat::VK_FORMAT_EAC_R11G11_UNORM_BLOCK => 155i32,
            VkFormat::VK_FORMAT_EAC_R11G11_SNORM_BLOCK => 156i32,
            VkFormat::VK_FORMAT_ASTC_4x4_UNORM_BLOCK => 157i32,
            VkFormat::VK_FORMAT_ASTC_4x4_SRGB_BLOCK => 158i32,
            VkFormat::VK_FORMAT_ASTC_5x4_UNORM_BLOCK => 159i32,
            VkFormat::VK_FORMAT_ASTC_5x4_SRGB_BLOCK => 160i32,
            VkFormat::VK_FORMAT_ASTC_5x5_UNORM_BLOCK => 161i32,
            VkFormat::VK_FORMAT_ASTC_5x5_SRGB_BLOCK => 162i32,
            VkFormat::VK_FORMAT_ASTC_6x5_UNORM_BLOCK => 163i32,
            VkFormat::VK_FORMAT_ASTC_6x5_SRGB_BLOCK => 164i32,
            VkFormat::VK_FORMAT_ASTC_6x6_UNORM_BLOCK => 165i32,
            VkFormat::VK_FORMAT_ASTC_6x6_SRGB_BLOCK => 166i32,
            VkFormat::VK_FORMAT_ASTC_8x5_UNORM_BLOCK => 167i32,
            VkFormat::VK_FORMAT_ASTC_8x5_SRGB_BLOCK => 168i32,
            VkFormat::VK_FORMAT_ASTC_8x6_UNORM_BLOCK => 169i32,
            VkFormat::VK_FORMAT_ASTC_8x6_SRGB_BLOCK => 170i32,
            VkFormat::VK_FORMAT_ASTC_8x8_UNORM_BLOCK => 171i32,
            VkFormat::VK_FORMAT_ASTC_8x8_SRGB_BLOCK => 172i32,
            VkFormat::VK_FORMAT_ASTC_10x5_UNORM_BLOCK => 173i32,
            VkFormat::VK_FORMAT_ASTC_10x5_SRGB_BLOCK => 174i32,
            VkFormat::VK_FORMAT_ASTC_10x6_UNORM_BLOCK => 175i32,
            VkFormat::VK_FORMAT_ASTC_10x6_SRGB_BLOCK => 176i32,
            VkFormat::VK_FORMAT_ASTC_10x8_UNORM_BLOCK => 177i32,
            VkFormat::VK_FORMAT_ASTC_10x8_SRGB_BLOCK => 178i32,
            VkFormat::VK_FORMAT_ASTC_10x10_UNORM_BLOCK => 179i32,
            VkFormat::VK_FORMAT_ASTC_10x10_SRGB_BLOCK => 180i32,
            VkFormat::VK_FORMAT_ASTC_12x10_UNORM_BLOCK => 181i32,
            VkFormat::VK_FORMAT_ASTC_12x10_SRGB_BLOCK => 182i32,
            VkFormat::VK_FORMAT_ASTC_12x12_UNORM_BLOCK => 183i32,
            VkFormat::VK_FORMAT_ASTC_12x12_SRGB_BLOCK => 184i32,
        }
    }
}

#[allow(non_camel_case_types)]
#[derive(Copy, Clone, PartialEq, Eq, Structural, Debug)]
pub enum VkFormatFeatureFlagBits {
    VK_FORMAT_FEATURE_SAMPLED_IMAGE_BIT,
    VK_FORMAT_FEATURE_STORAGE_IMAGE_BIT,
    VK_FORMAT_FEATURE_STORAGE_IMAGE_ATOMIC_BIT,
    VK_FORMAT_FEATURE_UNIFORM_TEXEL_BUFFER_BIT,
    VK_FORMAT_FEATURE_STORAGE_TEXEL_BUFFER_BIT,
    VK_FORMAT_FEATURE_STORAGE_TEXEL_BUFFER_ATOMIC_BIT,
    VK_FORMAT_FEATURE_VERTEX_BUFFER_BIT,
    VK_FORMAT_FEATURE_COLOR_ATTACHMENT_BIT,
    VK_FORMAT_FEATURE_COLOR_ATTACHMENT_BLEND_BIT,
    VK_FORMAT_FEATURE_DEPTH_STENCIL_ATTACHMENT_BIT,
    VK_FORMAT_FEATURE_BLIT_SRC_BIT,
    VK_FORMAT_FEATURE_BLIT_DST_BIT,
    VK_FORMAT_FEATURE_SAMPLED_IMAGE_FILTER_LINEAR_BIT,
}

impl VkFormatFeatureFlagBits {
    /// The integer that the Vulkan API uses for this value.
    pub open spec fn raw_value(self) -> i32 {
        match self {
            VkFormatFeatureFlagBits::VK_FORMAT_FEATURE_SAMPLED_IMAGE_BIT => 1i32,
            VkFormatFeatureFlagBits::VK_FORMAT_FEATURE_STORAGE_IMAGE_BIT => 2i32,
            VkFormatFeatureFlagBits::VK_FORMAT_FEATURE_STORAGE_IMAGE_ATOMIC_BIT => 4i32,
            VkFormatFeatureFlagBits::VK_FORMAT_FEATURE_UNIFORM_TEXEL_BUFFER_BIT => 8i32,
            VkFormatFeatureFlagBits::VK_FORMAT_FEATURE_STORAGE_TEXEL_BUFFER_BIT => 16i32,
            VkFormatFeatureFlagBits::VK_FORMAT_FEATURE_STORAGE_TEXEL_BUFFER_ATOMIC_BIT => 32i32,
            VkFormatFeatureFlagBits::VK_FORMAT_FEATURE_VERTEX_BUFFER_BIT => 64i32,
            VkFormatFeatureFlagBits::VK_FORMAT_FEATURE_COLOR_ATTACHMENT_BIT => 128i32,
            VkFormatFeatureFlagBits::VK_FORMAT_FEATURE_COLOR_ATTACHMENT_BLEND_BIT => 256i32,
            VkFormatFeatureFlagBits::VK_FORMAT_FEATURE_DEPTH_STENCIL_ATTACHMENT_BIT => 512i32,
            VkFormatFeatureFlagBits::VK_FORMAT_FEATURE_BLIT_SRC_BIT => 1024i32,
            VkFormatFeatureFlagBits::VK_FORMAT_FEATURE_BLIT_DST_BIT => 2048i32,
            VkFormatFeatureFlagBits::VK_FORMAT_FEATURE_SAMPLED_IMAGE_FILTER_LINEAR_BIT => 4096i32,
        }
    }

    /// The integer that the Vulkan API uses for this value.
    pub fn to_raw(self) -> (r: i32)
        ensures
            r == self.raw_value(),
    {
        match self {
            VkFormatFeatureFlagBits::VK_FORMAT_FEATURE_SAMPLED_IMAGE_BIT => 1i32,
            VkFormatFeatureFlagBits::VK_FORMAT_FEATURE_STORAGE_IMAGE_BIT => 2i32,
            VkFormatFeatureFlagBits::VK_FORMAT_FEATURE_STORAGE_IMAGE_ATOMIC_BIT => 4i32,
            VkFormatFeatureFlagBits::VK_FORMAT_FEATURE_UNIFORM_TEXEL_BUFFER_BIT => 8i32,
            VkFormatFeatureFlagBits::VK_FORMAT_FEATURE_STORAGE_TEXEL_BUFFER_BIT => 16i32,
            VkFormatFeatureFlagBits::VK_FORMAT_FEATURE_STORAGE_TEXEL_BUFFER_ATOMIC_BIT => 32i32,
            VkFormatFeatureFlagBits::VK_FORMAT_FEATURE_VERTEX_BUFFER_BIT => 64i32,
            VkFormatFeatureFlagBits::VK_FORMAT_FEATURE_COLOR_ATTACHMENT_BIT => 128i32,
            VkFormatFeatureFlagBits::VK_FORMAT_FEATURE_COLOR_ATTACHMENT_BLEND_BIT => 256i32,
            VkFormatFeatureFlagBits::VK_FORMAT_FEATURE_DEPTH_STENCIL_ATTACHMENT_BIT => 512i32,
            VkFormatFeatureFlagBits::VK_FORMAT_FEATURE_BLIT_SRC_BIT => 1024i32,
            VkFormatFeatureFlagBits::VK_FORMAT_FEATURE_BLIT_DST_BIT => 2048i32,
            VkFormatFeatureFlagBits::VK_FORMAT_FEATURE_SAMPLED_IMAGE_FILTER_LINEAR_BIT => 4096i32,
        }
    }
}

#[allow(non_camel_case_types)]
#[derive(Copy, Clone, PartialEq, Eq, Structural, Debug)]
pub enum VkFrontFace {
    VK_FRONT_FACE_COUNTER_CLOCKWISE,
    VK_FRONT_FACE_CLOCKWISE,
}

impl VkFrontFace {
    /// The integer that the Vulkan API uses for this value.
    pub open spec fn raw_value(self) -> i32 {
        match self {
            VkFrontFace::VK_FRONT_FACE_COUNTER_CLOCKWISE => 0i32,
            VkFrontFace::VK_FRONT_FACE_CLOCKWISE => 1i32,
        }
    }

    /// The integer that the Vulkan API uses for this value.
    pub fn to_raw(self) -> (r: i32)
        ensures
            r == self.raw_value(),
    {
        match self {
            VkFrontFace::VK_FRONT_FACE_COUNTER_CLOCKWISE => 0i32,
            VkFrontFace::VK_FRONT_FACE_CLOCKWISE => 1i32,
        }
    }
}

#[allow(non_camel_case_types)]
#[derive(Copy, Clone, PartialEq, Eq, Structural, Debug)]
pub enum VkImageAspectFlagBits {
    VK_IMAGE_ASPECT_COLOR_BIT,
    VK_IMAGE_ASPECT_DEPTH_BIT,
    VK_IMAGE_ASPECT_STENCIL_BIT,
    VK_IMAGE_ASPECT_METADATA_BIT,
}

impl VkImageAspectFlagBits {
    /// The integer that the Vulkan API uses for this value.
    pub open spec fn raw_value(self) -> i32 {
        match self {
            VkImageAspectFlagBits::VK_IMAGE_ASPECT_COLOR_BIT => 1i32,
            VkImageAspectFlagBits::VK_IMAGE_ASPECT_DEPTH_BIT => 2i32,
            VkImageAspectFlagBits::VK_IMAGE_ASPECT_STENCIL_BIT => 4i32,
            VkImageAspectFlagBits::VK_IMAGE_ASPECT_METADATA_BIT => 8i32,
        }
    }

    /// The integer that the Vulkan API uses for this value.
    pub fn to_raw(self) -> (r: i32)
        ensures
            r == self.raw_value(),
    {
        match self {
            VkImageAspectFlagBits::VK_IMAGE_ASPECT_COLOR_BIT => 1i32,
            VkImageAspectFlagBits::VK_IMAGE_ASPECT_DEPTH_BIT => 2i32,
            VkImageAspectFlagBits::VK_IMAGE_ASPECT_STENCIL_BIT => 4i32,
            VkImageAspectFlagBits::VK_IMAGE_ASPECT_METADATA_BIT => 8i32,
        }
    }
}

#[allow(non_camel_case_types)]
#[derive(Copy, Clone, PartialEq, Eq, Structural, Debug)]
pub enum VkImageCreateFlagBits {
    VK_IMAGE_CREATE_SPARSE_BINDING_BIT,
    VK_IMAGE_CREATE_SPARSE_RESIDENCY_BIT,
    VK_IMAGE_CREATE_SPARSE_ALIASED_BIT,
    VK_IMAGE_CREATE_MUTABLE_FORMAT_BIT,
    VK_IMAGE_CREATE_CUBE_COMPATIBLE_BIT,
}

impl VkImageCreateFlagBits {
    /// The integer that the Vulkan API uses for this value.
    pub open spec fn raw_value(self) -> i32 {
        match self {
            VkImageCreateFlagBits::VK_IMAGE_CREATE_SPARSE_BINDING_BIT => 1i32,
            VkImageCreateFlagBits::VK_IMAGE_CREATE_SPARSE_RESIDENCY_BIT => 2i32,
            VkImageCreateFlagBits::VK_IMAGE_CREATE_SPARSE_ALIASED_BIT => 4i32,
            VkImageCreateFlagBits::VK_IMAGE_CREATE_MUTABLE_FORMAT_BIT => 8i32,
            VkImageCreateFlagBits::VK_IMAGE_CREATE_CUBE_COMPATIBLE_BIT => 16i32,
        }
    }

    /// The integer that the Vulkan API uses for this value.
    pub fn to_raw(self) -> (r: i32)
        ensures
            r == self.raw_value(),
    {
        match self {
            VkImageCreateFlagBits::VK_IMAGE_CREATE_SPARSE_BINDING_BIT => 1i32,
            VkImageCreateFlagBits::VK_IMAGE_CREATE_SPARSE_RESIDENCY_BIT => 2i32,
            VkImageCreateFlagBits::VK_IMAGE_CREATE_SPARSE_ALIASED_BIT => 4i32,
            VkImageCreateFlagBits::VK_IMAGE_CREATE_MUTABLE_FORMAT_BIT => 8i32,
            VkImageCreateFlagBits::VK_IMAGE_CREATE_CUBE_COMPATIBLE_BIT => 16i32,
        }
    }
}

#[allow(non_camel_case_types)]
#[derive(Copy, Clone, PartialEq, Eq, Structural, Debug)]
pub enum VkImageLayout {
    VK_IMAGE_LAYOUT_UNDEFINED,
    VK_IMAGE_LAYOUT_GENERAL,
    VK_IMAGE_LAYOUT_COLOR_ATTACHMENT_OPTIMAL,
    VK_IMAGE_LAYOUT_DEPTH_STENCIL_ATTACHMENT_OPTIMAL,
    VK_IMAGE_LAYOUT_DEPTH_STENCIL_READ_ONLY_OPTIMAL,
    VK_IMAGE_LAYOUT_SHADER_READ_ONLY_OPTIMAL,
    VK_IMAGE_LAYOUT_TRANSFER_SRC_OPTIMAL,
    VK_IMAGE_LAYOUT_TRANSFER_DST_OPTIMAL,
    VK_IMAGE_LAYOUT_PREINITIALIZED,
}

impl VkImageLayout {
    /// The integer that the Vulkan API uses for this value.
    pub open spec fn raw_value(self) -> i32 {
        match self {
            VkImageLayout::VK_IMAGE_LAYOUT_UNDEFINED => 0i32,
            VkImageLayout::VK_IMAGE_LAYOUT_GENERAL => 1i32,
            VkImageLayout::VK_IMAGE_LAYOUT_COLOR_ATTACHMENT_OPTIMAL => 2i32,
            VkImageLayout::VK_IMAGE_LAYOUT_DEPTH_STENCIL_ATTACHMENT_OPTIMAL => 3i32,
            VkImageLayout::VK_IMAGE_LAYOUT_DEPTH_STENCIL_READ_ONLY_OPTIMAL => 4i32,
            VkImageLayout::VK_IMAGE_LAYOUT_SHADER_READ_ONLY_OPTIMAL => 5i32,
            VkImageLayout::VK_IMAGE_LAYOUT_TRANSFER_SRC_OPTIMAL => 6i32,
            VkImageLayout::VK_IMAGE_LAYOUT_TRANSFER_DST_OPTIMAL => 7i32,
            VkImageLayout::VK_IMAGE_LAYOUT_PREINITIALIZED => 8i32,
        }
    }

    /// The integer that the Vulkan API uses for this value.
    pub fn to_raw(self) -> (r: i32)
        ensures
            r == self.raw_value(),
    {
        match self {
            VkImageLayout::VK_IMAGE_LAYOUT_UNDEFINED => 0i32,
            VkImageLayout::VK_IMAGE_LAYOUT_GENERAL => 1i32,
            VkImageLayout::VK_IMAGE_LAYOUT_COLOR_ATTACHMENT_OPTIMAL => 2i32,
            VkImageLayout::VK_IMAGE_LAYOUT_DEPTH_STENCIL_ATTACHMENT_OPTIMAL => 3i32,
            VkImageLayout::VK_IMAGE_LAYOUT_DEPTH_STENCIL_READ_ONLY_OPTIMAL => 4i32,
            VkImageLayout::VK_IMAGE_LAYOUT_SHADER_READ_ONLY_OPTIMAL => 5i32,
            VkImageLayout::VK_IMAGE_LAYOUT_TRANSFER_SRC_OPTIMAL => 6i32,
            VkImageLayout::VK_IMAGE_LAYOUT_TRANSFER_DST_OPTIMAL => 7i32,
            VkImageLayout::VK_IMAGE_LAYOUT_PREINITIALIZED => 8i32,
        }
    }
}

#[allow(non_camel_case_types)]
#[derive(Copy, Clone, PartialEq, Eq, Structural, Debug)]
pub enum VkImageTiling {
    VK_IMAGE_TILING_OPTIMAL,
    VK_IMAGE_TILING_LINEAR,
}

impl VkImageTiling {
    /// The integer that the Vulkan API uses for this value.
    pub open spec fn raw_value(self) -> i32 {
        match self {
            VkImageTiling::VK_IMAGE_TILING_OPTIMAL => 0i32,
            VkImageTiling::VK_IMAGE_TILING_LINEAR => 1i32,
        }
    }

    /// The integer that the Vulkan API uses for this value.
    pub fn to_raw(self) -> (r: i32)
        ensures
            r == self.raw_value(),
    {
        match self {
            VkImageTiling::VK_IMAGE_TILING_OPTIMAL => 0i32,
            VkImageTiling::VK_IMAGE_TILING_LINEAR => 1i32,
        }
    }
}

#[allow(non_camel_case_types)]
#[derive(Copy, Clone, PartialEq, Eq, Structural, Debug)]
pub enum VkImageType {
    VK_IMAGE_TYPE_1D,
    VK_IMAGE_TYPE_2D,
    VK_IMAGE_TYPE_3D,
}

impl VkImageType {
    /// The integer that the Vulkan API uses for this value.
    pub open spec fn raw_value(self) -> i32 {
        match self {
            VkImageType::VK_IMAGE_TYPE_1D => 0i32,
            VkImageType::VK_IMAGE_TYPE_2D => 1i32,
            VkImageType::VK_IMAGE_TYPE_3D => 2i32,
        }
    }

    /// The integer that the Vulkan API uses for this value.
    pub fn to_raw(self) -> (r: i32)
        ensures
            r == self.raw_value(),
    {
        match self {
            VkImageType::VK_IMAGE_TYPE_1D => 0i32,
            VkImageType::VK_IMAGE_TYPE_2D => 1i32,
            VkImageType::VK_IMAGE_TYPE_3D => 2i32,
        }
    }
}

#[allow(non_camel_case_types)]
#[derive(Copy, Clone, PartialEq, Eq, Structural, Debug)]
pub enum VkImageUsageFlagBits {
    VK_IMAGE_USAGE_TRANSFER_SRC_BIT,
    VK_IMAGE_USAGE_TRANSFER_DST_BIT,
    VK_IMAGE_USAGE_SAMPLED_BIT,
    VK_IMAGE_USAGE_STORAGE_BIT,
    VK_IMAGE_USAGE_COLOR_ATTACHMENT_BIT,
    VK_IMAGE_USAGE_DEPTH_STENCIL_ATTACHMENT_BIT,
    VK_IMAGE_USAGE_TRANSIENT_ATTACHMENT_BIT,
    VK_IMAGE_USAGE_INPUT_ATTACHMENT_BIT,
}

impl VkImageUsageFlagBits {
    /// The integer that the Vulkan API uses for this value.
    pub open spec fn raw_value(self) -> i32 {
        match self {
            VkImageUsageFlagBits::VK_IMAGE_USAGE_TRANSFER_SRC_BIT => 1i32,
            VkImageUsageFlagBits::VK_IMAGE_USAGE_TRANSFER_DST_BIT => 2i32,
            VkImageUsageFlagBits::VK_IMAGE_USAGE_SAMPLED_BIT => 4i32,
            VkImageUsageFlagBits::VK_IMAGE_USAGE_STORAGE_BIT => 8i32,
            VkImageUsageFlagBits::VK_IMAGE_USAGE_COLOR_ATTACHMENT_BIT => 16i32,
            VkImageUsageFlagBits::VK_IMAGE_USAGE_DEPTH_STENCIL_ATTACHMENT_BIT => 32i32,
            VkImageUsageFlagBits::VK_IMAGE_USAGE_TRANSIENT_ATTACHMENT_BIT => 64i32,
            VkImageUsageFlagBits::VK_IMAGE_USAGE_INPUT_ATTACHMENT_BIT => 128i32,
        }
    }

    /// The integer that the Vulkan API uses for this value.
    pub fn to_raw(self) -> (r: i32)
        ensures
            r == self.raw_value(),
    {
        match self {
            VkImageUsageFlagBits::VK_IMAGE_USAGE_TRANSFER_SRC_BIT => 1i32,
            VkImageUsageFlagBits::VK_IMAGE_USAGE_TRANSFER_DST_BIT => 2i32,
            VkImageUsageFlagBits::VK_IMAGE_USAGE_SAMPLED_BIT => 4i32,
            VkImageUsageFlagBits::VK_IMAGE_USAGE_STORAGE_BIT => 8i32,
            VkImageUsageFlagBits::VK_IMAGE_USAGE_COLOR_ATTACHMENT_BIT => 16i32,
            VkImageUsageFlagBits::VK_IMAGE_USAGE_DEPTH_STENCIL_ATTACHMENT_BIT => 32i32,
            VkImageUsageFlagBits::VK_IMAGE_USAGE_TRANSIENT_ATTACHMENT_BIT => 64i32,
            VkImageUsageFlagBits::VK_IMAGE_USAGE_INPUT_ATTACHMENT_BIT => 128i32,
        }
    }
}

#[allow(non_camel_case_types)]
#[derive(Copy, Clone, PartialEq, Eq, Structural, Debug)]
pub enum VkImageViewType {
    VK_IMAGE_VIEW_TYPE_1D,
    VK_IMAGE_VIEW_TYPE_2D,
    VK_IMAGE_VIEW_TYPE_3D,
    VK_IMAGE_VIEW_TYPE_CUBE,
    VK_IMAGE_VIEW_TYPE_1D_ARRAY,
    VK_IMAGE_VIEW_TYPE_2D_ARRAY,
    VK_IMAGE_VIEW_TYPE_CUBE_ARRAY,
}

impl VkImageViewType {
    /// The integer that the Vulkan API uses for this value.
    pub open spec fn raw_value(self) -> i32 {
        match self {
            VkImageViewType::VK_IMAGE_VIEW_TYPE_1D => 0i32,
            VkImageViewType::VK_IMAGE_VIEW_TYPE_2D => 1i32,
            VkImageViewType::VK_IMAGE_VIEW_TYPE_3D => 2i32,
            VkImageViewType::VK_IMAGE_VIEW_TYPE_CUBE => 3i32,
            VkImageViewType::VK_IMAGE_VIEW_TYPE_1D_ARRAY => 4i32,
            VkImageViewType::VK_IMAGE_VIEW_TYPE_2D_ARRAY => 5i32,
            VkImageViewType::VK_IMAGE_VIEW_TYPE_CUBE_ARRAY => 6i32,
        }
    }

    /// The integer that the Vulkan API uses for this value.
    pub fn to_raw(self) -> (r: i32)
        ensures
            r == self.raw_value(),
    {
        match self {
            VkImageViewType::VK_IMAGE_VIEW_TYPE_1D => 0i32,
            VkImageViewType::VK_IMAGE_VIEW_TYPE_2D => 1i32,
            VkImageViewType::VK_IMAGE_VIEW_TYPE_3D => 2i32,
            VkImageViewType::VK_IMAGE_VIEW_TYPE_CUBE => 3i32,
            VkImageViewType::VK_IMAGE_VIEW_TYPE_1D_ARRAY => 4i32,
            VkImageViewType::VK_IMAGE_VIEW_TYPE_2D_ARRAY => 5i32,
            VkImageViewType::VK_IMAGE_VIEW_TYPE_CUBE_ARRAY => 6i32,
        }
    }
}

#[allow(non_camel_case_types)]
#[derive(Copy, Clone, PartialEq, Eq, Structural, Debug)]
pub enum VkSharingMode {
    VK_SHARING_MODE_EXCLUSIVE,
    VK_SHARING_MODE_CONCURRENT,
}

impl VkSharingMode {
    /// The integer that the Vulkan API uses for this value.
    pub open spec fn raw_value(self) -> i32 {
        match self {
            VkSharingMode::VK_SHARING_MODE_EXCLUSIVE => 0i32,
            VkSharingMode::VK_SHARING_MODE_CONCURRENT => 1i32,
        }
    }

    /// The integer that the Vulkan API uses for this value.
    pub fn to_raw(self) -> (r: i32)
        ensures
            r == self.raw_value(),
    {
        match self {
            VkSharingMode::VK_SHARING_MODE_EXCLUSIVE => 0i32,
            VkSharingMode::VK_SHARING_MODE_CONCURRENT => 1i32,
        }
    }
}

#[allow(non_camel_case_types)]
#[derive(Copy, Clone, PartialEq, Eq, Structural, Debug)]
pub enum VkIndexType {
    VK_INDEX_TYPE_UINT16,
    VK_INDEX_TYPE_UINT32,
}

impl VkIndexType {
    /// The integer that the Vulkan API uses for this value.
    pub open spec fn raw_value(self) -> i32 {
        match self {
            VkIndexType::VK_INDEX_TYPE_UINT16 => 0i32,
            VkIndexType::VK_INDEX_TYPE_UINT32 => 1i32,
        }
    }

    /// The integer that the Vulkan API uses for this value.
    pub fn to_raw(self) -> (r: i32)
        ensures
            r == self.raw_value(),
    {
        match self {
            VkIndexType::VK_INDEX_TYPE_UINT16 => 0i32,
            VkIndexType::VK_INDEX_TYPE_UINT32 => 1i32,
        }
    }
}

#[allow(non_camel_case_types)]
#[derive(Copy, Clone, PartialEq, Eq, Structural, Debug)]
pub enum VkLogicOp {
    VK_LOGIC_OP_CLEAR,
    VK_LOGIC_OP_AND,
    VK_LOGIC_OP_AND_REVERSE,
    VK_LOGIC_OP_COPY,
    VK_LOGIC_OP_AND_INVERTED,
    VK_LOGIC_OP_NO_OP,
    VK_LOGIC_OP_XOR,
    VK_LOGIC_OP_OR,
    VK_LOGIC_OP_NOR,
    VK_LOGIC_OP_EQUIVALENT,
    VK_LOGIC_OP_INVERT,
    VK_LOGIC_OP_OR_REVERSE,
    VK_LOGIC_OP_COPY_INVERTED,
    VK_LOGIC_OP_OR_INVERTED,
    VK_LOGIC_OP_NAND,
    VK_LOGIC_OP_SET,
}

impl VkLogicOp {
    /// The integer that the Vulkan API uses for this value.
    pub open spec fn raw_value(self) -> i32 {
        match self {
            VkLogicOp::VK_LOGIC_OP_CLEAR => 0i32,
            VkLogicOp::VK_LOGIC_OP_AND => 1i32,
            VkLogicOp::VK_LOGIC_OP_AND_REVERSE => 2i32,
            VkLogicOp::VK_LOGIC_OP_COPY => 3i32,
            VkLogicOp::VK_LOGIC_OP_AND_INVERTED => 4i32,
            VkLogicOp::VK_LOGIC_OP_NO_OP => 5i32,
            VkLogicOp::VK_LOGIC_OP_XOR => 6i32,
            VkLogicOp::VK_LOGIC_OP_OR => 7i32,
            VkLogicOp::VK_LOGIC_OP_NOR => 8i32,
            VkLogicOp::VK_LOGIC_OP_EQUIVALENT => 9i32,
            VkLogicOp::VK_LOGIC_OP_INVERT => 10i32,
            VkLogicOp::VK_LOGIC_OP_OR_REVERSE => 11i32,
            VkLogicOp::VK_LOGIC_OP_COPY_INVERTED => 12i32,
            VkLogicOp::VK_LOGIC_OP_OR_INVERTED => 13i32,
            VkLogicOp::VK_LOGIC_OP_NAND => 14i32,
            VkLogicOp::VK_LOGIC_OP_SET => 15i32,
        }
    }

    /// The integer that the Vulkan API uses for this value.
    pub fn to_raw(self) -> (r: i32)
        ensures
            r == self.raw_value(),
    {
        match self {
            VkLogicOp::VK_LOGIC_OP_CLEAR => 0i32,
            VkLogicOp::VK_LOGIC_OP_AND => 1i32,
            VkLogicOp::VK_LOGIC_OP_AND_REVERSE => 2i32,
            VkLogicOp::VK_LOGIC_OP_COPY => 3i32,
            VkLogicOp::VK_LOGIC_OP_AND_INVERTED => 4i32,
            VkLogicOp::VK_LOGIC_OP_NO_OP => 5i32,
            VkLogicOp::VK_LOGIC_OP_XOR => 6i32,
            VkLogicOp::VK_LOGIC_OP_OR => 7i32,
            VkLogicOp::VK_LOGIC_OP_NOR => 8i32,
            VkLogicOp::VK_LOGIC_OP_EQUIVALENT => 9i32,
            VkLogicOp::VK_LOGIC_OP_INVERT => 10i32,
            VkLogicOp::VK_LOGIC_OP_OR_REVERSE => 11i32,
            VkLogicOp::VK_LOGIC_OP_COPY_INVERTED => 12i32,
            VkLogicOp::VK_LOGIC_OP_OR_INVERTED => 13i32,
            VkLogicOp::VK_LOGIC_OP_NAND => 14i32,
            VkLogicOp::VK_LOGIC_OP_SET => 15i32,
        }
    }
}

#[allow(non_camel_case_types)]
#[derive(Copy, Clone, PartialEq, Eq, Structural, Debug)]
pub enum VkMemoryHeapFlagBits {
    VK_MEMORY_HEAP_DEVICE_LOCAL_BIT,
}

impl VkMemoryHeapFlagBits {
    /// The integer that the Vulkan API uses for this value.
    pub open spec fn raw_value(self) -> i32 {
        match self {
            VkMemoryHeapFlagBits::VK_MEMORY_HEAP_DEVICE_LOCAL_BIT => 1i32,
        }
    }

    /// The integer that the Vulkan API uses for this value.
    pub fn to_raw(self) -> (r: i32)
        ensures
            r == self.raw_value(),
    {
        match self {
            VkMemoryHeapFlagBits::VK_MEMORY_HEAP_DEVICE_LOCAL_BIT => 1i32,
        }
    }
}

#[allow(non_camel_case_types)]
#[derive(Copy, Clone, PartialEq, Eq, Structural, Debug)]
pub enum VkAccessFlagBits {
    VK_ACCESS_INDIRECT_COMMAND_READ_BIT,
    VK_ACCESS_INDEX_READ_BIT,
    VK_ACCESS_VERTEX_ATTRIBUTE_READ_BIT,
    VK_ACCESS_UNIFORM_READ_BIT,
    VK_ACCESS_INPUT_ATTACHMENT_READ_BIT,
    VK_ACCESS_SHADER_READ_BIT,
    VK_ACCESS_SHADER_WRITE_BIT,
    VK_ACCESS_COLOR_ATTACHMENT_READ_BIT,
    VK_ACCESS_COLOR_ATTACHMENT_WRITE_BIT,
    VK_ACCESS_DEPTH_STENCIL_ATTACHMENT_READ_BIT,
    VK_ACCESS_DEPTH_STENCIL_ATTACHMENT_WRITE_BIT,
    VK_ACCESS_TRANSFER_READ_BIT,
    VK_ACCESS_TRANSFER_WRITE_BIT,
    VK_ACCESS_HOST_READ_BIT,
    VK_ACCESS_HOST_WRITE_BIT,
    VK_ACCESS_MEMORY_READ_BIT,
    VK_ACCESS_MEMORY_WRITE_BIT,
}

impl VkAccessFlagBits {
    /// The integer that the Vulkan API uses for this value.
    pub open spec fn raw_value(self) -> i32 {
        match self {
            VkAccessFlagBits::VK_ACCESS_INDIRECT_COMMAND_READ_BIT => 1i32,
            VkAccessFlagBits::VK_ACCESS_INDEX_READ_BIT => 2i32,
            VkAccessFlagBits::VK_ACCESS_VERTEX_ATTRIBUTE_READ_BIT => 4i32,
            VkAccessFlagBits::VK_ACCESS_UNIFORM_READ_BIT => 8i32,
            VkAccessFlagBits::VK_ACCESS_INPUT_ATTACHMENT_READ_BIT => 16i32,
            VkAccessFlagBits::VK_ACCESS_SHADER_READ_BIT => 32i32,
            VkAccessFlagBits::VK_ACCESS_SHADER_WRITE_BIT => 64i32,
            VkAccessFlagBits::VK_ACCESS_COLOR_ATTACHMENT_READ_BIT => 128i32,
            VkAccessFlagBits::VK_ACCESS_COLOR_ATTACHMENT_WRITE_BIT => 256i32,
            VkAccessFlagBits::VK_ACCESS_DEPTH_STENCIL_ATTACHMENT_READ_BIT => 512i32,
            VkAccessFlagBits::VK_ACCESS_DEPTH_STENCIL_ATTACHMENT_WRITE_BIT => 1024i32,
            VkAccessFlagBits::VK_ACCESS_TRANSFER_READ_BIT => 2048i32,
            VkAccessFlagBits::VK_ACCESS_TRANSFER_WRITE_BIT => 4096i32,
            VkAccessFlagBits::VK_ACCESS_HOST_READ_BIT => 8192i32,
            VkAccessFlagBits::VK_ACCESS_HOST_WRITE_BIT => 16384i32,
            VkAccessFlagBits::VK_ACCESS_MEMORY_READ_BIT => 32768i32,
            VkAccessFlagBits::VK_ACCESS_MEMORY_WRITE_BIT => 65536i32,
        }
    }

    /// The integer that the Vulkan API uses for this value.
    pub fn to_raw(self) -> (r: i32)
        ensures
            r == self.raw_value(),
    {
        match self {
            VkAccessFlagBits::VK_ACCESS_INDIRECT_COMMAND_READ_BIT => 1i32,
            VkAccessFlagBits::VK_ACCESS_INDEX_READ_BIT => 2i32,
            VkAccessFlagBits::VK_ACCESS_VERTEX_ATTRIBUTE_READ_BIT => 4i32,
            VkAccessFlagBits::VK_ACCESS_UNIFORM_READ_BIT => 8i32,
            VkAccessFlagBits::VK_ACCESS_INPUT_ATTACHMENT_READ_BIT => 16i32,
            VkAccessFlagBits::VK_ACCESS_SHADER_READ_BIT => 32i32,
            VkAccessFlagBits::VK_ACCESS_SHADER_WRITE_BIT => 64i32,
            VkAccessFlagBits::VK_ACCESS_COLOR_ATTACHMENT_READ_BIT => 128i32,
            VkAccessFlagBits::VK_ACCESS_COLOR_ATTACHMENT_WRITE_BIT => 256i32,
            VkAccessFlagBits::VK_ACCESS_DEPTH_STENCIL_ATTACHMENT_READ_BIT => 512i32,
            VkAccessFlagBits::VK_ACCESS_DEPTH_STENCIL_ATTACHMENT_WRITE_BIT => 1024i32,
            VkAccessFlagBits::VK_ACCESS_TRANSFER_READ_BIT => 2048i32,
            VkAccessFlagBits::VK_ACCESS_TRANSFER_WRITE_BIT => 4096i32,
            VkAccessFlagBits::VK_ACCESS_HOST_READ_BIT => 8192i32,
            VkAccessFlagBits::VK_ACCESS_HOST_WRITE_BIT => 16384i32,
            VkAccessFlagBits::VK_ACCESS_MEMORY_READ_BIT => 32768i32,
            VkAccessFlagBits::VK_ACCESS_MEMORY_WRITE_BIT => 65536i32,
        }
    }
}

#[allow(non_camel_case_types)]
#[derive(Copy, Clone, PartialEq, Eq, Structural, Debug)]
pub enum VkMemoryPropertyFlagBits {
    VK_MEMORY_PROPERTY_DEVICE_LOCAL_BIT,
    VK_MEMORY_PROPERTY_HOST_VISIBLE_BIT,
    VK_MEMORY_PROPERTY_HOST_COHERENT_BIT,
    VK_MEMORY_PROPERTY_HOST_CACHED_BIT,
    VK_MEMORY_PROPERTY_LAZILY_ALLOCATED_BIT,
}

impl VkMemoryPropertyFlagBits {
    /// The integer that the Vulkan API uses for this value.
    pub open spec fn raw_value(self) -> i32 {
        match self {
            VkMemoryPropertyFlagBits::VK_MEMORY_PROPERTY_DEVICE_LOCAL_BIT => 1i32,
            VkMemoryPropertyFlagBits::VK_MEMORY_PROPERTY_HOST_VISIBLE_BIT => 2i32,
            VkMemoryPropertyFlagBits::VK_MEMORY_PROPERTY_HOST_COHERENT_BIT => 4i32,
            VkMemoryPropertyFlagBits::VK_MEMORY_PROPERTY_HOST_CACHED_BIT => 8i32,
            VkMemoryPropertyFlagBits::VK_MEMORY_PROPERTY_LAZILY_ALLOCATED_BIT => 16i32,
        }
    }

    /// The integer that the Vulkan API uses for this value.
    pub fn to_raw(self) -> (r: i32)
        ensures
            r == self.raw_value(),
    {
        match self {
            VkMemoryPropertyFlagBits::VK_MEMORY_PROPERTY_DEVICE_LOCAL_BIT => 1i32,
            VkMemoryPropertyFlagBits::VK_MEMORY_PROPERTY_HOST_VISIBLE_BIT => 2i32,
            VkMemoryPropertyFlagBits::VK_MEMORY_PROPERTY_HOST_COHERENT_BIT => 4i32,
            VkMemoryPropertyFlagBits::VK_MEMORY_PROPERTY_HOST_CACHED_BIT => 8i32,
            VkMemoryPropertyFlagBits::VK_MEMORY_PROPERTY_LAZILY_ALLOCATED_BIT => 16i32,
        }
    }
}

#[allow(non_camel_case_types)]
#[derive(Copy, Clone, PartialEq, Eq, Structural, Debug)]
pub enum VkPhysicalDeviceType {
    VK_PHYSICAL_DEVICE_TYPE_OTHER,
    VK_PHYSICAL_DEVICE_TYPE_INTEGRATED_GPU,
    VK_PHYSICAL_DEVICE_TYPE_DISCRETE_GPU,
    VK_PHYSICAL_DEVICE_TYPE_VIRTUAL_GPU,
    VK_PHYSICAL_DEVICE_TYPE_CPU,
}

impl VkPhysicalDeviceType {
    /// The integer that the Vulkan API uses for this value.
    pub open spec fn raw_value(self) -> i32 {
        match self {
            VkPhysicalDeviceType::VK_PHYSICAL_DEVICE_TYPE_OTHER => 0i32,
            VkPhysicalDeviceType::VK_PHYSICAL_DEVICE_TYPE_INTEGRATED_GPU => 1i32,
            VkPhysicalDeviceType::VK_PHYSICAL_DEVICE_TYPE_DISCRETE_GPU => 2i32,
            VkPhysicalDeviceType::VK_PHYSICAL_DEVICE_TYPE_VIRTUAL_GPU => 3i32,
            VkPhysicalDeviceType::VK_PHYSICAL_DEVICE_TYPE_CPU => 4i32,
        }
    }

    /// The integer that the Vulkan API uses for this value.
    pub fn to_raw(self) -> (r: i32)
        ensures
            r == self.raw_value(),
    {
        match self {
            VkPhysicalDeviceType::VK_PHYSICAL_DEVICE_TYPE_OTHER => 0i32,
            VkPhysicalDeviceType::VK_PHYSICAL_DEVICE_TYPE_INTEGRATED_GPU => 1i32,
            VkPhysicalDeviceType::VK_PHYSICAL_DEVICE_TYPE_DISCRETE_GPU => 2i32,
            VkPhysicalDeviceType::VK_PHYSICAL_DEVICE_TYPE_VIRTUAL_GPU => 3i32,
            VkPhysicalDeviceType::VK_PHYSICAL_DEVICE_TYPE_CPU => 4i32,
        }
    }
}

#[allow(non_camel_case_types)]
#[derive(Copy, Clone, PartialEq, Eq, Structural, Debug)]
pub enum VkPipelineBindPoint {
    VK_PIPELINE_BIND_POINT_GRAPHICS,
    VK_PIPELINE_BIND_POINT_COMPUTE,
}

impl VkPipelineBindPoint {
    /// The integer that the Vulkan API uses for this value.
    pub open spec fn raw_value(self) -> i32 {
        match self {
            VkPipelineBindPoint::VK_PIPELINE_BIND_POINT_GRAPHICS => 0i32,
            VkPipelineBindPoint::VK_PIPELINE_BIND_POINT_COMPUTE => 1i32,
        }
    }

    /// The integer that the Vulkan API uses for this value.
    pub fn to_raw(self) -> (r: i32)
        ensures
            r == self.raw_value(),
    {
        match self {
            VkPipelineBindPoint::VK_PIPELINE_BIND_POINT_GRAPHICS => 0i32,
            VkPipelineBindPoint::VK_PIPELINE_BIND_POINT_COMPUTE => 1i32,
        }
    }
}

#[allow(non_camel_case_types)]
#[derive(Copy, Clone, PartialEq, Eq, Structural, Debug)]
pub enum VkPipelineCreateFlagBits {
    VK_PIPELINE_CREATE_DISABLE_OPTIMIZATION_BIT,
    VK_PIPELINE_CREATE_ALLOW_DERIVATIVES_BIT,
    VK_PIPELINE_CREATE_DERIVATIVE_BIT,
}

impl VkPipelineCreateFlagBits {
    /// The integer that the Vulkan API uses for this value.
    pub open spec fn raw_value(self) -> i32 {
        match self {
            VkPipelineCreateFlagBits::VK_PIPELINE_CREATE_DISABLE_OPTIMIZATION_BIT => 1i32,
            VkPipelineCreateFlagBits::VK_PIPELINE_CREATE_ALLOW_DERIVATIVES_BIT => 2i32,
            VkPipelineCreateFlagBits::VK_PIPELINE_CREATE_DERIVATIVE_BIT => 4i32,
        }
    }

    /// The integer that the Vulkan API uses for this value.
    pub fn to_raw(self) -> (r: i32)
        ensures
            r == self.raw_value(),
    {
        match self {
            VkPipelineCreateFlagBits::VK_PIPELINE_CREATE_DISABLE_OPTIMIZATION_BIT => 1i32,
            VkPipelineCreateFlagBits::VK_PIPELINE_CREATE_ALLOW_DERIVATIVES_BIT => 2i32,
            VkPipelineCreateFlagBits::VK_PIPELINE_CREATE_DERIVATIVE_BIT => 4i32,
        }
    }
}

#[allow(non_camel_case_types)]
#[derive(Copy, Clone, PartialEq, Eq, Structural, Debug)]
pub enum VkPrimitiveTopology {
    VK_PRIMITIVE_TOPOLOGY_POINT_LIST,
    VK_PRIMITIVE_TOPOLOGY_LINE_LIST,
    VK_PRIMITIVE_TOPOLOGY_LINE_STRIP,
    VK_PRIMITIVE_TOPOLOGY_TRIANGLE_LIST,
    VK_PRIMITIVE_TOPOLOGY_TRIANGLE_STRIP,
    VK_PRIMITIVE_TOPOLOGY_TRIANGLE_FAN,
    VK_PRIMITIVE_TOPOLOGY_LINE_LIST_WITH_ADJACENCY,
    VK_PRIMITIVE_TOPOLOGY_LINE_STRIP_WITH_ADJACENCY,
    VK_PRIMITIVE_TOPOLOGY_TRIANGLE_LIST_WITH_ADJACENCY,
    VK_PRIMITIVE_TOPOLOGY_TRIANGLE_STRIP_WITH_ADJACENCY,
    VK_PRIMITIVE_TOPOLOGY_PATCH_LIST,
}

impl VkPrimitiveTopology {
    /// The integer that the Vulkan API uses for this value.
    pub open spec fn raw_value(self) -> i32 {
        match self {
            VkPrimitiveTopology::VK_PRIMITIVE_TOPOLOGY_POINT_LIST => 0i32,
            VkPrimitiveTopology::VK_PRIMITIVE_TOPOLOGY_LINE_LIST => 1i32,
            VkPrimitiveTopology::VK_PRIMITIVE_TOPOLOGY_LINE_STRIP => 2i32,
            VkPrimitiveTopology::VK_PRIMITIVE_TOPOLOGY_TRIANGLE_LIST => 3i32,
            VkPrimitiveTopology::VK_PRIMITIVE_TOPOLOGY_TRIANGLE_STRIP => 4i32,
            VkPrimitiveTopology::VK_PRIMITIVE_TOPOLOGY_TRIANGLE_FAN => 5i32,
            VkPrimitiveTopology::VK_PRIMITIVE_TOPOLOGY_LINE_LIST_WITH_ADJACENCY => 6i32,
            VkPrimitiveTopology::VK_PRIMITIVE_TOPOLOGY_LINE_STRIP_WITH_ADJACENCY => 7i32,
            VkPrimitiveTopology::VK_PRIMITIVE_TOPOLOGY_TRIANGLE_LIST_WITH_ADJACENCY => 8i32,
            VkPrimitiveTopology::VK_PRIMITIVE_TOPOLOGY_TRIANGLE_STRIP_WITH_ADJACENCY => 9i32,
            VkPrimitiveTopology::VK_PRIMITIVE_TOPOLOGY_PATCH_LIST => 10i32,
        }
    }

    /// The integer that the Vulkan API uses for this value.
    pub fn to_raw(self) -> (r: i32)
        ensures
            r == self.raw_value(),
    {
        match self {
            VkPrimitiveTopology::VK_PRIMITIVE_TOPOLOGY_POINT_LIST => 0i32,
            VkPrimitiveTopology::VK_PRIMITIVE_TOPOLOGY_LINE_LIST => 1i32,
            VkPrimitiveTopology::VK_PRIMITIVE_TOPOLOGY_LINE_STRIP => 2i32,
            VkPrimitiveTopology::VK_PRIMITIVE_TOPOLOGY_TRIANGLE_LIST => 3i32,
            VkPrimitiveTopology::VK_PRIMITIVE_TOPOLOGY_TRIANGLE_STRIP => 4i32,
            VkPrimitiveTopology::VK_PRIMITIVE_TOPOLOGY_TRIANGLE_FAN => 5i32,
            VkPrimitiveTopology::VK_PRIMITIVE_TOPOLOGY_LINE_LIST_WITH_ADJACENCY => 6i32,
            VkPrimitiveTopology::VK_PRIMITIVE_TOPOLOGY_LINE_STRIP_WITH_ADJACENCY => 7i32,
            VkPrimitiveTopology::VK_PRIMITIVE_TOPOLOGY_TRIANGLE_LIST_WITH_ADJACENCY => 8i32,
            VkPrimitiveTopology::VK_PRIMITIVE_TOPOLOGY_TRIANGLE_STRIP_WITH_ADJACENCY => 9i32,
            VkPrimitiveTopology::VK_PRIMITIVE_TOPOLOGY_PATCH_LIST => 10i32,
        }
    }
}

#[allow(non_camel_case_types)]
#[derive(Copy, Clone, PartialEq, Eq, Structural, Debug)]
pub enum VkQueryControlFlagBits {
    VK_QUERY_CONTROL_PRECISE_BIT,
}

impl VkQueryControlFlagBits {
    /// The integer that the Vulkan API uses for this value.
    pub open spec fn raw_value(self) -> i32 {
        match self {
            VkQueryControlFlagBits::VK_QUERY_CONTROL_PRECISE_BIT => 1i32,
        }
    }

    /// The integer that the Vulkan API uses for this value.
    pub fn to_raw(self) -> (r: i32)
        ensures
            r == self.raw_value(),
    {
        match self {
            VkQueryControlFlagBits::VK_QUERY_CONTROL_PRECISE_BIT => 1i32,
        }
    }
}

#[allow(non_camel_case_types)]
#[derive(Copy, Clone, PartialEq, Eq, Structural, Debug)]
pub enum VkQueryPipelineStatisticFlagBits {
    VK_QUERY_PIPELINE_STATISTIC_INPUT_ASSEMBLY_VERTICES_BIT,
    VK_QUERY_PIPELINE_STATISTIC_INPUT_ASSEMBLY_PRIMITIVES_BIT,
    VK_QUERY_PIPELINE_STATISTIC_VERTEX_SHADER_INVOCATIONS_BIT,
    VK_QUERY_PIPELINE_STATISTIC_GEOMETRY_SHADER_INVOCATIONS_BIT,
    VK_QUERY_PIPELINE_STATISTIC_GEOMETRY_SHADER_PRIMITIVES_BIT,
    VK_QUERY_PIPELINE_STATISTIC_CLIPPING_INVOCATIONS_BIT,
    VK_QUERY_PIPELINE_STATISTIC_CLIPPING_PRIMITIVES_BIT,
    VK_QUERY_PIPELINE_STATISTIC_FRAGMENT_SHADER_INVOCATIONS_BIT,
    VK_QUERY_PIPELINE_STATISTIC_TESSELLATION_CONTROL_SHADER_PATCHES_BIT,
    VK_QUERY_PIPELINE_STATISTIC_TESSELLATION_EVALUATION_SHADER_INVOCATIONS_BIT,
    VK_QUERY_PIPELINE_STATISTIC_COMPUTE_SHADER_INVOCATIONS_BIT,
}

impl VkQueryPipelineStatisticFlagBits {
    /// The integer that the Vulkan API uses for this value.
    pub open spec fn raw_value(self) -> i32 {
        match self {
            VkQueryPipelineStatisticFlagBits::VK_QUERY_PIPELINE_STATISTIC_INPUT_ASSEMBLY_VERTICES_BIT => 1i32,
            VkQueryPipelineStatisticFlagBits::VK_QUERY_PIPELINE_STATISTIC_INPUT_ASSEMBLY_PRIMITIVES_BIT => 2i32,
            VkQueryPipelineStatisticFlagBits::VK_QUERY_PIPELINE_STATISTIC_VERTEX_SHADER_INVOCATIONS_BIT => 4i32,
            VkQueryPipelineStatisticFlagBits::VK_QUERY_PIPELINE_STATISTIC_GEOMETRY_SHADER_INVOCATIONS_BIT => 8i32,
            VkQueryPipelineStatisticFlagBits::VK_QUERY_PIPELINE_STATISTIC_GEOMETRY_SHADER_PRIMITIVES_BIT => 16i32,
            VkQueryPipelineStatisticFlagBits::VK_QUERY_PIPELINE_STATISTIC_CLIPPING_INVOCATIONS_BIT => 32i32,
            VkQueryPipelineStatisticFlagBits::VK_QUERY_PIPELINE_STATISTIC_CLIPPING_PRIMITIVES_BIT => 64i32,
            VkQueryPipelineStatisticFlagBits::VK_QUERY_PIPELINE_STATISTIC_FRAGMENT_SHADER_INVOCATIONS_BIT => 128i32,
            VkQueryPipelineStatisticFlagBits::VK_QUERY_PIPELINE_STATISTIC_TESSELLATION_CONTROL_SHADER_PATCHES_BIT => 256i32,
            VkQueryPipelineStatisticFlagBits::VK_QUERY_PIPELINE_STATISTIC_TESSELLATION_EVALUATION_SHADER_INVOCATIONS_BIT => 512i32,
            VkQueryPipelineStatisticFlagBits::VK_QUERY_PIPELINE_STATISTIC_COMPUTE_SHADER_INVOCATIONS_BIT => 1024i32,
        }
    }

    /// The integer that the Vulkan API uses for this value.
    pub fn to_raw(self) -> (r: i32)
        ensures
            r == self.raw_value(),
    {
        match self {
            VkQueryPipelineStatisticFlagBits::VK_QUERY_PIPELINE_STATISTIC_INPUT_ASSEMBLY_VERTICES_BIT => 1i32,
            VkQueryPipelineStatisticFlagBits::VK_QUERY_PIPELINE_STATISTIC_INPUT_ASSEMBLY_PRIMITIVES_BIT => 2i32,
            VkQueryPipelineStatisticFlagBits::VK_QUERY_PIPELINE_STATISTIC_VERTEX_SHADER_INVOCATIONS_BIT => 4i32,
            VkQueryPipelineStatisticFlagBits::VK_QUERY_PIPELINE_STATISTIC_GEOMETRY_SHADER_INVOCATIONS_BIT => 8i32,
            VkQueryPipelineStatisticFlagBits::VK_QUERY_PIPELINE_STATISTIC_GEOMETRY_SHADER_PRIMITIVES_BIT => 16i32,
            VkQueryPipelineStatisticFlagBits::VK_QUERY_PIPELINE_STATISTIC_CLIPPING_INVOCATIONS_BIT => 32i32,
            VkQueryPipelineStatisticFlagBits::VK_QUERY_PIPELINE_STATISTIC_CLIPPING_PRIMITIVES_BIT => 64i32,
            VkQueryPipelineStatisticFlagBits::VK_QUERY_PIPELINE_STATISTIC_FRAGMENT_SHADER_INVOCATIONS_BIT => 128i32,
            VkQueryPipelineStatisticFlagBits::VK_QUERY_PIPELINE_STATISTIC_TESSELLATION_CONTROL_SHADER_PATCHES_BIT => 256i32,
            VkQueryPipelineStatisticFlagBits::VK_QUERY_PIPELINE_STATISTIC_TESSELLATION_EVALUATION_SHADER_INVOCATIONS_BIT => 512i32,
            VkQueryPipelineStatisticFlagBits::VK_QUERY_PIPELINE_STATISTIC_COMPUTE_SHADER_INVOCATIONS_BIT => 1024i32,
        }
    }
}

#[allow(non_camel_case_types)]
#[derive(Copy, Clone, PartialEq, Eq, Structural, Debug)]
pub enum VkQueryResultFlagBits {
    VK_QUERY_RESULT_64_BIT,
    VK_QUERY_RESULT_WAIT_BIT,
    VK_QUERY_RESULT_WITH_AVAILABILITY_BIT,
    VK_QUERY_RESULT_PARTIAL_BIT,
}

impl VkQueryResultFlagBits {
    /// The integer that the Vulkan API uses for this value.
    pub open spec fn raw_value(self) -> i32 {
        match self {
            VkQueryResultFlagBits::VK_QUERY_RESULT_64_BIT => 1i32,
            VkQueryResultFlagBits::VK_QUERY_RESULT_WAIT_BIT => 2i32,
            VkQueryResultFlagBits::VK_QUERY_RESULT_WITH_AVAILABILITY_BIT => 4i32,
            VkQueryResultFlagBits::VK_QUERY_RESULT_PARTIAL_BIT => 8i32,
        }
    }

    /// The integer that the Vulkan API uses for this value.
    pub fn to_raw(self) -> (r: i32)
        ensures
            r == self.raw_value(),
    {
        match self {
            VkQueryResultFlagBits::VK_QUERY_RESULT_64_BIT => 1i32,
            VkQueryResultFlagBits::VK_QUERY_RESULT_WAIT_BIT => 2i32,
            VkQueryResultFlagBits::VK_QUERY_RESULT_WITH_AVAILABILITY_BIT => 4i32,
            VkQueryResultFlagBits::VK_QUERY_RESULT_PARTIAL_BIT => 8i32,
        }
    }
}

#[allow(non_camel_case_types)]
#[derive(Copy, Clone, PartialEq, Eq, Structural, Debug)]
pub enum VkQueryType {
    VK_QUERY_TYPE_OCCLUSION,
    VK_QUERY_TYPE_PIPELINE_STATISTICS,
    VK_QUERY_TYPE_TIMESTAMP,
}

impl VkQueryType {
    /// The integer that the Vulkan API uses for this value.
    pub open spec fn raw_value(self) -> i32 {
        match self {
            VkQueryType::VK_QUERY_TYPE_OCCLUSION => 0i32,
            VkQueryType::VK_QUERY_TYPE_PIPELINE_STATISTICS => 1i32,
            VkQueryType::VK_QUERY_TYPE_TIMESTAMP => 2i32,
        }
    }

    /// The integer that the Vulkan API uses for this value.
    pub fn to_raw(self) -> (r: i32)
        ensures
            r == self.raw_value(),
    {
        match self {
            VkQueryType::VK_QUERY_TYPE_OCCLUSION => 0i32,
            VkQueryType::VK_QUERY_TYPE_PIPELINE_STATISTICS => 1i32,
            VkQueryType::VK_QUERY_TYPE_TIMESTAMP => 2i32,
        }
    }
}

#[allow(non_camel_case_types)]
#[derive(Copy, Clone, PartialEq, Eq, Structural, Debug)]
pub enum VkQueueFlagBits {
    VK_QUEUE_GRAPHICS_BIT,
    VK_QUEUE_COMPUTE_BIT,
    VK_QUEUE_TRANSFER_BIT,
    VK_QUEUE_SPARSE_BINDING_BIT,
}

impl VkQueueFlagBits {
    /// The integer that the Vulkan API uses for this value.
    pub open spec fn raw_value(self) -> i32 {
        match self {
            VkQueueFlagBits::VK_QUEUE_GRAPHICS_BIT => 1i32,
            VkQueueFlagBits::VK_QUEUE_COMPUTE_BIT => 2i32,
            VkQueueFlagBits::VK_QUEUE_TRANSFER_BIT => 4i32,
            VkQueueFlagBits::VK_QUEUE_SPARSE_BINDING_BIT => 8i32,
        }
    }

    /// The integer that the Vulkan API uses for this value.
    pub fn to_raw(self) -> (r: i32)
        ensures
            r == self.raw_value(),
    {
        match self {
            VkQueueFlagBits::VK_QUEUE_GRAPHICS_BIT => 1i32,
            VkQueueFlagBits::VK_QUEUE_COMPUTE_BIT => 2i32,
            VkQueueFlagBits::VK_QUEUE_TRANSFER_BIT => 4i32,
            VkQueueFlagBits::VK_QUEUE_SPARSE_BINDING_BIT => 8i32,
        }
    }
}

#[allow(non_camel_case_types)]
#[derive(Copy, Clone, PartialEq, Eq, Structural, Debug)]
pub enum VkSubpassContents {
    VK_SUBPASS_CONTENTS_INLINE,
    VK_SUBPASS_CONTENTS_SECONDARY_COMMAND_BUFFERS,
}

impl VkSubpassContents {
    /// The integer that the Vulkan API uses for this value.
    pub open spec fn raw_value(self) -> i32 {
        match self {
            VkSubpassContents::VK_SUBPASS_CONTENTS_INLINE => 0i32,
            VkSubpassContents::VK_SUBPASS_CONTENTS_SECONDARY_COMMAND_BUFFERS => 1i32,
        }
    }

    /// The integer that the Vulkan API uses for this value.
    pub fn to_raw(self) -> (r: i32)
        ensures
            r == self.raw_value(),
    {
        match self {
            VkSubpassContents::VK_SUBPASS_CONTENTS_INLINE => 0i32,
            VkSubpassContents::VK_SUBPASS_CONTENTS_SECONDARY_COMMAND_BUFFERS => 1i32,
        }
    }
}

#[allow(non_camel_case_types)]
#[derive(Copy, Clone, PartialEq, Eq, Structural, Debug)]
pub enum VkResult {
    VK_SUCCESS,
    VK_NOT_READY,
    VK_TIMEOUT,
    VK_EVENT_SET,
    VK_EVENT_RESET,
    VK_INCOMPLETE,
    VK_ERROR_OUT_OF_HOST_MEMORY,
    VK_ERROR_OUT_OF_DEVICE_MEMORY,
    VK_ERROR_INITIALIZATION_FAILED,
    VK_ERROR_DEVICE_LOST,
    VK_ERROR_MEMORY_MAP_FAILED,
    VK_ERROR_LAYER_NOT_PRESENT,
    VK_ERROR_EXTENSION_NOT_PRESENT,
    VK_ERROR_FEATURE_NOT_PRESENT,
    VK_ERROR_INCOMPATIBLE_DRIVER,
    VK_ERROR_TOO_MANY_OBJECTS,
    VK_ERROR_FORMAT_NOT_SUPPORTED,
    VK_ERROR_FRAGMENTED_POOL,
    VK_ERROR_UNKNOWN,
    VK_ERROR_INVALID_EXTERNAL_HANDLE,
}

impl VkResult {
    /// The integer that the Vulkan API uses for this value.
    pub open spec fn raw_value(self) -> i32 {
        match self {
            VkResult::VK_SUCCESS => 0i32,
            VkResult::VK_NOT_READY => 1i32,
            VkResult::VK_TIMEOUT => 2i32,
            VkResult::VK_EVENT_SET => 3i32,
            VkResult::VK_EVENT_RESET => 4i32,
            VkResult::VK_INCOMPLETE => 5i32,
            VkResult::VK_ERROR_OUT_OF_HOST_MEMORY => -1i32,
            VkResult::VK_ERROR_OUT_OF_DEVICE_MEMORY => -2i32,
            VkResult::VK_ERROR_INITIALIZATION_FAILED => -3i32,
            VkResult::VK_ERROR_DEVICE_LOST => -4i32,
            VkResult::VK_ERROR_MEMORY_MAP_FAILED => -5i32,
            VkResult::VK_ERROR_LAYER_NOT_PRESENT => -6i32,
            VkResult::VK_ERROR_EXTENSION_NOT_PRESENT => -7i32,
            VkResult::VK_ERROR_FEATURE_NOT_PRESENT => -8i32,
            VkResult::VK_ERROR_INCOMPATIBLE_DRIVER => -9i32,
            VkResult::VK_ERROR_TOO_MANY_OBJECTS => -10i32,
            VkResult::VK_ERROR_FORMAT_NOT_SUPPORTED => -11i32,
            VkResult::VK_ERROR_FRAGMENTED_POOL => -12i32,
            VkResult::VK_ERROR_UNKNOWN => -13i32,
            VkResult::VK_ERROR_INVALID_EXTERNAL_HANDLE => -1000072003i32,
        }
    }

    /// The integer that the Vulkan API uses for this value.
    pub fn to_raw(self) -> (r: i32)
        ensures
            r == self.raw_value(),
    {
        match self {
            VkResult::VK_SUCCESS => 0i32,
            VkResult::VK_NOT_READY => 1i32,
            VkResult::VK_TIMEOUT => 2i32,
            VkResult::VK_EVENT_SET => 3i32,
            VkResult::VK_EVENT_RESET => 4i32,
            VkResult::VK_INCOMPLETE => 5i32,
            VkResult::VK_ERROR_OUT_OF_HOST_MEMORY => -1i32,
            VkResult::VK_ERROR_OUT_OF_DEVICE_MEMORY => -2i32,
            VkResult::VK_ERROR_INITIALIZATION_FAILED => -3i32,
            VkResult::VK_ERROR_DEVICE_LOST => -4i32,
            VkResult::VK_ERROR_MEMORY_MAP_FAILED => -5i32,
            VkResult::VK_ERROR_LAYER_NOT_PRESENT => -6i32,
            VkResult::VK_ERROR_EXTENSION_NOT_PRESENT => -7i32,
            VkResult::VK_ERROR_FEATURE_NOT_PRESENT => -8i32,
            VkResult::VK_ERROR_INCOMPATIBLE_DRIVER => -9i32,
            VkResult::VK_ERROR_TOO_MANY_OBJECTS => -10i32,
            VkResult::VK_ERROR_FORMAT_NOT_SUPPORTED => -11i32,
            VkResult::VK_ERROR_FRAGMENTED_POOL => -12i32,
            VkResult::VK_ERROR_UNKNOWN => -13i32,
            VkResult::VK_ERROR_INVALID_EXTERNAL_HANDLE => -1000072003i32,
        }
    }
}

#[allow(non_camel_case_types)]
#[derive(Copy, Clone, PartialEq, Eq, Structural, Debug)]
pub enum VkShaderStageFlagBits {
    VK_SHADER_STAGE_VERTEX_BIT,
    VK_SHADER_STAGE_TESSELLATION_CONTROL_BIT,
    VK_SHADER_STAGE_TESSELLATION_EVALUATION_BIT,
    VK_SHADER_STAGE_GEOMETRY_BIT,
    VK_SHADER_STAGE_FRAGMENT_BIT,
    VK_SHADER_STAGE_COMPUTE_BIT,
    VK_SHADER_STAGE_ALL_GRAPHICS,
    VK_SHADER_STAGE_ALL,
}

impl VkShaderStageFlagBits {
    /// The integer that the Vulkan API uses for this value.
    pub open spec fn raw_value(self) -> i32 {
        match self {
            VkShaderStageFlagBits::VK_SHADER_STAGE_VERTEX_BIT => 1i32,
            VkShaderStageFlagBits::VK_SHADER_STAGE_TESSELLATION_CONTROL_BIT => 2i32,
            VkShaderStageFlagBits::VK_SHADER_STAGE_TESSELLATION_EVALUATION_BIT => 4i32,
            VkShaderStageFlagBits::VK_SHADER_STAGE_GEOMETRY_BIT => 8i32,
            VkShaderStageFlagBits::VK_SHADER_STAGE_FRAGMENT_BIT => 16i32,
            VkShaderStageFlagBits::VK_SHADER_STAGE_COMPUTE_BIT => 32i32,
            VkShaderStageFlagBits::VK_SHADER_STAGE_ALL_GRAPHICS => 31i32,
            VkShaderStageFlagBits::VK_SHADER_STAGE_ALL => 2147483647i32,
        }
    }

    /// The integer that the Vulkan API uses for this value.
    pub fn to_raw(self) -> (r: i32)
        ensures
            r == self.raw_value(),
    {
        match self {
            VkShaderStageFlagBits::VK_SHADER_STAGE_VERTEX_BIT => 1i32,
            VkShaderStageFlagBits::VK_SHADER_STAGE_TESSELLATION_CONTROL_BIT => 2i32,
            VkShaderStageFlagBits::VK_SHADER_STAGE_TESSELLATION_EVALUATION_BIT => 4i32,
            VkShaderStageFlagBits::VK_SHADER_STAGE_GEOMETRY_BIT => 8i32,
            VkShaderStageFlagBits::VK_SHADER_STAGE_FRAGMENT_BIT => 16i32,
            VkShaderStageFlagBits::VK_SHADER_STAGE_COMPUTE_BIT => 32i32,
            VkShaderStageFlagBits::VK_SHADER_STAGE_ALL_GRAPHICS => 31i32,
            VkShaderStageFlagBits::VK_SHADER_STAGE_ALL => 2147483647i32,
        }
    }
}

#[allow(non_camel_case_types)]
#[derive(Copy, Clone, PartialEq, Eq, Structural, Debug)]
pub enum VkSparseMemoryBindFlagBits {
    VK_SPARSE_MEMORY_BIND_METADATA_BIT,
}

impl VkSparseMemoryBindFlagBits {
    /// The integer that the Vulkan API uses for this value.
    pub open spec fn raw_value(self) -> i32 {
        match self {
            VkSparseMemoryBindFlagBits::VK_SPARSE_MEMORY_BIND_METADATA_BIT => 1i32,
        }
    }

    /// The integer that the Vulkan API uses for this value.
    pub fn to_raw(self) -> (r: i32)
        ensures
            r == self.raw_value(),
    {
        match self {
            VkSparseMemoryBindFlagBits::VK_SPARSE_MEMORY_BIND_METADATA_BIT => 1i32,
        }
    }
}

#[allow(non_camel_case_types)]
#[derive(Copy, Clone, PartialEq, Eq, Structural, Debug)]
pub enum VkStencilFaceFlagBits {
    VK_STENCIL_FACE_FRONT_BIT,
    VK_STENCIL_FACE_BACK_BIT,
    VK_STENCIL_FACE_FRONT_AND_BACK,
}

impl VkStencilFaceFlagBits {
    /// The integer that the Vulkan API uses for this value.
    pub open spec fn raw_value(self) -> i32 {
        match self {
            VkStencilFaceFlagBits::VK_STENCIL_FACE_FRONT_BIT => 1i32,
            VkStencilFaceFlagBits::VK_STENCIL_FACE_BACK_BIT => 2i32,
            VkStencilFaceFlagBits::VK_STENCIL_FACE_FRONT_AND_BACK => 3i32,
        }
    }

    /// The integer that the Vulkan API uses for this value.
    pub fn to_raw(self) -> (r: i32)
        ensures
            r == self.raw_value(),
    {
        match self {
            VkStencilFaceFlagBits::VK_STENCIL_FACE_FRONT_BIT => 1i32,
            VkStencilFaceFlagBits::VK_STENCIL_FACE_BACK_BIT => 2i32,
            VkStencilFaceFlagBits::VK_STENCIL_FACE_FRONT_AND_BACK => 3i32,
        }
    }
}

#[allow(non_camel_case_types)]
#[derive(Copy, Clone, PartialEq, Eq, Structural, Debug)]
pub enum VkStencilOp {
    VK_STENCIL_OP_KEEP,
    VK_STENCIL_OP_ZERO,
    VK_STENCIL_OP_REPLACE,
    VK_STENCIL_OP_INCREMENT_AND_CLAMP,
    VK_STENCIL_OP_DECREMENT_AND_CLAMP,
    VK_STENCIL_OP_INVERT,
    VK_STENCIL_OP_INCREMENT_AND_WRAP,
    VK_STENCIL_OP_DECREMENT_AND_WRAP,
}

impl VkStencilOp {
    /// The integer that the Vulkan API uses for this value.
    pub open spec fn raw_value(self) -> i32 {
        match self {
            VkStencilOp::VK_STENCIL_OP_KEEP => 0i32,
            VkStencilOp::VK_STENCIL_OP_ZERO => 1i32,
            VkStencilOp::VK_STENCIL_OP_REPLACE => 2i32,
            VkStencilOp::VK_STENCIL_OP_INCREMENT_AND_CLAMP => 3i32,
            VkStencilOp::VK_STENCIL_OP_DECREMENT_AND_CLAMP => 4i32,
            VkStencilOp::VK_STENCIL_OP_INVERT => 5i32,
            VkStencilOp::VK_STENCIL_OP_INCREMENT_AND_WRAP => 6i32,
            VkStencilOp::VK_STENCIL_OP_DECREMENT_AND_WRAP => 7i32,
        }
    }

    /// The integer that the Vulkan API uses for this value.
    pub fn to_raw(self) -> (r: i32)
        ensures
            r == self.raw_value(),
    {
        match self {
            VkStencilOp::VK_STENCIL_OP_KEEP => 0i32,
            VkStencilOp::VK_STENCIL_OP_ZERO => 1i32,
            VkStencilOp::VK_STENCIL_OP_REPLACE => 2i32,
            VkStencilOp::VK_STENCIL_OP_INCREMENT_AND_CLAMP => 3i32,
            VkStencilOp::VK_STENCIL_OP_DECREMENT_AND_CLAMP => 4i32,
            VkStencilOp::VK_STENCIL_OP_INVERT => 5i32,
            VkStencilOp::VK_STENCIL_OP_INCREMENT_AND_WRAP => 6i32,
            VkStencilOp::VK_STENCIL_OP_DECREMENT_AND_WRAP => 7i32,
        }
    }
}

#[allow(non_camel_case_types)]
#[derive(Copy, Clone, PartialEq, Eq, Structural, Debug)]
pub enum VkStructureType {
    VK_STRUCTURE_TYPE_APPLICATION_INFO,
    VK_STRUCTURE_TYPE_INSTANCE_CREATE_INFO,
    VK_STRUCTURE_TYPE_DEVICE_QUEUE_CREATE_INFO,
    VK_STRUCTURE_TYPE_DEVICE_CREATE_INFO,
    VK_STRUCTURE_TYPE_SUBMIT_INFO,
    VK_STRUCTURE_TYPE_MEMORY_ALLOCATE_INFO,
    VK_STRUCTURE_TYPE_MAPPED_MEMORY_RANGE,
    VK_STRUCTURE_TYPE_BIND_SPARSE_INFO,
    VK_STRUCTURE_TYPE_FENCE_CREATE_INFO,
    VK_STRUCTURE_TYPE_SEMAPHORE_CREATE_INFO,
    VK_STRUCTURE_TYPE_EVENT_CREATE_INFO,
    VK_STRUCTURE_TYPE_QUERY_POOL_CREATE_INFO,
    VK_STRUCTURE_TYPE_BUFFER_CREATE_INFO,
    VK_STRUCTURE_TYPE_BUFFER_VIEW_CREATE_INFO,
    VK_STRUCTURE_TYPE_IMAGE_CREATE_INFO,
    VK_STRUCTURE_TYPE_IMAGE_VIEW_CREATE_INFO,
    VK_STRUCTURE_TYPE_SHADER_MODULE_CREATE_INFO,
    VK_STRUCTURE_TYPE_PIPELINE_CACHE_CREATE_INFO,
    VK_STRUCTURE_TYPE_PIPELINE_SHADER_STAGE_CREATE_INFO,
    VK_STRUCTURE_TYPE_PIPELINE_VERTEX_INPUT_STATE_CREATE_INFO,
    VK_STRUCTURE_TYPE_PIPELINE_INPUT_ASSEMBLY_STATE_CREATE_INFO,
    VK_STRUCTURE_TYPE_PIPELINE_TESSELLATION_STATE_CREATE_INFO,
    VK_STRUCTURE_TYPE_PIPELINE_VIEWPORT_STATE_CREATE_INFO,
    VK_STRUCTURE_TYPE_PIPELINE_RASTERIZATION_STATE_CREATE_INFO,
    VK_STRUCTURE_TYPE_PIPELINE_MULTISAMPLE_STATE_CREATE_INFO,
    VK_STRUCTURE_TYPE_PIPELINE_DEPTH_STENCIL_STATE_CREATE_INFO,
    VK_STRUCTURE_TYPE_PIPELINE_COLOR_BLEND_STATE_CREATE_INFO,
    VK_STRUCTURE_TYPE_PIPELINE_DYNAMIC_STATE_CREATE_INFO,
    VK_STRUCTURE_TYPE_GRAPHICS_PIPELINE_CREATE_INFO,
    VK_STRUCTURE_TYPE_COMPUTE_PIPELINE_CREATE_INFO,
    VK_STRUCTURE_TYPE_PIPELINE_LAYOUT_CREATE_INFO,
    VK_STRUCTURE_TYPE_SAMPLER_CREATE_INFO,
    VK_STRUCTURE_TYPE_DESCRIPTOR_SET_LAYOUT_CREATE_INFO,
    VK_STRUCTURE_TYPE_DESCRIPTOR_POOL_CREATE_INFO,
    VK_STRUCTURE_TYPE_DESCRIPTOR_SET_ALLOCATE_INFO,
    VK_STRUCTURE_TYPE_WRITE_DESCRIPTOR_SET,
    VK_STRUCTURE_TYPE_COPY_DESCRIPTOR_SET,
    VK_STRUCTURE_TYPE_FRAMEBUFFER_CREATE_INFO,
    VK_STRUCTURE_TYPE_RENDER_PASS_CREATE_INFO,
    VK_STRUCTURE_TYPE_COMMAND_POOL_CREATE_INFO,
    VK_STRUCTURE_TYPE_COMMAND_BUFFER_ALLOCATE_INFO,
    VK_STRUCTURE_TYPE_COMMAND_BUFFER_INHERITANCE_INFO,
    VK_STRUCTURE_TYPE_COMMAND_BUFFER_BEGIN_INFO,
    VK_STRUCTURE_TYPE_RENDER_PASS_BEGIN_INFO,
    VK_STRUCTURE_TYPE_BUFFER_MEMORY_BARRIER,
    VK_STRUCTURE_TYPE_IMAGE_MEMORY_BARRIER,
    VK_STRUCTURE_TYPE_MEMORY_BARRIER,
    VK_STRUCTURE_TYPE_LOADER_INSTANCE_CREATE_INFO,
    VK_STRUCTURE_TYPE_LOADER_DEVICE_CREATE_INFO,
    VK_STRUCTURE_TYPE_PHYSICAL_DEVICE_EXTERNAL_IMAGE_FORMAT_INFO,
    VK_STRUCTURE_TYPE_EXTERNAL_IMAGE_FORMAT_PROPERTIES,
    VK_STRUCTURE_TYPE_PHYSICAL_DEVICE_EXTERNAL_BUFFER_INFO,
    VK_STRUCTURE_TYPE_EXTERNAL_BUFFER_PROPERTIES,
    VK_STRUCTURE_TYPE_PHYSICAL_DEVICE_ID_PROPERTIES,
    VK_STRUCTURE_TYPE_EXTERNAL_MEMORY_BUFFER_CREATE_INFO,
    VK_STRUCTURE_TYPE_EXTERNAL_MEMORY_IMAGE_CREATE_INFO,
    VK_STRUCTURE_TYPE_EXPORT_MEMORY_ALLOCATE_INFO,
    VK_STRUCTURE_TYPE_IMPORT_MEMORY_WIN32_HANDLE_INFO_KHR,
    VK_STRUCTURE_TYPE_EXPORT_MEMORY_WIN32_HANDLE_INFO_KHR,
    VK_STRUCTURE_TYPE_MEMORY_WIN32_HANDLE_PROPERTIES_KHR,
    VK_STRUCTURE_TYPE_MEMORY_GET_WIN32_HANDLE_INFO_KHR,
}

impl VkStructureType {
    /// The integer that the Vulkan API uses for this value.
    pub open spec fn raw_value(self) -> i32 {
        match self {
            VkStructureType::VK_STRUCTURE_TYPE_APPLICATION_INFO => 0i32,
            VkStructureType::VK_STRUCTURE_TYPE_INSTANCE_CREATE_INFO => 1i32,
            VkStructureType::VK_STRUCTURE_TYPE_DEVICE_QUEUE_CREATE_INFO => 2i32,
            VkStructureType::VK_STRUCTURE_TYPE_DEVICE_CREATE_INFO => 3i32,
            VkStructureType::VK_STRUCTURE_TYPE_SUBMIT_INFO => 4i32,
            VkStructureType::VK_STRUCTURE_TYPE_MEMORY_ALLOCATE_INFO => 5i32,
            VkStructureType::VK_STRUCTURE_TYPE_MAPPED_MEMORY_RANGE => 6i32,
            VkStructureType::VK_STRUCTURE_TYPE_BIND_SPARSE_INFO => 7i32,
            VkStructureType::VK_STRUCTURE_TYPE_FENCE_CREATE_INFO => 8i32,
            VkStructureType::VK_STRUCTURE_TYPE_SEMAPHORE_CREATE_INFO => 9i32,
            VkStructureType::VK_STRUCTURE_TYPE_EVENT_CREATE_INFO => 10i32,
            VkStructureType::VK_STRUCTURE_TYPE_QUERY_POOL_CREATE_INFO => 11i32,
            VkStructureType::VK_STRUCTURE_TYPE_BUFFER_CREATE_INFO => 12i32,
            VkStructureType::VK_STRUCTURE_TYPE_BUFFER_VIEW_CREATE_INFO => 13i32,
            VkStructureType::VK_STRUCTURE_TYPE_IMAGE_CREATE_INFO => 14i32,
            VkStructureType::VK_STRUCTURE_TYPE_IMAGE_VIEW_CREATE_INFO => 15i32,
            VkStructureType::VK_STRUCTURE_TYPE_SHADER_MODULE_CREATE_INFO => 16i32,
            VkStructureType::VK_STRUCTURE_TYPE_PIPELINE_CACHE_CREATE_INFO => 17i32,
            VkStructureType::VK_STRUCTURE_TYPE_PIPELINE_SHADER_STAGE_CREATE_INFO => 18i32,
            VkStructureType::VK_STRUCTURE_TYPE_PIPELINE_VERTEX_INPUT_STATE_CREATE_INFO => 19i32,
            VkStructureType::VK_STRUCTURE_TYPE_PIPELINE_INPUT_ASSEMBLY_STATE_CREATE_INFO => 20i32,
            VkStructureType::VK_STRUCTURE_TYPE_PIPELINE_TESSELLATION_STATE_CREATE_INFO => 21i32,
            VkStructureType::VK_STRUCTURE_TYPE_PIPELINE_VIEWPORT_STATE_CREATE_INFO => 22i32,
            VkStructureType::VK_STRUCTURE_TYPE_PIPELINE_RASTERIZATION_STATE_CREATE_INFO => 23i32,
            VkStructureType::VK_STRUCTURE_TYPE_PIPELINE_MULTISAMPLE_STATE_CREATE_INFO => 24i32,
            VkStructureType::VK_STRUCTURE_TYPE_PIPELINE_DEPTH_STENCIL_STATE_CREATE_INFO => 25i32,
            VkStructureType::VK_STRUCTURE_TYPE_PIPELINE_COLOR_BLEND_STATE_CREATE_INFO => 26i32,
            VkStructureType::VK_STRUCTURE_TYPE_PIPELINE_DYNAMIC_STATE_CREATE_INFO => 27i32,
            VkStructureType::VK_STRUCTURE_TYPE_GRAPHICS_PIPELINE_CREATE_INFO => 28i32,
            VkStructureType::VK_STRUCTURE_TYPE_COMPUTE_PIPELINE_CREATE_INFO => 29i32,
            VkStructureType::VK_STRUCTURE_TYPE_PIPELINE_LAYOUT_CREATE_INFO => 30i32,
            VkStructureType::VK_STRUCTURE_TYPE_SAMPLER_CREATE_INFO => 31i32,
            VkStructureType::VK_STRUCTURE_TYPE_DESCRIPTOR_SET_LAYOUT_CREATE_INFO => 32i32,
            VkStructureType::VK_STRUCTURE_TYPE_DESCRIPTOR_POOL_CREATE_INFO => 33i32,
            VkStructureType::VK_STRUCTURE_TYPE_DESCRIPTOR_SET_ALLOCATE_INFO => 34i32,
            VkStructureType::VK_STRUCTURE_TYPE_WRITE_DESCRIPTOR_SET => 35i32,
            VkStructureType::VK_STRUCTURE_TYPE_COPY_DESCRIPTOR_SET => 36i32,
            VkStructureType::VK_STRUCTURE_TYPE_FRAMEBUFFER_CREATE_INFO => 37i32,
            VkStructureType::VK_STRUCTURE_TYPE_RENDER_PASS_CREATE_INFO => 38i32,
            VkStructureType::VK_STRUCTURE_TYPE_COMMAND_POOL_CREATE_INFO => 39i32,
            VkStructureType::VK_STRUCTURE_TYPE_COMMAND_BUFFER_ALLOCATE_INFO => 40i32,
            VkStructureType::VK_STRUCTURE_TYPE_COMMAND_BUFFER_INHERITANCE_INFO => 41i32,
            VkStructureType::VK_STRUCTURE_TYPE_COMMAND_BUFFER_BEGIN_INFO => 42i32,
            VkStructureType::VK_STRUCTURE_TYPE_RENDER_PASS_BEGIN_INFO => 43i32,
            VkStructureType::VK_STRUCTURE_TYPE_BUFFER_MEMORY_BARRIER => 44i32,
            VkStructureType::VK_STRUCTURE_TYPE_IMAGE_MEMORY_BARRIER => 45i32,
            VkStructureType::VK_STRUCTURE_TYPE_MEMORY_BARRIER => 46i32,
            VkStructureType::VK_STRUCTURE_TYPE_LOADER_INSTANCE_CREATE_INFO => 47i32,
            VkStructureType::VK_STRUCTURE_TYPE_LOADER_DEVICE_CREATE_INFO => 48i32,
            VkStructureType::VK_STRUCTURE_TYPE_PHYSICAL_DEVICE_EXTERNAL_IMAGE_FORMAT_INFO => 1000071000i32,
            VkStructureType::VK_STRUCTURE_TYPE_EXTERNAL_IMAGE_FORMAT_PROPERTIES => 1000071001i32,
            VkStructureType::VK_STRUCTURE_TYPE_PHYSICAL_DEVICE_EXTERNAL_BUFFER_INFO => 1000071002i32,
            VkStructureType::VK_STRUCTURE_TYPE_EXTERNAL_BUFFER_PROPERTIES => 1000071003i32,
            VkStructureType::VK_STRUCTURE_TYPE_PHYSICAL_DEVICE_ID_PROPERTIES => 1000071004i32,
            VkStructureType::VK_STRUCTURE_TYPE_EXTERNAL_MEMORY_BUFFER_CREATE_INFO => 1000072000i32,
            VkStructureType::VK_STRUCTURE_TYPE_EXTERNAL_MEMORY_IMAGE_CREATE_INFO => 1000072001i32,
            VkStructureType::VK_STRUCTURE_TYPE_EXPORT_MEMORY_ALLOCATE_INFO => 1000072002i32,
            VkStructureType::VK_STRUCTURE_TYPE_IMPORT_MEMORY_WIN32_HANDLE_INFO_KHR => 1000073000i32,
            VkStructureType::VK_STRUCTURE_TYPE_EXPORT_MEMORY_WIN32_HANDLE_INFO_KHR => 1000073001i32,
            VkStructureType::VK_STRUCTURE_TYPE_MEMORY_WIN32_HANDLE_PROPERTIES_KHR => 1000073002i32,
            VkStructureType::VK_STRUCTURE_TYPE_MEMORY_GET_WIN32_HANDLE_INFO_KHR => 1000073003i32,
        }
    }

    /// The integer that the Vulkan API uses for this value.
    pub fn to_raw(self) -> (r: i32)
        ensures
            r == self.raw_value(),
    {
        match self {
            VkStructureType::VK_STRUCTURE_TYPE_APPLICATION_INFO => 0i32,
            VkStructureType::VK_STRUCTURE_TYPE_INSTANCE_CREATE_INFO => 1i32,
            VkStructureType::VK_STRUCTURE_TYPE_DEVICE_QUEUE_CREATE_INFO => 2i32,
            VkStructureType::VK_STRUCTURE_TYPE_DEVICE_CREATE_INFO => 3i32,
            VkStructureType::VK_STRUCTURE_TYPE_SUBMIT_INFO => 4i32,
            VkStructureType::VK_STRUCTURE_TYPE_MEMORY_ALLOCATE_INFO => 5i32,
            VkStructureType::VK_STRUCTURE_TYPE_MAPPED_MEMORY_RANGE => 6i32,
            VkStructureType::VK_STRUCTURE_TYPE_BIND_SPARSE_INFO => 7i32,
            VkStructureType::VK_STRUCTURE_TYPE_FENCE_CREATE_INFO => 8i32,
            VkStructureType::VK_STRUCTURE_TYPE_SEMAPHORE_CREATE_INFO => 9i32,
            VkStructureType::VK_STRUCTURE_TYPE_EVENT_CREATE_INFO => 10i32,
            VkStructureType::VK_STRUCTURE_TYPE_QUERY_POOL_CREATE_INFO => 11i32,
            VkStructureType::VK_STRUCTURE_TYPE_BUFFER_CREATE_INFO => 12i32,
            VkStructureType::VK_STRUCTURE_TYPE_BUFFER_VIEW_CREATE_INFO => 13i32,
            VkStructureType::VK_STRUCTURE_TYPE_IMAGE_CREATE_INFO => 14i32,
            VkStructureType::VK_STRUCTURE_TYPE_IMAGE_VIEW_CREATE_INFO => 15i32,
            VkStructureType::VK_STRUCTURE_TYPE_SHADER_MODULE_CREATE_INFO => 16i32,
            VkStructureType::VK_STRUCTURE_TYPE_PIPELINE_CACHE_CREATE_INFO => 17i32,
            VkStructureType::VK_STRUCTURE_TYPE_PIPELINE_SHADER_STAGE_CREATE_INFO => 18i32,
            VkStructureType::VK_STRUCTURE_TYPE_PIPELINE_VERTEX_INPUT_STATE_CREATE_INFO => 19i32,
            VkStructureType::VK_STRUCTURE_TYPE_PIPELINE_INPUT_ASSEMBLY_STATE_CREATE_INFO => 20i32,
            VkStructureType::VK_STRUCTURE_TYPE_PIPELINE_TESSELLATION_STATE_CREATE_INFO => 21i32,
            VkStructureType::VK_STRUCTURE_TYPE_PIPELINE_VIEWPORT_STATE_CREATE_INFO => 22i32,
            VkStructureType::VK_STRUCTURE_TYPE_PIPELINE_RASTERIZATION_STATE_CREATE_INFO => 23i32,
            VkStructureType::VK_STRUCTURE_TYPE_PIPELINE_MULTISAMPLE_STATE_CREATE_INFO => 24i32,
            VkStructureType::VK_STRUCTURE_TYPE_PIPELINE_DEPTH_STENCIL_STATE_CREATE_INFO => 25i32,
            VkStructureType::VK_STRUCTURE_TYPE_PIPELINE_COLOR_BLEND_STATE_CREATE_INFO => 26i32,
            VkStructureType::VK_STRUCTURE_TYPE_PIPELINE_DYNAMIC_STATE_CREATE_INFO => 27i32,
            VkStructureType::VK_STRUCTURE_TYPE_GRAPHICS_PIPELINE_CREATE_INFO => 28i32,
            VkStructureType::VK_STRUCTURE_TYPE_COMPUTE_PIPELINE_CREATE_INFO => 29i32,
            VkStructureType::VK_STRUCTURE_TYPE_PIPELINE_LAYOUT_CREATE_INFO => 30i32,
            VkStructureType::VK_STRUCTURE_TYPE_SAMPLER_CREATE_INFO => 31i32,
            VkStructureType::VK_STRUCTURE_TYPE_DESCRIPTOR_SET_LAYOUT_CREATE_INFO => 32i32,
            VkStructureType::VK_STRUCTURE_TYPE_DESCRIPTOR_POOL_CREATE_INFO => 33i32,
            VkStructureType::VK_STRUCTURE_TYPE_DESCRIPTOR_SET_ALLOCATE_INFO => 34i32,
            VkStructureType::VK_STRUCTURE_TYPE_WRITE_DESCRIPTOR_SET => 35i32,
            VkStructureType::VK_STRUCTURE_TYPE_COPY_DESCRIPTOR_SET => 36i32,
            VkStructureType::VK_STRUCTURE_TYPE_FRAMEBUFFER_CREATE_INFO => 37i32,
            VkStructureType::VK_STRUCTURE_TYPE_RENDER_PASS_CREATE_INFO => 38i32,
            VkStructureType::VK_STRUCTURE_TYPE_COMMAND_POOL_CREATE_INFO => 39i32,
            VkStructureType::VK_STRUCTURE_TYPE_COMMAND_BUFFER_ALLOCATE_INFO => 40i32,
            VkStructureType::VK_STRUCTURE_TYPE_COMMAND_BUFFER_INHERITANCE_INFO => 41i32,
            VkStructureType::VK_STRUCTURE_TYPE_COMMAND_BUFFER_BEGIN_INFO => 42i32,
            VkStructureType::VK_STRUCTURE_TYPE_RENDER_PASS_BEGIN_INFO => 43i32,
            VkStructureType::VK_STRUCTURE_TYPE_BUFFER_MEMORY_BARRIER => 44i32,
            VkStructureType::VK_STRUCTURE_TYPE_IMAGE_MEMORY_BARRIER => 45i32,
            VkStructureType::VK_STRUCTURE_TYPE_MEMORY_BARRIER => 46i32,
            VkStructureType::VK_STRUCTURE_TYPE_LOADER_INSTANCE_CREATE_INFO => 47i32,
            VkStructureType::VK_STRUCTURE_TYPE_LOADER_DEVICE_CREATE_INFO => 48i32,
            VkStructureType::VK_STRUCTURE_TYPE_PHYSICAL_DEVICE_EXTERNAL_IMAGE_FORMAT_INFO => 1000071000i32,
            VkStructureType::VK_STRUCTURE_TYPE_EXTERNAL_IMAGE_FORMAT_PROPERTIES => 1000071001i32,
            VkStructureType::VK_STRUCTURE_TYPE_PHYSICAL_DEVICE_EXTERNAL_BUFFER_INFO => 1000071002i32,
            VkStructureType::VK_STRUCTURE_TYPE_EXTERNAL_BUFFER_PROPERTIES => 1000071003i32,
            VkStructureType::VK_STRUCTURE_TYPE_PHYSICAL_DEVICE_ID_PROPERTIES => 1000071004i32,
            VkStructureType::VK_STRUCTURE_TYPE_EXTERNAL_MEMORY_BUFFER_CREATE_INFO => 1000072000i32,
            VkStructureType::VK_STRUCTURE_TYPE_EXTERNAL_MEMORY_IMAGE_CREATE_INFO => 1000072001i32,
            VkStructureType::VK_STRUCTURE_TYPE_EXPORT_MEMORY_ALLOCATE_INFO => 1000072002i32,
            VkStructureType::VK_STRUCTURE_TYPE_IMPORT_MEMORY_WIN32_HANDLE_INFO_KHR => 1000073000i32,
            VkStructureType::VK_STRUCTURE_TYPE_EXPORT_MEMORY_WIN32_HANDLE_INFO_KHR => 1000073001i32,
            VkStructureType::VK_STRUCTURE_TYPE_MEMORY_WIN32_HANDLE_PROPERTIES_KHR => 1000073002i32,
            VkStructureType::VK_STRUCTURE_TYPE_MEMORY_GET_WIN32_HANDLE_INFO_KHR => 1000073003i32,
        }
    }
}

#[allow(non_camel_case_types)]
#[derive(Copy, Clone, PartialEq, Eq, Structural, Debug)]
pub enum VkSystemAllocationScope {
    VK_SYSTEM_ALLOCATION_SCOPE_COMMAND,
    VK_SYSTEM_ALLOCATION_SCOPE_OBJECT,
    VK_SYSTEM_ALLOCATION_SCOPE_CACHE,
    VK_SYSTEM_ALLOCATION_SCOPE_DEVICE,
    VK_SYSTEM_ALLOCATION_SCOPE_INSTANCE,
}

impl VkSystemAllocationScope {
    /// The integer that the Vulkan API uses for this value.
    pub open spec fn raw_value(self) -> i32 {
        match self {
            VkSystemAllocationScope::VK_SYSTEM_ALLOCATION_SCOPE_COMMAND => 0i32,
            VkSystemAllocationScope::VK_SYSTEM_ALLOCATION_SCOPE_OBJECT => 1i32,
            VkSystemAllocationScope::VK_SYSTEM_ALLOCATION_SCOPE_CACHE => 2i32,
            VkSystemAllocationScope::VK_SYSTEM_ALLOCATION_SCOPE_DEVICE => 3i32,
            VkSystemAllocationScope::VK_SYSTEM_ALLOCATION_SCOPE_INSTANCE => 4i32,
        }
    }

    /// The integer that the Vulkan API uses for this value.
    pub fn to_raw(self) -> (r: i32)
        ensures
            r == self.raw_value(),
    {
        match self {
            VkSystemAllocationScope::VK_SYSTEM_ALLOCATION_SCOPE_COMMAND => 0i32,
            VkSystemAllocationScope::VK_SYSTEM_ALLOCATION_SCOPE_OBJECT => 1i32,
            VkSystemAllocationScope::VK_SYSTEM_ALLOCATION_SCOPE_CACHE => 2i32,
            VkSystemAllocationScope::VK_SYSTEM_ALLOCATION_SCOPE_DEVICE => 3i32,
            VkSystemAllocationScope::VK_SYSTEM_ALLOCATION_SCOPE_INSTANCE => 4i32,
        }
    }
}

#[allow(non_camel_case_types)]
#[derive(Copy, Clone, PartialEq, Eq, Structural, Debug)]
pub enum VkInternalAllocationType {
    VK_INTERNAL_ALLOCATION_TYPE_EXECUTABLE,
}

impl VkInternalAllocationType {
    /// The integer that the Vulkan API uses for this value.
    pub open spec fn raw_value(self) -> i32 {
        match self {
            VkInternalAllocationType::VK_INTERNAL_ALLOCATION_TYPE_EXECUTABLE => 0i32,
        }
    }

    /// The integer that the Vulkan API uses for this value.
    pub fn to_raw(self) -> (r: i32)
        ensures
            r == self.raw_value(),
    {
        match self {
            VkInternalAllocationType::VK_INTERNAL_ALLOCATION_TYPE_EXECUTABLE => 0i32,
        }
    }
}

#[allow(non_camel_case_types)]
#[derive(Copy, Clone, PartialEq, Eq, Structural, Debug)]
pub enum VkSamplerAddressMode {
    VK_SAMPLER_ADDRESS_MODE_REPEAT,
    VK_SAMPLER_ADDRESS_MODE_MIRRORED_REPEAT,
    VK_SAMPLER_ADDRESS_MODE_CLAMP_TO_EDGE,
    VK_SAMPLER_ADDRESS_MODE_CLAMP_TO_BORDER,
}

impl VkSamplerAddressMode {
    /// The integer that the Vulkan API uses for this value.
    pub open spec fn raw_value(self) -> i32 {
        match self {
            VkSamplerAddressMode::VK_SAMPLER_ADDRESS_MODE_REPEAT => 0i32,
            VkSamplerAddressMode::VK_SAMPLER_ADDRESS_MODE_MIRRORED_REPEAT => 1i32,
            VkSamplerAddressMode::VK_SAMPLER_ADDRESS_MODE_CLAMP_TO_EDGE => 2i32,
            VkSamplerAddressMode::VK_SAMPLER_ADDRESS_MODE_CLAMP_TO_BORDER => 3i32,
        }
    }

    /// The integer that the Vulkan API uses for this value.
    pub fn to_raw(self) -> (r: i32)
        ensures
            r == self.raw_value(),
    {
        match self {
            VkSamplerAddressMode::VK_SAMPLER_ADDRESS_MODE_REPEAT => 0i32,
            VkSamplerAddressMode::VK_SAMPLER_ADDRESS_MODE_MIRRORED_REPEAT => 1i32,
            VkSamplerAddressMode::VK_SAMPLER_ADDRESS_MODE_CLAMP_TO_EDGE => 2i32,
            VkSamplerAddressMode::VK_SAMPLER_ADDRESS_MODE_CLAMP_TO_BORDER => 3i32,
        }
    }
}

#[allow(non_camel_case_types)]
#[derive(Copy, Clone, PartialEq, Eq, Structural, Debug)]
pub enum VkFilter {
    VK_FILTER_NEAREST,
    VK_FILTER_LINEAR,
}

impl VkFilter {
    /// The integer that the Vulkan API uses for this value.
    pub open spec fn raw_value(self) -> i32 {
        match self {
            VkFilter::VK_FILTER_NEAREST => 0i32,
            VkFilter::VK_FILTER_LINEAR => 1i32,
        }
    }

    /// The integer that the Vulkan API uses for this value.
    pub fn to_raw(self) -> (r: i32)
        ensures
            r == self.raw_value(),
    {
        match self {
            VkFilter::VK_FILTER_NEAREST => 0i32,
            VkFilter::VK_FILTER_LINEAR => 1i32,
        }
    }
}

#[allow(non_camel_case_types)]
#[derive(Copy, Clone, PartialEq, Eq, Structural, Debug)]
pub enum VkSamplerMipmapMode {
    VK_SAMPLER_MIPMAP_MODE_NEAREST,
    VK_SAMPLER_MIPMAP_MODE_LINEAR,
}

impl VkSamplerMipmapMode {
    /// The integer that the Vulkan API uses for this value.
    pub open spec fn raw_value(self) -> i32 {
        match self {
            VkSamplerMipmapMode::VK_SAMPLER_MIPMAP_MODE_NEAREST => 0i32,
            VkSamplerMipmapMode::VK_SAMPLER_MIPMAP_MODE_LINEAR => 1i32,
        }
    }

    /// The integer that the Vulkan API uses for this value.
    pub fn to_raw(self) -> (r: i32)
        ensures
            r == self.raw_value(),
    {
        match self {
            VkSamplerMipmapMode::VK_SAMPLER_MIPMAP_MODE_NEAREST => 0i32,
            VkSamplerMipmapMode::VK_SAMPLER_MIPMAP_MODE_LINEAR => 1i32,
        }
    }
}

#[allow(non_camel_case_types)]
#[derive(Copy, Clone, PartialEq, Eq, Structural, Debug)]
pub enum VkVertexInputRate {
    VK_VERTEX_INPUT_RATE_VERTEX,
    VK_VERTEX_INPUT_RATE_INSTANCE,
}

impl VkVertexInputRate {
    /// The integer that the Vulkan API uses for this value.
    pub open spec fn raw_value(self) -> i32 {
        match self {
            VkVertexInputRate::VK_VERTEX_INPUT_RATE_VERTEX => 0i32,
            VkVertexInputRate::VK_VERTEX_INPUT_RATE_INSTANCE => 1i32,
        }
    }

    /// The integer that the Vulkan API uses for this value.
    pub fn to_raw(self) -> (r: i32)
        ensures
            r == self.raw_value(),
    {
        match self {
            VkVertexInputRate::VK_VERTEX_INPUT_RATE_VERTEX => 0i32,
            VkVertexInputRate::VK_VERTEX_INPUT_RATE_INSTANCE => 1i32,
        }
    }
}

#[allow(non_camel_case_types)]
#[derive(Copy, Clone, PartialEq, Eq, Structural, Debug)]
pub enum VkPipelineStageFlagBits {
    VK_PIPELINE_STAGE_TOP_OF_PIPE_BIT,
    VK_PIPELINE_STAGE_DRAW_INDIRECT_BIT,
    VK_PIPELINE_STAGE_VERTEX_INPUT_BIT,
    VK_PIPELINE_STAGE_VERTEX_SHADER_BIT,
    VK_PIPELINE_STAGE_TESSELLATION_CONTROL_SHADER_BIT,
    VK_PIPELINE_STAGE_TESSELLATION_EVALUATION_SHADER_BIT,
    VK_PIPELINE_STAGE_GEOMETRY_SHADER_BIT,
    VK_PIPELINE_STAGE_FRAGMENT_SHADER_BIT,
    VK_PIPELINE_STAGE_EARLY_FRAGMENT_TESTS_BIT,
    VK_PIPELINE_STAGE_LATE_FRAGMENT_TESTS_BIT,
    VK_PIPELINE_STAGE_COLOR_ATTACHMENT_OUTPUT_BIT,
    VK_PIPELINE_STAGE_COMPUTE_SHADER_BIT,
    VK_PIPELINE_STAGE_TRANSFER_BIT,
    VK_PIPELINE_STAGE_BOTTOM_OF_PIPE_BIT,
    VK_PIPELINE_STAGE_HOST_BIT,
    VK_PIPELINE_STAGE_ALL_GRAPHICS_BIT,
    VK_PIPELINE_STAGE_ALL_COMMANDS_BIT,
}

impl VkPipelineStageFlagBits {
    /// The integer that the Vulkan API uses for this value.
    pub open spec fn raw_value(self) -> i32 {
        match self {
            VkPipelineStageFlagBits::VK_PIPELINE_STAGE_TOP_OF_PIPE_BIT => 1i32,
            VkPipelineStageFlagBits::VK_PIPELINE_STAGE_DRAW_INDIRECT_BIT => 2i32,
            VkPipelineStageFlagBits::VK_PIPELINE_STAGE_VERTEX_INPUT_BIT => 4i32,
            VkPipelineStageFlagBits::VK_PIPELINE_STAGE_VERTEX_SHADER_BIT => 8i32,
            VkPipelineStageFlagBits::VK_PIPELINE_STAGE_TESSELLATION_CONTROL_SHADER_BIT => 16i32,
            VkPipelineStageFlagBits::VK_PIPELINE_STAGE_TESSELLATION_EVALUATION_SHADER_BIT => 32i32,
            VkPipelineStageFlagBits::VK_PIPELINE_STAGE_GEOMETRY_SHADER_BIT => 64i32,
            VkPipelineStageFlagBits::VK_PIPELINE_STAGE_FRAGMENT_SHADER_BIT => 128i32,
            VkPipelineStageFlagBits::VK_PIPELINE_STAGE_EARLY_FRAGMENT_TESTS_BIT => 256i32,
            VkPipelineStageFlagBits::VK_PIPELINE_STAGE_LATE_FRAGMENT_TESTS_BIT => 512i32,
            VkPipelineStageFlagBits::VK_PIPELINE_STAGE_COLOR_ATTACHMENT_OUTPUT_BIT => 1024i32,
            VkPipelineStageFlagBits::VK_PIPELINE_STAGE_COMPUTE_SHADER_BIT => 2048i32,
            VkPipelineStageFlagBits::VK_PIPELINE_STAGE_TRANSFER_BIT => 4096i32,
            VkPipelineStageFlagBits::VK_PIPELINE_STAGE_BOTTOM_OF_PIPE_BIT => 8192i32,
            VkPipelineStageFlagBits::VK_PIPELINE_STAGE_HOST_BIT => 16384i32,
            VkPipelineStageFlagBits::VK_PIPELINE_STAGE_ALL_GRAPHICS_BIT => 32768i32,
            VkPipelineStageFlagBits::VK_PIPELINE_STAGE_ALL_COMMANDS_BIT => 65536i32,
        }
    }

    /// The integer that the Vulkan API uses for this value.
    pub fn to_raw(self) -> (r: i32)
        ensures
            r == self.raw_value(),
    {
        match self {
            VkPipelineStageFlagBits::VK_PIPELINE_STAGE_TOP_OF_PIPE_BIT => 1i32,
            VkPipelineStageFlagBits::VK_PIPELINE_STAGE_DRAW_INDIRECT_BIT => 2i32,
            VkPipelineStageFlagBits::VK_PIPELINE_STAGE_VERTEX_INPUT_BIT => 4i32,
            VkPipelineStageFlagBits::VK_PIPELINE_STAGE_VERTEX_SHADER_BIT => 8i32,
            VkPipelineStageFlagBits::VK_PIPELINE_STAGE_TESSELLATION_CONTROL_SHADER_BIT => 16i32,
            VkPipelineStageFlagBits::VK_PIPELINE_STAGE_TESSELLATION_EVALUATION_SHADER_BIT => 32i32,
            VkPipelineStageFlagBits::VK_PIPELINE_STAGE_GEOMETRY_SHADER_BIT => 64i32,
            VkPipelineStageFlagBits::VK_PIPELINE_STAGE_FRAGMENT_SHADER_BIT => 128i32,
            VkPipelineStageFlagBits::VK_PIPELINE_STAGE_EARLY_FRAGMENT_TESTS_BIT => 256i32,
            VkPipelineStageFlagBits::VK_PIPELINE_STAGE_LATE_FRAGMENT_TESTS_BIT => 512i32,
            VkPipelineStageFlagBits::VK_PIPELINE_STAGE_COLOR_ATTACHMENT_OUTPUT_BIT => 1024i32,
            VkPipelineStageFlagBits::VK_PIPELINE_STAGE_COMPUTE_SHADER_BIT => 2048i32,
            VkPipelineStageFlagBits::VK_PIPELINE_STAGE_TRANSFER_BIT => 4096i32,
            VkPipelineStageFlagBits::VK_PIPELINE_STAGE_BOTTOM_OF_PIPE_BIT => 8192i32,
            VkPipelineStageFlagBits::VK_PIPELINE_STAGE_HOST_BIT => 16384i32,
            VkPipelineStageFlagBits::VK_PIPELINE_STAGE_ALL_GRAPHICS_BIT => 32768i32,
            VkPipelineStageFlagBits::VK_PIPELINE_STAGE_ALL_COMMANDS_BIT => 65536i32,
        }
    }
}

#[allow(non_camel_case_types)]
#[derive(Copy, Clone, PartialEq, Eq, Structural, Debug)]
pub enum VkSparseImageFormatFlagBits {
    VK_SPARSE_IMAGE_FORMAT_SINGLE_MIPTAIL_BIT,
    VK_SPARSE_IMAGE_FORMAT_ALIGNED_MIP_SIZE_BIT,
    VK_SPARSE_IMAGE_FORMAT_NONSTANDARD_BLOCK_SIZE_BIT,
}

impl VkSparseImageFormatFlagBits {
    /// The integer that the Vulkan API uses for this value.
    pub open spec fn raw_value(self) -> i32 {
        match self {
            VkSparseImageFormatFlagBits::VK_SPARSE_IMAGE_FORMAT_SINGLE_MIPTAIL_BIT => 1i32,
            VkSparseImageFormatFlagBits::VK_SPARSE_IMAGE_FORMAT_ALIGNED_MIP_SIZE_BIT => 2i32,
            VkSparseImageFormatFlagBits::VK_SPARSE_IMAGE_FORMAT_NONSTANDARD_BLOCK_SIZE_BIT => 4i32,
        }
    }

    /// The integer that the Vulkan API uses for this value.
    pub fn to_raw(self) -> (r: i32)
        ensures
            r == self.raw_value(),
    {
        match self {
            VkSparseImageFormatFlagBits::VK_SPARSE_IMAGE_FORMAT_SINGLE_MIPTAIL_BIT => 1i32,
            VkSparseImageFormatFlagBits::VK_SPARSE_IMAGE_FORMAT_ALIGNED_MIP_SIZE_BIT => 2i32,
            VkSparseImageFormatFlagBits::VK_SPARSE_IMAGE_FORMAT_NONSTANDARD_BLOCK_SIZE_BIT => 4i32,
        }
    }
}

#[allow(non_camel_case_types)]
#[derive(Copy, Clone, PartialEq, Eq, Structural, Debug)]
pub enum VkSampleCountFlagBits {
    VK_SAMPLE_COUNT_1_BIT,
    VK_SAMPLE_COUNT_2_BIT,
    VK_SAMPLE_COUNT_4_BIT,
    VK_SAMPLE_COUNT_8_BIT,
    VK_SAMPLE_COUNT_16_BIT,
    VK_SAMPLE_COUNT_32_BIT,
    VK_SAMPLE_COUNT_64_BIT,
}

impl VkSampleCountFlagBits {
    /// The integer that the Vulkan API uses for this value.
    pub open spec fn raw_value(self) -> i32 {
        match self {
            VkSampleCountFlagBits::VK_SAMPLE_COUNT_1_BIT => 1i32,
            VkSampleCountFlagBits::VK_SAMPLE_COUNT_2_BIT => 2i32,
            VkSampleCountFlagBits::VK_SAMPLE_COUNT_4_BIT => 4i32,
            VkSampleCountFlagBits::VK_SAMPLE_COUNT_8_BIT => 8i32,
            VkSampleCountFlagBits::VK_SAMPLE_COUNT_16_BIT => 16i32,
            VkSampleCountFlagBits::VK_SAMPLE_COUNT_32_BIT => 32i32,
            VkSampleCountFlagBits::VK_SAMPLE_COUNT_64_BIT => 64i32,
        }
    }

    /// The integer that the Vulkan API uses for this value.
    pub fn to_raw(self) -> (r: i32)
        ensures
            r == self.raw_value(),
    {
        match self {
            VkSampleCountFlagBits::VK_SAMPLE_COUNT_1_BIT => 1i32,
            VkSampleCountFlagBits::VK_SAMPLE_COUNT_2_BIT => 2i32,
            VkSampleCountFlagBits::VK_SAMPLE_COUNT_4_BIT => 4i32,
            VkSampleCountFlagBits::VK_SAMPLE_COUNT_8_BIT => 8i32,
            VkSampleCountFlagBits::VK_SAMPLE_COUNT_16_BIT => 16i32,
            VkSampleCountFlagBits::VK_SAMPLE_COUNT_32_BIT => 32i32,
            VkSampleCountFlagBits::VK_SAMPLE_COUNT_64_BIT => 64i32,
        }
    }
}

#[allow(non_camel_case_types)]
#[derive(Copy, Clone, PartialEq, Eq, Structural, Debug)]
pub enum VkAttachmentDescriptionFlagBits {
    VK_ATTACHMENT_DESCRIPTION_MAY_ALIAS_BIT,
}

impl VkAttachmentDescriptionFlagBits {
    /// The integer that the Vulkan API uses for this value.
    pub open spec fn raw_value(self) -> i32 {
        match self {
            VkAttachmentDescriptionFlagBits::VK_ATTACHMENT_DESCRIPTION_MAY_ALIAS_BIT => 1i32,
        }
    }

    /// The integer that the Vulkan API uses for this value.
    pub fn to_raw(self) -> (r: i32)
        ensures
            r == self.raw_value(),
    {
        match self {
            VkAttachmentDescriptionFlagBits::VK_ATTACHMENT_DESCRIPTION_MAY_ALIAS_BIT => 1i32,
        }
    }
}

#[allow(non_camel_case_types)]
#[derive(Copy, Clone, PartialEq, Eq, Structural, Debug)]
pub enum VkDescriptorPoolCreateFlagBits {
    VK_DESCRIPTOR_POOL_CREATE_FREE_DESCRIPTOR_SET_BIT,
}

impl VkDescriptorPoolCreateFlagBits {
    /// The integer that the Vulkan API uses for this value.
    pub open spec fn raw_value(self) -> i32 {
        match self {
            VkDescriptorPoolCreateFlagBits::VK_DESCRIPTOR_POOL_CREATE_FREE_DESCRIPTOR_SET_BIT => 1i32,
        }
    }

    /// The integer that the Vulkan API uses for this value.
    pub fn to_raw(self) -> (r: i32)
        ensures
            r == self.raw_value(),
    {
        match self {
            VkDescriptorPoolCreateFlagBits::VK_DESCRIPTOR_POOL_CREATE_FREE_DESCRIPTOR_SET_BIT => 1i32,
        }
    }
}

#[allow(non_camel_case_types)]
#[derive(Copy, Clone, PartialEq, Eq, Structural, Debug)]
pub enum VkDependencyFlagBits {
    VK_DEPENDENCY_BY_REGION_BIT,
}

impl VkDependencyFlagBits {
    /// The integer that the Vulkan API uses for this value.
    pub open spec fn raw_value(self) -> i32 {
        match self {
            VkDependencyFlagBits::VK_DEPENDENCY_BY_REGION_BIT => 1i32,
        }
    }

    /// The integer that the Vulkan API uses for this value.
    pub fn to_raw(self) -> (r: i32)
        ensures
            r == self.raw_value(),
    {
        match self {
            VkDependencyFlagBits::VK_DEPENDENCY_BY_REGION_BIT => 1i32,
        }
    }
}

#[allow(non_camel_case_types)]
#[derive(Copy, Clone, PartialEq, Eq, Structural, Debug)]
pub enum VkObjectType {
    VK_OBJECT_TYPE_UNKNOWN,
    VK_OBJECT_TYPE_INSTANCE,
    VK_OBJECT_TYPE_PHYSICAL_DEVICE,
    VK_OBJECT_TYPE_DEVICE,
    VK_OBJECT_TYPE_QUEUE,
    VK_OBJECT_TYPE_SEMAPHORE,
    VK_OBJECT_TYPE_COMMAND_BUFFER,
    VK_OBJECT_TYPE_FENCE,
    VK_OBJECT_TYPE_DEVICE_MEMORY,
    VK_OBJECT_TYPE_BUFFER,
    VK_OBJECT_TYPE_IMAGE,
    VK_OBJECT_TYPE_EVENT,
    VK_OBJECT_TYPE_QUERY_POOL,
    VK_OBJECT_TYPE_BUFFER_VIEW,
    VK_OBJECT_TYPE_IMAGE_VIEW,
    VK_OBJECT_TYPE_SHADER_MODULE,
    VK_OBJECT_TYPE_PIPELINE_CACHE,
    VK_OBJECT_TYPE_PIPELINE_LAYOUT,
    VK_OBJECT_TYPE_RENDER_PASS,
    VK_OBJECT_TYPE_PIPELINE,
    VK_OBJECT_TYPE_DESCRIPTOR_SET_LAYOUT,
    VK_OBJECT_TYPE_SAMPLER,
    VK_OBJECT_TYPE_DESCRIPTOR_POOL,
    VK_OBJECT_TYPE_DESCRIPTOR_SET,
    VK_OBJECT_TYPE_FRAMEBUFFER,
    VK_OBJECT_TYPE_COMMAND_POOL,
}

impl VkObjectType {
    /// The integer that the Vulkan API uses for this value.
    pub open spec fn raw_value(self) -> i32 {
        match self {
            VkObjectType::VK_OBJECT_TYPE_UNKNOWN => 0i32,
            VkObjectType::VK_OBJECT_TYPE_INSTANCE => 1i32,
            VkObjectType::VK_OBJECT_TYPE_PHYSICAL_DEVICE => 2i32,
            VkObjectType::VK_OBJECT_TYPE_DEVICE => 3i32,
            VkObjectType::VK_OBJECT_TYPE_QUEUE => 4i32,
            VkObjectType::VK_OBJECT_TYPE_SEMAPHORE => 5i32,
            VkObjectType::VK_OBJECT_TYPE_COMMAND_BUFFER => 6i32,
            VkObjectType::VK_OBJECT_TYPE_FENCE => 7i32,
            VkObjectType::VK_OBJECT_TYPE_DEVICE_MEMORY => 8i32,
            VkObjectType::VK_OBJECT_TYPE_BUFFER => 9i32,
            VkObjectType::VK_OBJECT_TYPE_IMAGE => 10i32,
            VkObjectType::VK_OBJECT_TYPE_EVENT => 11i32,
            VkObjectType::VK_OBJECT_TYPE_QUERY_POOL => 12i32,
            VkObjectType::VK_OBJECT_TYPE_BUFFER_VIEW => 13i32,
            VkObjectType::VK_OBJECT_TYPE_IMAGE_VIEW => 14i32,
            VkObjectType::VK_OBJECT_TYPE_SHADER_MODULE => 15i32,
            VkObjectType::VK_OBJECT_TYPE_PIPELINE_CACHE => 16i32,
            VkObjectType::VK_OBJECT_TYPE_PIPELINE_LAYOUT => 17i32,
            VkObjectType::VK_OBJECT_TYPE_RENDER_PASS => 18i32,
            VkObjectType::VK_OBJECT_TYPE_PIPELINE => 19i32,
            VkObjectType::VK_OBJECT_TYPE_DESCRIPTOR_SET_LAYOUT => 20i32,
            VkObjectType::VK_OBJECT_TYPE_SAMPLER => 21i32,
            VkObjectType::VK_OBJECT_TYPE_DESCRIPTOR_POOL => 22i32,
            VkObjectType::VK_OBJECT_TYPE_DESCRIPTOR_SET => 23i32,
            VkObjectType::VK_OBJECT_TYPE_FRAMEBUFFER => 24i32,
            VkObjectType::VK_OBJECT_TYPE_COMMAND_POOL => 25i32,
        }
    }

    /// The integer that the Vulkan API uses for this value.
    pub fn to_raw(self) -> (r: i32)
        ensures
            r == self.raw_value(),
    {
        match self {
            VkObjectType::VK_OBJECT_TYPE_UNKNOWN => 0i32,
            VkObjectType::VK_OBJECT_TYPE_INSTANCE => 1i32,
            VkObjectType::VK_OBJECT_TYPE_PHYSICAL_DEVICE => 2i32,
            VkObjectType::VK_OBJECT_TYPE_DEVICE => 3i32,
            VkObjectType::VK_OBJECT_TYPE_QUEUE => 4i32,
            VkObjectType::VK_OBJECT_TYPE_SEMAPHORE => 5i32,
            VkObjectType::VK_OBJECT_TYPE_COMMAND_BUFFER => 6i32,
            VkObjectType::VK_OBJECT_TYPE_FENCE => 7i32,
            VkObjectType::VK_OBJECT_TYPE_DEVICE_MEMORY => 8i32,
            VkObjectType::VK_OBJECT_TYPE_BUFFER => 9i32,
            VkObjectType::VK_OBJECT_TYPE_IMAGE => 10i32,
            VkObjectType::VK_OBJECT_TYPE_EVENT => 11i32,
            VkObjectType::VK_OBJECT_TYPE_QUERY_POOL => 12i32,
            VkObjectType::VK_OBJECT_TYPE_BUFFER_VIEW => 13i32,
            VkObjectType::VK_OBJECT_TYPE_IMAGE_VIEW => 14i32,
            VkObjectType::VK_OBJECT_TYPE_SHADER_MODULE => 15i32,
            VkObjectType::VK_OBJECT_TYPE_PIPELINE_CACHE => 16i32,
            VkObjectType::VK_OBJECT_TYPE_PIPELINE_LAYOUT => 17i32,
            VkObjectType::VK_OBJECT_TYPE_RENDER_PASS => 18i32,
            VkObjectType::VK_OBJECT_TYPE_PIPELINE => 19i32,
            VkObjectType::VK_OBJECT_TYPE_DESCRIPTOR_SET_LAYOUT => 20i32,
            VkObjectType::VK_OBJECT_TYPE_SAMPLER => 21i32,
            VkObjectType::VK_OBJECT_TYPE_DESCRIPTOR_POOL => 22i32,
            VkObjectType::VK_OBJECT_TYPE_DESCRIPTOR_SET => 23i32,
            VkObjectType::VK_OBJECT_TYPE_FRAMEBUFFER => 24i32,
            VkObjectType::VK_OBJECT_TYPE_COMMAND_POOL => 25i32,
        }
    }
}

#[allow(non_camel_case_types)]
#[derive(Copy, Clone, PartialEq, Eq, Structural, Debug)]
pub enum VkExternalMemoryHandleTypeFlagBits {
    VK_EXTERNAL_MEMORY_HANDLE_TYPE_OPAQUE_FD_BIT,
    VK_EXTERNAL_MEMORY_HANDLE_TYPE_OPAQUE_WIN32_BIT,
    VK_EXTERNAL_MEMORY_HANDLE_TYPE_OPAQUE_WIN32_KMT_BIT,
    VK_EXTERNAL_MEMORY_HANDLE_TYPE_D3D11_TEXTURE_BIT,
    VK_EXTERNAL_MEMORY_HANDLE_TYPE_D3D11_TEXTURE_KMT_BIT,
    VK_EXTERNAL_MEMORY_HANDLE_TYPE_D3D12_HEAP_BIT,
    VK_EXTERNAL_MEMORY_HANDLE_TYPE_D3D12_RESOURCE_BIT,
}

impl VkExternalMemoryHandleTypeFlagBits {
    /// The integer that the Vulkan API uses for this value.
    pub open spec fn raw_value(self) -> i32 {
        match self {
            VkExternalMemoryHandleTypeFlagBits::VK_EXTERNAL_MEMORY_HANDLE_TYPE_OPAQUE_FD_BIT => 1i32,
            VkExternalMemoryHandleTypeFlagBits::VK_EXTERNAL_MEMORY_HANDLE_TYPE_OPAQUE_WIN32_BIT => 2i32,
            VkExternalMemoryHandleTypeFlagBits::VK_EXTERNAL_MEMORY_HANDLE_TYPE_OPAQUE_WIN32_KMT_BIT => 4i32,
            VkExternalMemoryHandleTypeFlagBits::VK_EXTERNAL_MEMORY_HANDLE_TYPE_D3D11_TEXTURE_BIT => 8i32,
            VkExternalMemoryHandleTypeFlagBits::VK_EXTERNAL_MEMORY_HANDLE_TYPE_D3D11_TEXTURE_KMT_BIT => 16i32,
            VkExternalMemoryHandleTypeFlagBits::VK_EXTERNAL_MEMORY_HANDLE_TYPE_D3D12_HEAP_BIT => 32i32,
            VkExternalMemoryHandleTypeFlagBits::VK_EXTERNAL_MEMORY_HANDLE_TYPE_D3D12_RESOURCE_BIT => 64i32,
        }
    }

    /// The integer that the Vulkan API uses for this value.
    pub fn to_raw(self) -> (r: i32)
        ensures
            r == self.raw_value(),
    {
        match self {
            VkExternalMemoryHandleTypeFlagBits::VK_EXTERNAL_MEMORY_HANDLE_TYPE_OPAQUE_FD_BIT => 1i32,
            VkExternalMemoryHandleTypeFlagBits::VK_EXTERNAL_MEMORY_HANDLE_TYPE_OPAQUE_WIN32_BIT => 2i32,
            VkExternalMemoryHandleTypeFlagBits::VK_EXTERNAL_MEMORY_HANDLE_TYPE_OPAQUE_WIN32_KMT_BIT => 4i32,
            VkExternalMemoryHandleTypeFlagBits::VK_EXTERNAL_MEMORY_HANDLE_TYPE_D3D11_TEXTURE_BIT => 8i32,
            VkExternalMemoryHandleTypeFlagBits::VK_EXTERNAL_MEMORY_HANDLE_TYPE_D3D11_TEXTURE_KMT_BIT => 16i32,
            VkExternalMemoryHandleTypeFlagBits::VK_EXTERNAL_MEMORY_HANDLE_TYPE_D3D12_HEAP_BIT => 32i32,
            VkExternalMemoryHandleTypeFlagBits::VK_EXTERNAL_MEMORY_HANDLE_TYPE_D3D12_RESOURCE_BIT => 64i32,
        }
    }
}

#[allow(non_camel_case_types)]
#[derive(Copy, Clone, PartialEq, Eq, Structural, Debug)]
pub enum VkExternalMemoryFeatureFlagBits {
    VK_EXTERNAL_MEMORY_FEATURE_DEDICATED_ONLY_BIT,
    VK_EXTERNAL_MEMORY_FEATURE_EXPORTABLE_BIT,
    VK_EXTERNAL_MEMORY_FEATURE_IMPORTABLE_BIT,
}

impl VkExternalMemoryFeatureFlagBits {
    /// The integer that the Vulkan API uses for this value.
    pub open spec fn raw_value(self) -> i32 {
        match self {
            VkExternalMemoryFeatureFlagBits::VK_EXTERNAL_MEMORY_FEATURE_DEDICATED_ONLY_BIT => 1i32,
            VkExternalMemoryFeatureFlagBits::VK_EXTERNAL_MEMORY_FEATURE_EXPORTABLE_BIT => 2i32,
            VkExternalMemoryFeatureFlagBits::VK_EXTERNAL_MEMORY_FEATURE_IMPORTABLE_BIT => 4i32,
        }
    }

    /// The integer that the Vulkan API uses for this value.
    pub fn to_raw(self) -> (r: i32)
        ensures
            r == self.raw_value(),
    {
        match self {
            VkExternalMemoryFeatureFlagBits::VK_EXTERNAL_MEMORY_FEATURE_DEDICATED_ONLY_BIT => 1i32,
            VkExternalMemoryFeatureFlagBits::VK_EXTERNAL_MEMORY_FEATURE_EXPORTABLE_BIT => 2i32,
            VkExternalMemoryFeatureFlagBits::VK_EXTERNAL_MEMORY_FEATURE_IMPORTABLE_BIT => 4i32,
        }
    }
}

#[allow(non_camel_case_types)]
#[derive(Copy, Clone, PartialEq, Eq, Structural, Debug)]
pub enum VkVendorId {
    VK_VENDOR_ID_KHRONOS,
    VK_VENDOR_ID_VIV,
    VK_VENDOR_ID_VSI,
    VK_VENDOR_ID_KAZAN,
    VK_VENDOR_ID_CODEPLAY,
    VK_VENDOR_ID_MESA,
    VK_VENDOR_ID_POCL,
    VK_VENDOR_ID_MOBILEYE,
}

impl VkVendorId {
    /// The integer that the Vulkan API uses for this value.
    pub open spec fn raw_value(self) -> i32 {
        match self {
            VkVendorId::VK_VENDOR_ID_KHRONOS => 65536i32,
            VkVendorId::VK_VENDOR_ID_VIV => 65537i32,
            VkVendorId::VK_VENDOR_ID_VSI => 65538i32,
            VkVendorId::VK_VENDOR_ID_KAZAN => 65539i32,
            VkVendorId::VK_VENDOR_ID_CODEPLAY => 65540i32,
            VkVendorId::VK_VENDOR_ID_MESA => 65541i32,
            VkVendorId::VK_VENDOR_ID_POCL => 65542i32,
            VkVendorId::VK_VENDOR_ID_MOBILEYE => 65543i32,
        }
    }

    /// The integer that the Vulkan API uses for this value.
    pub fn to_raw(self) -> (r: i32)
        ensures
            r == self.raw_value(),
    {
        match self {
            VkVendorId::VK_VENDOR_ID_KHRONOS => 65536i32,
            VkVendorId::VK_VENDOR_ID_VIV => 65537i32,
            VkVendorId::VK_VENDOR_ID_VSI => 65538i32,
            VkVendorId::VK_VENDOR_ID_KAZAN => 65539i32,
            VkVendorId::VK_VENDOR_ID_CODEPLAY => 65540i32,
            VkVendorId::VK_VENDOR_ID_MESA => 65541i32,
            VkVendorId::VK_VENDOR_ID_POCL => 65542i32,
            VkVendorId::VK_VENDOR_ID_MOBILEYE => 65543i32,
        }
    }
}

#[allow(non_snake_case)]
#[derive(Copy, Clone)]
pub struct VkOffset2D {
    x: i32,
    y: i32,
}

#[allow(non_snake_case)]
#[derive(Copy, Clone)]
pub struct VkOffset3D {
    x: i32,
    y: i32,
    z: i32,
}

#[allow(non_snake_case)]
#[derive(Copy, Clone)]
pub struct VkExtent2D {
    width: u32,
    height: u32,
}

#[allow(non_snake_case)]
#[derive(Copy, Clone)]
pub struct VkExtent3D {
    width: u32,
    height: u32,
    depth: u32,
}

#[allow(non_snake_case)]
#[derive(Copy, Clone)]
pub struct VkRect2D {
    offset: VkOffset2D,
    extent: VkExtent2D,
}

#[allow(non_snake_case)]
#[derive(Copy, Clone)]
pub struct VkClearRect {
    rect: VkRect2D,
    baseArrayLayer: u32,
    layerCount: u32,
}

#[allow(non_snake_case)]
#[derive(Copy, Clone)]
pub struct VkComponentMapping {
    r: VkComponentSwizzle,
    g: VkComponentSwizzle,
    b: VkComponentSwizzle,
    a: VkComponentSwizzle,
}

#[allow(non_snake_case)]
#[derive(Copy, Clone)]
pub struct VkExtensionProperties {
    extensionName: i8,
    specVersion: u32,
}

#[allow(non_snake_case)]
#[derive(Copy, Clone)]
pub struct VkLayerProperties {
    layerName: i8,
    specVersion: u32,
    implementationVersion: u32,
    description: i8,
}

#[allow(non_snake_case)]
#[derive(Copy, Clone)]
pub struct VkDescriptorImageInfo {
    sampler: VkSampler,
    imageView: VkImageView,
    imageLayout: VkImageLayout,
}

#[allow(non_snake_case)]
#[derive(Copy, Clone)]
pub struct VkDescriptorPoolSize {
    type_: VkDescriptorType,
    descriptorCount: u32,
}

#[allow(non_snake_case)]
#[derive(Copy, Clone)]
pub struct VkSpecializationMapEntry {
    constantID: u32,
    offset: u32,
    size: usize,
}

#[allow(non_snake_case)]
#[derive(Copy, Clone)]
pub struct VkVertexInputBindingDescription {
    binding: u32,
    stride: u32,
    inputRate: VkVertexInputRate,
}

#[allow(non_snake_case)]
#[derive(Copy, Clone)]
pub struct VkVertexInputAttributeDescription {
    location: u32,
    binding: u32,
    format: VkFormat,
    offset: u32,
}

#[allow(non_snake_case)]
#[derive(Copy, Clone)]
pub struct VkStencilOpState {
    failOp: VkStencilOp,
    passOp: VkStencilOp,
    depthFailOp: VkStencilOp,
    compareOp: VkCompareOp,
    compareMask: u32,
    writeMask: u32,
    reference: u32,
}

#[allow(non_snake_case)]
#[derive(Copy, Clone)]
pub struct VkPipelineCacheHeaderVersionOne {
    headerSize: u32,
    headerVersion: VkPipelineCacheHeaderVersion,
    vendorID: u32,
    deviceID: u32,
    pipelineCacheUUID: u8,
}

#[allow(non_snake_case)]
#[derive(Copy, Clone)]
pub struct VkAttachmentReference {
    attachment: u32,
    layout: VkImageLayout,
}

#[allow(non_snake_case)]
#[derive(Copy, Clone)]
pub struct VkDrawIndirectCommand {
    vertexCount: u32,
    instanceCount: u32,
    firstVertex: u32,
    firstInstance: u32,
}

#[allow(non_snake_case)]
#[derive(Copy, Clone)]
pub struct VkDrawIndexedIndirectCommand {
    indexCount: u32,
    instanceCount: u32,
    firstIndex: u32,
    vertexOffset: i32,
    firstInstance: u32,
}

#[allow(non_snake_case)]
#[derive(Copy, Clone)]
pub struct VkDispatchIndirectCommand {
    x: u32,
    y: u32,
    z: u32,
}

#[allow(non_snake_case)]
#[derive(Copy, Clone)]
pub struct VkQueueFamilyProperties {
    queueFlags: VkQueueFlags,
    queueCount: u32,
    timestampValidBits: u32,
    minImageTransferGranularity: VkExtent3D,
}

#[allow(non_snake_case)]
#[derive(Copy, Clone)]
pub struct VkMemoryRequirements {
    size: VkDeviceSize,
    alignment: VkDeviceSize,
    memoryTypeBits: u32,
}

#[allow(non_snake_case)]
#[derive(Copy, Clone)]
pub struct VkSparseImageFormatProperties {
    aspectMask: VkImageAspectFlags,
    imageGranularity: VkExtent3D,
    flags: VkSparseImageFormatFlags,
}

#[allow(non_snake_case)]
#[derive(Copy, Clone)]
pub struct VkSparseImageMemoryRequirements {
    formatProperties: VkSparseImageFormatProperties,
    imageMipTailFirstLod: u32,
    imageMipTailSize: VkDeviceSize,
    imageMipTailOffset: VkDeviceSize,
    imageMipTailStride: VkDeviceSize,
}

#[allow(non_snake_case)]
#[derive(Copy, Clone)]
pub struct VkMemoryType {
    propertyFlags: VkMemoryPropertyFlags,
    heapIndex: u32,
}

#[allow(non_snake_case)]
#[derive(Copy, Clone)]
pub struct VkMemoryHeap {
    size: VkDeviceSize,
    flags: VkMemoryHeapFlags,
}

#[allow(non_snake_case)]
#[derive(Copy, Clone)]
pub struct VkFormatProperties {
    linearTilingFeatures: VkFormatFeatureFlags,
    optimalTilingFeatures: VkFormatFeatureFlags,
    bufferFeatures: VkFormatFeatureFlags,
}

#[allow(non_snake_case)]
#[derive(Copy, Clone)]
pub struct VkImageFormatProperties {
    maxExtent: VkExtent3D,
    maxMipLevels: u32,
    maxArrayLayers: u32,
    sampleCounts: VkSampleCountFlags,
    maxResourceSize: VkDeviceSize,
}

#[allow(non_snake_case)]
#[derive(Copy, Clone)]
pub struct VkDescriptorBufferInfo {
    buffer: VkBuffer,
    offset: VkDeviceSize,
    range: VkDeviceSize,
}

#[allow(non_snake_case)]
#[derive(Copy, Clone)]
pub struct VkImageSubresource {
    aspectMask: VkImageAspectFlags,
    mipLevel: u32,
    arrayLayer: u32,
}

#[allow(non_snake_case)]
#[derive(Copy, Clone)]
pub struct VkImageSubresourceLayers {
    aspectMask: VkImageAspectFlags,
    mipLevel: u32,
    baseArrayLayer: u32,
    layerCount: u32,
}

#[allow(non_snake_case)]
#[derive(Copy, Clone)]
pub struct VkImageSubresourceRange {
    aspectMask: VkImageAspectFlags,
    baseMipLevel: u32,
    levelCount: u32,
    baseArrayLayer: u32,
    layerCount: u32,
}

#[allow(non_snake_case)]
#[derive(Copy, Clone)]
pub struct VkSubresourceLayout {
    offset: VkDeviceSize,
    size: VkDeviceSize,
    rowPitch: VkDeviceSize,
    arrayPitch: VkDeviceSize,
    depthPitch: VkDeviceSize,
}

#[allow(non_snake_case)]
#[derive(Copy, Clone)]
pub struct VkBufferCopy {
    srcOffset: VkDeviceSize,
    dstOffset: VkDeviceSize,
    size: VkDeviceSize,
}

#[allow(non_snake_case)]
#[derive(Copy, Clone)]
pub struct VkSparseMemoryBind {
    resourceOffset: VkDeviceSize,
    size: VkDeviceSize,
    memory: VkDeviceMemory,
    memoryOffset: VkDeviceSize,
    flags: VkSparseMemoryBindFlags,
}

#[allow(non_snake_case)]
#[derive(Copy, Clone)]
pub struct VkSparseImageMemoryBind {
    subresource: VkImageSubresource,
    offset: VkOffset3D,
    extent: VkExtent3D,
    memory: VkDeviceMemory,
    memoryOffset: VkDeviceSize,
    flags: VkSparseMemoryBindFlags,
}

#[allow(non_snake_case)]
#[derive(Copy, Clone)]
pub struct VkImageCopy {
    srcSubresource: VkImageSubresourceLayers,
    srcOffset: VkOffset3D,
    dstSubresource: VkImageSubresourceLayers,
    dstOffset: VkOffset3D,
    extent: VkExtent3D,
}

#[allow(non_snake_case)]
#[derive(Copy, Clone)]
pub struct VkImageBlit {
    srcSubresource: VkImageSubresourceLayers,
    srcOffsets: [VkOffset3D; 2],
    dstSubresource: VkImageSubresourceLayers,
    dstOffsets: [VkOffset3D; 2],
}

#[allow(non_snake_case)]
#[derive(Copy, Clone)]
pub struct VkBufferImageCopy {
    bufferOffset: VkDeviceSize,
    bufferRowLength: u32,
    bufferImageHeight: u32,
    imageSubresource: VkImageSubresourceLayers,
    imageOffset: VkOffset3D,
    imageExtent: VkExtent3D,
}

#[allow(non_snake_case)]
#[derive(Copy, Clone)]
pub struct VkImageResolve {
    srcSubresource: VkImageSubresourceLayers,
    srcOffset: VkOffset3D,
    dstSubresource: VkImageSubresourceLayers,
    dstOffset: VkOffset3D,
    extent: VkExtent3D,
}

#[allow(non_snake_case)]
#[derive(Copy, Clone)]
pub struct VkPipelineColorBlendAttachmentState {
    blendEnable: VkBool32,
    srcColorBlendFactor: VkBlendFactor,
    dstColorBlendFactor: VkBlendFactor,
    colorBlendOp: VkBlendOp,
    srcAlphaBlendFactor: VkBlendFactor,
    dstAlphaBlendFactor: VkBlendFactor,
    alphaBlendOp: VkBlendOp,
    colorWriteMask: VkColorComponentFlags,
}

#[allow(non_snake_case)]
#[derive(Copy, Clone)]
pub struct VkPushConstantRange {
    stageFlags: VkShaderStageFlags,
    offset: u32,
    size: u32,
}

#[allow(non_snake_case)]
#[derive(Copy, Clone)]
pub struct VkAttachmentDescription {
    flags: VkAttachmentDescriptionFlags,
    format: VkFormat,
    samples: VkSampleCountFlagBits,
    loadOp: VkAttachmentLoadOp,
    storeOp: VkAttachmentStoreOp,
    stencilLoadOp: VkAttachmentLoadOp,
    stencilStoreOp: VkAttachmentStoreOp,
    initialLayout: VkImageLayout,
    finalLayout: VkImageLayout,
}

#[allow(non_snake_case)]
#[derive(Copy, Clone)]
pub struct VkSubpassDependency {
    srcSubpass: u32,
    dstSubpass: u32,
    srcStageMask: VkPipelineStageFlags,
    dstStageMask: VkPipelineStageFlags,
    srcAccessMask: VkAccessFlags,
    dstAccessMask: VkAccessFlags,
    dependencyFlags: VkDependencyFlags,
}

#[allow(non_snake_case)]
#[derive(Copy, Clone)]
pub struct VkPhysicalDeviceFeatures {
    robustBufferAccess: VkBool32,
    fullDrawIndexUint32: VkBool32,
    imageCubeArray: VkBool32,
    independentBlend: VkBool32,
    geometryShader: VkBool32,
    tessellationShader: VkBool32,
    sampleRateShading: VkBool32,
    dualSrcBlend: VkBool32,
    logicOp: VkBool32,
    multiDrawIndirect: VkBool32,
    drawIndirectFirstInstance: VkBool32,
    depthClamp: VkBool32,
    depthBiasClamp: VkBool32,
    fillModeNonSolid: VkBool32,
    depthBounds: VkBool32,
    wideLines: VkBool32,
    largePoints: VkBool32,
    alphaToOne: VkBool32,
    multiViewport: VkBool32,
    samplerAnisotropy: VkBool32,
    textureCompressionETC2: VkBool32,
    textureCompressionASTC_LDR: VkBool32,
    textureCompressionBC: VkBool32,
    occlusionQueryPrecise: VkBool32,
    pipelineStatisticsQuery: VkBool32,
    vertexPipelineStoresAndAtomics: VkBool32,
    fragmentStoresAndAtomics: VkBool32,
    shaderTessellationAndGeometryPointSize: VkBool32,
    shaderImageGatherExtended: VkBool32,
    shaderStorageImageExtendedFormats: VkBool32,
    shaderStorageImageMultisample: VkBool32,
    shaderStorageImageReadWithoutFormat: VkBool32,
    shaderStorageImageWriteWithoutFormat: VkBool32,
    shaderUniformBufferArrayDynamicIndexing: VkBool32,
    shaderSampledImageArrayDynamicIndexing: VkBool32,
    shaderStorageBufferArrayDynamicIndexing: VkBool32,
    shaderStorageImageArrayDynamicIndexing: VkBool32,
    shaderClipDistance: VkBool32,
    shaderCullDistance: VkBool32,
    shaderFloat64: VkBool32,
    shaderInt64: VkBool32,
    shaderInt16: VkBool32,
    shaderResourceResidency: VkBool32,
    shaderResourceMinLod: VkBool32,
    sparseBinding: VkBool32,
    sparseResidencyBuffer: VkBool32,
    sparseResidencyImage2D: VkBool32,
    sparseResidencyImage3D: VkBool32,
    sparseResidency2Samples: VkBool32,
    sparseResidency4Samples: VkBool32,
    sparseResidency8Samples: VkBool32,
    sparseResidency16Samples: VkBool32,
    sparseResidencyAliased: VkBool32,
    variableMultisampleRate: VkBool32,
    inheritedQueries: VkBool32,
}

#[allow(non_snake_case)]
#[derive(Copy, Clone)]
pub struct VkPhysicalDeviceSparseProperties {
    residencyStandard2DBlockShape: VkBool32,
    residencyStandard2DMultisampleBlockShape: VkBool32,
    residencyStandard3DBlockShape: VkBool32,
    residencyAlignedMipSize: VkBool32,
    residencyNonResidentStrict: VkBool32,
}

#[allow(non_snake_case)]
#[derive(Copy, Clone)]
pub struct VkExternalMemoryProperties {
    externalMemoryFeatures: VkExternalMemoryFeatureFlags,
    exportFromImportedHandleTypes: VkExternalMemoryHandleTypeFlags,
    compatibleHandleTypes: VkExternalMemoryHandleTypeFlags,
}

#[allow(non_snake_case)]
#[derive(Copy, Clone)]
pub struct VkPhysicalDeviceMemoryProperties {
    memoryTypeCount: u32,
    memoryTypes: VkMemoryType,
    memoryHeapCount: u32,
    memoryHeaps: VkMemoryHeap,
}

} // verus!
