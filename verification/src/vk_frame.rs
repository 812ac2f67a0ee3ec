//! What the Vulkan capture path hands the API: the image it creates over the
//! shared Direct3D 11 texture, the memory it imports for that image, and the
//! barriers and copy region around the copy of each presented image. Every
//! value is the API's raw integer.

use vstd::prelude::*;
use crate::vk::QUEUE_FAMILY_IGNORED;
use crate::vk_types::{
    VkAccessFlagBits, VkFormat, VkImageAspectFlagBits, VkImageLayout, VkImageType,
    VkImageUsageFlagBits, VkPipelineStageFlagBits, VkSampleCountFlagBits, VkSharingMode,
};

verus! {

/// The layout in which a swap-chain image is presented (`VK_KHR_swapchain`).
pub const IMAGE_LAYOUT_PRESENT_SRC_KHR: i32 = 1000001002i32;

/// The dependency flag that makes a barrier span the device group.
pub const DEPENDENCY_DEVICE_GROUP_BIT: u32 = 4u32;

/// The width of the shared image.
pub const SHARED_IMAGE_WIDTH: u32 = 1920u32;

/// The height of the shared image.
pub const SHARED_IMAGE_HEIGHT: u32 = 1080u32;

/// The creation parameters of the image over the shared texture.
#[derive(Clone, Copy, PartialEq, Eq, Structural, Debug)]
pub struct SharedImageInfo {
    pub image_type: i32,
    pub format: i32,
    pub width: u32,
    pub height: u32,
    pub depth: u32,
    pub mip_levels: u32,
    pub array_layers: u32,
    pub samples: u32,
    pub initial_layout: i32,
    pub sharing_mode: i32,
    pub usage: u32,
}

/// A 2D image of 1920 by 1080 texels in `R8G8B8A8_SNORM`, one mip level and
/// one layer, one sample, created in the transfer-destination layout for
/// exclusive use as a transfer destination and colour attachment.
pub open spec fn shared_image_info_spec() -> SharedImageInfo {
    SharedImageInfo {
        image_type: VkImageType::VK_IMAGE_TYPE_2D.raw_value(),
        format: VkFormat::VK_FORMAT_R8G8B8A8_SNORM.raw_value(),
        width: SHARED_IMAGE_WIDTH,
        height: SHARED_IMAGE_HEIGHT,
        depth: 1,
        mip_levels: 1,
        array_layers: 1,
        samples: 1,
        initial_layout: VkImageLayout::VK_IMAGE_LAYOUT_TRANSFER_DST_OPTIMAL.raw_value(),
        sharing_mode: VkSharingMode::VK_SHARING_MODE_EXCLUSIVE.raw_value(),
        // transfer destination (0x2) and colour attachment (0x10)
        usage: 0x12,
    }
}

/// The creation parameters of the image over the shared texture.
pub fn shared_image_info() -> (r: SharedImageInfo)
    ensures
        r == shared_image_info_spec(),
        r.width == 1920,
        r.height == 1080,
        r.depth == 1,
        r.mip_levels == 1,
        r.array_layers == 1,
        r.samples == 1,
        r.format == 38,
        r.initial_layout == 7,
        r.usage == 0x12,
{
    let transfer_dst = VkImageUsageFlagBits::VK_IMAGE_USAGE_TRANSFER_DST_BIT.to_raw() as u32;
    let color_attachment = VkImageUsageFlagBits::VK_IMAGE_USAGE_COLOR_ATTACHMENT_BIT.to_raw() as u32;
    assert(2u32 | 16u32 == 0x12u32) by (bit_vector);
    SharedImageInfo {
        image_type: VkImageType::VK_IMAGE_TYPE_2D.to_raw(),
        format: VkFormat::VK_FORMAT_R8G8B8A8_SNORM.to_raw(),
        width: SHARED_IMAGE_WIDTH,
        height: SHARED_IMAGE_HEIGHT,
        depth: 1,
        mip_levels: 1,
        array_layers: 1,
        samples: VkSampleCountFlagBits::VK_SAMPLE_COUNT_1_BIT.to_raw() as u32,
        initial_layout: VkImageLayout::VK_IMAGE_LAYOUT_TRANSFER_DST_OPTIMAL.to_raw(),
        sharing_mode: VkSharingMode::VK_SHARING_MODE_EXCLUSIVE.to_raw(),
        usage: transfer_dst | color_attachment,
    }
}

/// The size of the memory imported for the shared image: four bytes per
/// texel.
pub fn shared_image_allocation_size() -> (r: u64)
    ensures
        r == SHARED_IMAGE_WIDTH * SHARED_IMAGE_HEIGHT * 4,
{
    (SHARED_IMAGE_WIDTH as u64) * (SHARED_IMAGE_HEIGHT as u64) * 4
}

/// The colour aspect of the first mip level and array layer of an image.
#[derive(Clone, Copy, PartialEq, Eq, Structural, Debug)]
pub struct ColorRange {
    pub aspect_mask: u32,
    pub base_mip_level: u32,
    pub level_count: u32,
    pub base_array_layer: u32,
    pub layer_count: u32,
}

/// A layout transition of the presented image, with the stages it waits on.
#[derive(Clone, Copy, PartialEq, Eq, Structural, Debug)]
pub struct ImageBarrier {
    pub old_layout: i32,
    pub new_layout: i32,
    pub src_access_mask: u32,
    pub dst_access_mask: u32,
    pub src_queue_family: u32,
    pub dst_queue_family: u32,
    pub range: ColorRange,
    pub src_stage_mask: u32,
    pub dst_stage_mask: u32,
    pub dependency_flags: u32,
}

/// The colour aspect of mip level zero, layer zero, one level and one layer.
pub open spec fn color_range_spec() -> ColorRange {
    ColorRange {
        aspect_mask: 1,
        base_mip_level: 0,
        level_count: 1,
        base_array_layer: 0,
        layer_count: 1,
    }
}

/// The access mask of memory reads.
pub open spec fn memory_read() -> u32 {
    VkAccessFlagBits::VK_ACCESS_MEMORY_READ_BIT.raw_value() as u32
}

/// The access mask of transfer reads.
pub open spec fn transfer_read() -> u32 {
    VkAccessFlagBits::VK_ACCESS_TRANSFER_READ_BIT.raw_value() as u32
}

/// The stage mask of the transfer stage.
pub open spec fn transfer_stage() -> u32 {
    VkPipelineStageFlagBits::VK_PIPELINE_STAGE_TRANSFER_BIT.raw_value() as u32
}

/// The stage mask of the indirect-draw stage.
pub open spec fn draw_indirect_stage() -> u32 {
    VkPipelineStageFlagBits::VK_PIPELINE_STAGE_DRAW_INDIRECT_BIT.raw_value() as u32
}

/// Before the copy: the presented image moves from the present layout to the
/// transfer-source layout, memory reads before transfer reads, between
/// transfer stages, with no dependency flag.
pub open spec fn before_copy_barrier_spec() -> ImageBarrier {
    ImageBarrier {
        old_layout: IMAGE_LAYOUT_PRESENT_SRC_KHR,
        new_layout: VkImageLayout::VK_IMAGE_LAYOUT_TRANSFER_SRC_OPTIMAL.raw_value(),
        src_access_mask: memory_read(),
        dst_access_mask: transfer_read(),
        src_queue_family: QUEUE_FAMILY_IGNORED,
        dst_queue_family: QUEUE_FAMILY_IGNORED,
        range: color_range_spec(),
        src_stage_mask: transfer_stage(),
        dst_stage_mask: transfer_stage(),
        dependency_flags: 0,
    }
}

/// After the copy: the image goes back to the present layout, transfer reads
/// before memory reads, from the transfer stage to the indirect-draw stage,
/// across the device group.
pub open spec fn after_copy_barrier_spec() -> ImageBarrier {
    ImageBarrier {
        old_layout: VkImageLayout::VK_IMAGE_LAYOUT_TRANSFER_SRC_OPTIMAL.raw_value(),
        new_layout: IMAGE_LAYOUT_PRESENT_SRC_KHR,
        src_access_mask: transfer_read(),
        dst_access_mask: memory_read(),
        src_queue_family: QUEUE_FAMILY_IGNORED,
        dst_queue_family: QUEUE_FAMILY_IGNORED,
        range: color_range_spec(),
        src_stage_mask: transfer_stage(),
        dst_stage_mask: draw_indirect_stage(),
        dependency_flags: DEPENDENCY_DEVICE_GROUP_BIT,
    }
}

fn color_range() -> (r: ColorRange)
    ensures
        r == color_range_spec(),
{
    ColorRange {
        aspect_mask: VkImageAspectFlagBits::VK_IMAGE_ASPECT_COLOR_BIT.to_raw() as u32,
        base_mip_level: 0,
        level_count: 1,
        base_array_layer: 0,
        layer_count: 1,
    }
}

/// The barrier recorded before the presented image is copied.
pub fn before_copy_barrier() -> (r: ImageBarrier)
    ensures
        r == before_copy_barrier_spec(),
        r.old_layout == IMAGE_LAYOUT_PRESENT_SRC_KHR,
        r.new_layout == 6,
        r.src_access_mask == 0x8000,
        r.dst_access_mask == 0x800,
        r.src_stage_mask == 0x1000,
        r.dst_stage_mask == 0x1000,
        r.dependency_flags == 0,
        r.src_queue_family == QUEUE_FAMILY_IGNORED,
        r.dst_queue_family == QUEUE_FAMILY_IGNORED,
        r.range.aspect_mask == 1,
        r.range.base_mip_level == 0,
        r.range.level_count == 1,
        r.range.base_array_layer == 0,
        r.range.layer_count == 1,
{
    let transfer = VkPipelineStageFlagBits::VK_PIPELINE_STAGE_TRANSFER_BIT.to_raw() as u32;
    ImageBarrier {
        old_layout: IMAGE_LAYOUT_PRESENT_SRC_KHR,
        new_layout: VkImageLayout::VK_IMAGE_LAYOUT_TRANSFER_SRC_OPTIMAL.to_raw(),
        src_access_mask: VkAccessFlagBits::VK_ACCESS_MEMORY_READ_BIT.to_raw() as u32,
        dst_access_mask: VkAccessFlagBits::VK_ACCESS_TRANSFER_READ_BIT.to_raw() as u32,
        src_queue_family: QUEUE_FAMILY_IGNORED,
        dst_queue_family: QUEUE_FAMILY_IGNORED,
        range: color_range(),
        src_stage_mask: transfer,
        dst_stage_mask: transfer,
        dependency_flags: 0,
    }
}

/// The barrier recorded after the presented image was copied.
pub fn after_copy_barrier() -> (r: ImageBarrier)
    ensures
        r == after_copy_barrier_spec(),
        r.old_layout == 6,
        r.new_layout == IMAGE_LAYOUT_PRESENT_SRC_KHR,
        r.src_access_mask == 0x800,
        r.dst_access_mask == 0x8000,
        r.src_stage_mask == 0x1000,
        r.dst_stage_mask == 0x2,
        r.dependency_flags == DEPENDENCY_DEVICE_GROUP_BIT,
        r.src_queue_family == QUEUE_FAMILY_IGNORED,
        r.dst_queue_family == QUEUE_FAMILY_IGNORED,
        r.range.aspect_mask == 1,
        r.range.base_mip_level == 0,
        r.range.level_count == 1,
        r.range.base_array_layer == 0,
        r.range.layer_count == 1,
{
    ImageBarrier {
        old_layout: VkImageLayout::VK_IMAGE_LAYOUT_TRANSFER_SRC_OPTIMAL.to_raw(),
        new_layout: IMAGE_LAYOUT_PRESENT_SRC_KHR,
        src_access_mask: VkAccessFlagBits::VK_ACCESS_TRANSFER_READ_BIT.to_raw() as u32,
        dst_access_mask: VkAccessFlagBits::VK_ACCESS_MEMORY_READ_BIT.to_raw() as u32,
        src_queue_family: QUEUE_FAMILY_IGNORED,
        dst_queue_family: QUEUE_FAMILY_IGNORED,
        range: color_range(),
        src_stage_mask: VkPipelineStageFlagBits::VK_PIPELINE_STAGE_TRANSFER_BIT.to_raw() as u32,
        dst_stage_mask: VkPipelineStageFlagBits::VK_PIPELINE_STAGE_DRAW_INDIRECT_BIT.to_raw()
            as u32,
        dependency_flags: DEPENDENCY_DEVICE_GROUP_BIT,
    }
}

/// The barrier after the copy undoes the one before it: the presented image
/// is handed back in the layout it was presented in, on the same range, with
/// the access masks reversed. In between, the copy reads the image in the
/// layout the first barrier left it in, and writes the shared image in the
/// layout it was created in.
pub proof fn lemma_barriers_restore_layout()
    ensures
        frame_copy_spec().src_layout == before_copy_barrier_spec().new_layout,
        frame_copy_spec().dst_layout == shared_image_info_spec().initial_layout,
        after_copy_barrier_spec().old_layout == before_copy_barrier_spec().new_layout,
        after_copy_barrier_spec().new_layout == before_copy_barrier_spec().old_layout,
        after_copy_barrier_spec().src_access_mask == before_copy_barrier_spec().dst_access_mask,
        after_copy_barrier_spec().dst_access_mask == before_copy_barrier_spec().src_access_mask,
        after_copy_barrier_spec().range == before_copy_barrier_spec().range,
{
}

/// The copy covers exactly the one colour layer that the shared image has and
/// that the barriers move, on both sides: layer zero, one layer, colour
/// aspect only.
pub proof fn lemma_copy_covers_the_shared_layer()
    ensures
        frame_copy_spec().src_subresource == frame_copy_spec().dst_subresource,
        frame_copy_spec().src_subresource.base_array_layer == 0,
        frame_copy_spec().src_subresource.layer_count == 1,
        frame_copy_spec().src_subresource.aspect_mask == 1,
        frame_copy_spec().src_subresource.layer_count == shared_image_info_spec().array_layers,
        frame_copy_spec().src_subresource.layer_count == before_copy_barrier_spec().range.layer_count,
        frame_copy_spec().src_subresource.base_array_layer
            == before_copy_barrier_spec().range.base_array_layer,
        frame_copy_spec().src_subresource.aspect_mask == before_copy_barrier_spec().range.aspect_mask,
        before_copy_barrier_spec().range.layer_count == 1,
        before_copy_barrier_spec().range.level_count == 1,
        after_copy_barrier_spec().range == before_copy_barrier_spec().range,
{
}

/// One side of the copy region: the colour aspect of mip level one, layer
/// zero, one layer.
#[derive(Clone, Copy, PartialEq, Eq, Structural, Debug)]
pub struct CopySubresource {
    pub aspect_mask: u32,
    pub mip_level: u32,
    pub base_array_layer: u32,
    pub layer_count: u32,
}

/// The copy from the presented image to the shared image.
#[derive(Clone, Copy, PartialEq, Eq, Structural, Debug)]
pub struct FrameCopy {
    pub src_layout: i32,
    pub dst_layout: i32,
    pub src_subresource: CopySubresource,
    pub dst_subresource: CopySubresource,
}

/// From the transfer-source layout into the transfer-destination layout, the
/// same subresource on both sides.
pub open spec fn frame_copy_spec() -> FrameCopy {
    let side = CopySubresource { aspect_mask: 1, mip_level: 1, base_array_layer: 0, layer_count: 1 };
    FrameCopy {
        src_layout: VkImageLayout::VK_IMAGE_LAYOUT_TRANSFER_SRC_OPTIMAL.raw_value(),
        dst_layout: VkImageLayout::VK_IMAGE_LAYOUT_TRANSFER_DST_OPTIMAL.raw_value(),
        src_subresource: side,
        dst_subresource: side,
    }
}

/// The copy recorded between the two barriers.
pub fn frame_copy() -> (r: FrameCopy)
    ensures
        r == frame_copy_spec(),
        r.src_subresource == r.dst_subresource,
        r.src_subresource.aspect_mask == 1,
        r.src_subresource.base_array_layer == 0,
        r.src_subresource.layer_count == 1,
        r.src_subresource.mip_level == 1,
        r.src_layout == 6,
        r.dst_layout == 7,
{
    let side = CopySubresource {
        aspect_mask: VkImageAspectFlagBits::VK_IMAGE_ASPECT_COLOR_BIT.to_raw() as u32,
        mip_level: 1,
        base_array_layer: 0,
        layer_count: 1,
    };
    FrameCopy {
        src_layout: VkImageLayout::VK_IMAGE_LAYOUT_TRANSFER_SRC_OPTIMAL.to_raw(),
        dst_layout: VkImageLayout::VK_IMAGE_LAYOUT_TRANSFER_DST_OPTIMAL.to_raw(),
        src_subresource: side,
        dst_subresource: side,
    }
}

} // verus!
