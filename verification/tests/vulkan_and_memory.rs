use screen_share::vk_frame::{after_copy_barrier, before_copy_barrier, frame_copy, shared_image_allocation_size, shared_image_info, IMAGE_LAYOUT_PRESENT_SRC_KHR};
use screen_share::vk_commands::{command_names, load, COMMAND_COUNT};
use screen_share::encoder::{
    amf_recv_result, amf_send_result, nv_frame_result, nv_recv_step, AmfOutput, Codec, Config,
    EncSendError, Format, NvMessageKind, NvRecvStep, RecvError, TuningInfo,
};
use screen_share::pipe::{connect_decision, pid_message, shared_handle_from_reply, ConnectDecision, ConnectOutcome};
use screen_share::shmem::{target_still_attached, View};
use screen_share::vk::{
    make_version, select_memory_type_index, version_major, version_minor, version_patch, FnPtr,
    MAX_MEMORY_TYPES, QUEUE_FAMILY_IGNORED,
};
use screen_share::vk_types::{VkFormat, VkResult, VkStructureType};
use std::sync::atomic::Ordering;

#[test]
fn version_packing() {
    let v = make_version(1, 0, 0);
    assert_eq!(v, 0x0040_0000);
    let v = make_version(1, 3, 250);
    assert_eq!(v, (1 << 22) | (3 << 12) | 250);
    assert_eq!(version_major(v), 1);
    assert_eq!(version_minor(v), 3);
    assert_eq!(version_patch(v), 250);
    assert_eq!(make_version(1023, 1023, 4095), u32::MAX);
}

#[test]
fn memory_type_choice() {
    assert_eq!(select_memory_type_index(0, 1), 0);
    assert_eq!(select_memory_type_index(5, 1), 0);
    assert_eq!(select_memory_type_index(5, 0b1010), 3);
    assert_eq!(select_memory_type_index(3, 0b1010), 1);
    assert_eq!(select_memory_type_index(4, 0), 0);
    assert_eq!(select_memory_type_index(MAX_MEMORY_TYPES, 0x8000_0001), 31);
}

#[test]
fn fn_ptr_slots() {
    let trap = 0xdead_0000usize;
    let empty = FnPtr::new(0, trap);
    assert!(!empty.is_loaded());
    assert_eq!(empty.ptr(), trap);
    let loaded = FnPtr::new(0x7ff0_1000, trap);
    assert!(loaded.is_loaded());
    assert_eq!(loaded.ptr(), 0x7ff0_1000);
    let mut slot = FnPtr::new(0, trap);
    slot.aliased(&loaded);
    assert!(slot.is_loaded());
    assert_eq!(slot.ptr(), 0x7ff0_1000);
    let mut kept = FnPtr::new(0x10, trap);
    kept.aliased(&loaded);
    assert_eq!(kept.ptr(), 0x10);
    kept.set_ptr(0, trap);
    assert!(!kept.is_loaded());
    assert_eq!(kept.ptr(), trap);
}

#[test]
fn vulkan_raw_values() {
    assert_eq!(VkResult::VK_SUCCESS.to_raw(), 0);
    assert_eq!(VkResult::VK_ERROR_OUT_OF_HOST_MEMORY.to_raw(), -1);
    assert_eq!(VkFormat::VK_FORMAT_R8G8B8A8_UNORM.to_raw(), 37);
    assert_eq!(VkStructureType::VK_STRUCTURE_TYPE_APPLICATION_INFO.to_raw(), 0);
    assert_eq!(QUEUE_FAMILY_IGNORED, !0u32);
}

#[test]
fn shared_view_counts_holders() {
    let view: View<u64> = View::new();
    assert_eq!(view.ref_count().load(Ordering::SeqCst), 0);
    assert_eq!(view.inc_ref_count(), 0);
    assert_eq!(view.inc_ref_count(), 1);
    assert_eq!(view.ref_count().load(Ordering::SeqCst), 2);
    assert_eq!(view.dec_ref_count(), 2);
    assert_eq!(*view.get(), 0);
    let mut view = view;
    *view.get_mut() = 9;
    assert_eq!(*view.get(), 9);
}

#[test]
fn holder_counts_decide() {
    // Created by the injector, not yet opened by the capture library.
    assert!(target_still_attached(false, 1));
    // Opened by the capture library.
    assert!(target_still_attached(true, 2));
    // The capture library has left again.
    assert!(!target_still_attached(true, 1));
}

#[test]
fn pipe_messages() {
    assert_eq!(pid_message(0x0102_0304), vec![4, 3, 2, 1]);
    assert_eq!(shared_handle_from_reply(&[0x10, 0x20, 0, 0, 0, 0, 0, 0]), 0x2010);
    assert_eq!(connect_decision(ConnectOutcome::NotFound), ConnectDecision::Retry);
    assert_eq!(connect_decision(ConnectOutcome::OtherError), ConnectDecision::ReportAndRetry);
    assert_eq!(connect_decision(ConnectOutcome::Connected), ConnectDecision::Proceed);
}

#[test]
fn encoder_config() {
    let config = Config {
        codec: Codec::H264,
        tuning_info: TuningInfo::UltraLowLatency,
        format: Format::RGBA,
        target_bit_rate: 8_000_000,
        resolution: [1920, 1080],
        frame_rate: [60, 1],
        gop_len: 60,
    };
    let copy = config;
    assert_eq!(copy.resolution, [1920, 1080]);
    assert_eq!(copy.tuning_info, TuningInfo::UltraLowLatency);
}

#[test]
fn encoder_receive_decisions() {
    assert_eq!(amf_recv_result(AmfOutput::Data), Ok(()));
    assert_eq!(amf_recv_result(AmfOutput::Repeat), Err(RecvError::Repeat));
    assert_eq!(amf_recv_result(AmfOutput::Eof), Err(RecvError::Eof));
    assert_eq!(nv_recv_step(NvMessageKind::Frame), NvRecvStep::ReadFrame);
    assert_eq!(nv_recv_step(NvMessageKind::End), NvRecvStep::Stop(RecvError::Eof));
    assert_eq!(nv_recv_step(NvMessageKind::Empty), NvRecvStep::Stop(RecvError::Repeat));
    assert_eq!(nv_recv_step(NvMessageKind::Disconnected), NvRecvStep::Stop(RecvError::Eof));
    assert_eq!(nv_frame_result(true, true), Err(RecvError::Repeat));
    assert_eq!(nv_frame_result(false, true), Ok(()));
    assert_eq!(nv_frame_result(false, false), Err(RecvError::Eof));
    assert_eq!(amf_send_result(true), Err(EncSendError::InputFull));
    assert_eq!(amf_send_result(false), Ok(()));
}

#[test]
fn large_vulkan_values() {
    assert_eq!(
        VkStructureType::VK_STRUCTURE_TYPE_EXTERNAL_MEMORY_IMAGE_CREATE_INFO.to_raw(),
        1000072001
    );
    assert_eq!(VkResult::VK_ERROR_INVALID_EXTERNAL_HANDLE.to_raw(), -1000072003);
}

#[test]
fn command_names_are_the_loaded_entry_points_in_order() {
    let names = command_names();
    assert_eq!(names.len(), COMMAND_COUNT);
    assert_eq!(names.len(), 138);
    assert_eq!(names[0], "vkAllocateCommandBuffers");
    assert_eq!(names[137], "vkWaitForFences");
    assert!(!names.contains(&"vkGetMemoryWin32HandleKHR"));
    let mut sorted = names.clone();
    sorted.sort();
    sorted.dedup();
    assert_eq!(sorted.len(), names.len());
}

#[test]
fn load_fills_each_slot_from_the_loader() {
    let trap = 0x4000usize;
    let names = command_names();
    let slots = load(
        |name: &'static str| {
            if name == "vkCreateBuffer" {
                0
            } else {
                0x10_0000 + name.len()
            }
        },
        trap,
    );
    assert_eq!(slots.len(), COMMAND_COUNT);
    for (name, slot) in names.iter().zip(slots.iter()) {
        if *name == "vkCreateBuffer" {
            assert!(!slot.is_loaded());
            assert_eq!(slot.ptr(), trap);
        } else {
            assert!(slot.is_loaded());
            assert_eq!(slot.ptr(), 0x10_0000 + name.len());
        }
    }
}

#[test]
fn shared_image_is_full_hd_snorm() {
    let info = shared_image_info();
    assert_eq!((info.width, info.height, info.depth), (1920, 1080, 1));
    assert_eq!(info.format, 38);
    assert_eq!(info.image_type, 1);
    assert_eq!((info.mip_levels, info.array_layers, info.samples), (1, 1, 1));
    assert_eq!(info.initial_layout, 7);
    assert_eq!(info.sharing_mode, 0);
    assert_eq!(info.usage, 0x12);
    assert_eq!(shared_image_allocation_size(), 1920 * 1080 * 4);
}

#[test]
fn barriers_hand_the_image_back_as_presented() {
    let before = before_copy_barrier();
    let after = after_copy_barrier();
    assert_eq!(before.old_layout, IMAGE_LAYOUT_PRESENT_SRC_KHR);
    assert_eq!(before.new_layout, 6);
    assert_eq!((before.src_access_mask, before.dst_access_mask), (0x8000, 0x800));
    assert_eq!((before.src_stage_mask, before.dst_stage_mask), (0x1000, 0x1000));
    assert_eq!(before.dependency_flags, 0);
    assert_eq!((after.old_layout, after.new_layout), (6, IMAGE_LAYOUT_PRESENT_SRC_KHR));
    assert_eq!((after.src_access_mask, after.dst_access_mask), (0x800, 0x8000));
    assert_eq!((after.src_stage_mask, after.dst_stage_mask), (0x1000, 0x2));
    assert_eq!(after.dependency_flags, 4);
    assert_eq!(before.range, after.range);
    assert_eq!(before.range.aspect_mask, 1);
    assert_eq!(before.src_queue_family, u32::MAX);
    let copy = frame_copy();
    assert_eq!((copy.src_layout, copy.dst_layout), (6, 7));
    assert_eq!(copy.src_subresource.mip_level, 1);
    assert_eq!(copy.src_subresource, copy.dst_subresource);
}
