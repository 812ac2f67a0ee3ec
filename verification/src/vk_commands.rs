//! The Vulkan entry points that the capture path loads by name, in the
//! order they are loaded, and the slots that the loader fills.

use vstd::prelude::*;
use crate::vk::FnPtr;

verus! {

/// How many entry points are loaded.
pub const COMMAND_COUNT: usize = 138;

/// The name of the entry point loaded at `index`, in the order the loader
/// asks for them.
pub open spec fn command_name(index: usize) -> &'static str {
    match index {
        0 => "vkAllocateCommandBuffers",
        1 => "vkAllocateDescriptorSets",
        2 => "vkAllocateMemory",
        3 => "vkBeginCommandBuffer",
        4 => "vkBindBufferMemory",
        5 => "vkBindImageMemory",
        6 => "vkCmdBeginQuery",
        7 => "vkCmdBeginRenderPass",
        8 => "vkCmdBindDescriptorSets",
        9 => "vkCmdBindIndexBuffer",
        10 => "vkCmdBindPipeline",
        11 => "vkCmdBindVertexBuffers",
        12 => "vkCmdBlitImage",
        13 => "vkCmdClearAttachments",
        14 => "vkCmdClearColorImage",
        15 => "vkCmdClearDepthStencilImage",
        16 => "vkCmdCopyBuffer",
        17 => "vkCmdCopyBufferToImage",
        18 => "vkCmdCopyImage",
        19 => "vkCmdCopyImageToBuffer",
        20 => "vkCmdCopyQueryPoolResults",
        21 => "vkCmdDispatch",
        22 => "vkCmdDispatchIndirect",
        23 => "vkCmdDraw",
        24 => "vkCmdDrawIndexed",
        25 => "vkCmdDrawIndexedIndirect",
        26 => "vkCmdDrawIndirect",
        27 => "vkCmdEndQuery",
        28 => "vkCmdEndRenderPass",
        29 => "vkCmdExecuteCommands",
        30 => "vkCmdFillBuffer",
        31 => "vkCmdNextSubpass",
        32 => "vkCmdPipelineBarrier",
        33 => "vkCmdPushConstants",
        34 => "vkCmdResetEvent",
        35 => "vkCmdResetQueryPool",
        36 => "vkCmdResolveImage",
        37 => "vkCmdSetBlendConstants",
        38 => "vkCmdSetDepthBias",
        39 => "vkCmdSetDepthBounds",
        40 => "vkCmdSetEvent",
        41 => "vkCmdSetLineWidth",
        42 => "vkCmdSetScissor",
        43 => "vkCmdSetStencilCompareMask",
        44 => "vkCmdSetStencilReference",
        45 => "vkCmdSetStencilWriteMask",
        46 => "vkCmdSetViewport",
        47 => "vkCmdUpdateBuffer",
        48 => "vkCmdWaitEvents",
        49 => "vkCmdWriteTimestamp",
        50 => "vkCreateBuffer",
        51 => "vkCreateBufferView",
        52 => "vkCreateCommandPool",
        53 => "vkCreateComputePipelines",
        54 => "vkCreateDescriptorPool",
        55 => "vkCreateDescriptorSetLayout",
        56 => "vkCreateDevice",
        57 => "vkCreateEvent",
        58 => "vkCreateFence",
        59 => "vkCreateFramebuffer",
        60 => "vkCreateGraphicsPipelines",
        61 => "vkCreateImage",
        62 => "vkCreateImageView",
        63 => "vkCreateInstance",
        64 => "vkCreatePipelineCache",
        65 => "vkCreatePipelineLayout",
        66 => "vkCreateQueryPool",
        67 => "vkCreateRenderPass",
        68 => "vkCreateSampler",
        69 => "vkCreateSemaphore",
        70 => "vkCreateShaderModule",
        71 => "vkDestroyBuffer",
        72 => "vkDestroyBufferView",
        73 => "vkDestroyCommandPool",
        74 => "vkDestroyDescriptorPool",
        75 => "vkDestroyDescriptorSetLayout",
        76 => "vkDestroyDevice",
        77 => "vkDestroyEvent",
        78 => "vkDestroyFence",
        79 => "vkDestroyFramebuffer",
        80 => "vkDestroyImage",
        81 => "vkDestroyImageView",
        82 => "vkDestroyInstance",
        83 => "vkDestroyPipeline",
        84 => "vkDestroyPipelineCache",
        85 => "vkDestroyPipelineLayout",
        86 => "vkDestroyQueryPool",
        87 => "vkDestroyRenderPass",
        88 => "vkDestroySampler",
        89 => "vkDestroySemaphore",
        90 => "vkDestroyShaderModule",
        91 => "vkDeviceWaitIdle",
        92 => "vkEndCommandBuffer",
        93 => "vkEnumerateDeviceExtensionProperties",
        94 => "vkEnumerateDeviceLayerProperties",
        95 => "vkEnumerateInstanceExtensionProperties",
        96 => "vkEnumerateInstanceLayerProperties",
        97 => "vkEnumeratePhysicalDevices",
        98 => "vkFlushMappedMemoryRanges",
        99 => "vkFreeCommandBuffers",
        100 => "vkFreeDescriptorSets",
        101 => "vkFreeMemory",
        102 => "vkGetBufferMemoryRequirements",
        103 => "vkGetDeviceMemoryCommitment",
        104 => "vkGetDeviceProcAddr",
        105 => "vkGetDeviceQueue",
        106 => "vkGetEventStatus",
        107 => "vkGetFenceStatus",
        108 => "vkGetImageMemoryRequirements",
        109 => "vkGetImageSparseMemoryRequirements",
        110 => "vkGetImageSubresourceLayout",
        111 => "vkGetInstanceProcAddr",
        112 => "vkGetPhysicalDeviceExternalBufferPropertiesKHR",
        113 => "vkGetPhysicalDeviceFeatures",
        114 => "vkGetPhysicalDeviceFormatProperties",
        115 => "vkGetPhysicalDeviceImageFormatProperties",
        116 => "vkGetPhysicalDeviceMemoryProperties",
        117 => "vkGetPhysicalDeviceProperties",
        118 => "vkGetPhysicalDeviceQueueFamilyProperties",
        119 => "vkGetPhysicalDeviceSparseImageFormatProperties",
        120 => "vkGetPipelineCacheData",
        121 => "vkGetQueryPoolResults",
        122 => "vkGetRenderAreaGranularity",
        123 => "vkInvalidateMappedMemoryRanges",
        124 => "vkMapMemory",
        125 => "vkMergePipelineCaches",
        126 => "vkQueueBindSparse",
        127 => "vkQueueSubmit",
        128 => "vkQueueWaitIdle",
        129 => "vkResetCommandBuffer",
        130 => "vkResetCommandPool",
        131 => "vkResetDescriptorPool",
        132 => "vkResetEvent",
        133 => "vkResetFences",
        134 => "vkSetEvent",
        135 => "vkUnmapMemory",
        136 => "vkUpdateDescriptorSets",
        137 => "vkWaitForFences",
        _ => "",
    }
}

/// The names of the entry points, in the order they are loaded.
pub open spec fn command_name_list() -> Seq<&'static str> {
    Seq::new(COMMAND_COUNT as nat, |i: int| command_name(i as usize))
}

/// The entry points loaded, by position, each spelled as the Vulkan registry
/// names it; they come in alphabetical order, and no position past the last
/// names one.
pub proof fn lemma_command_name_table()
    ensures
        command_name(0) == "vkAllocateCommandBuffers",
        command_name(1) == "vkAllocateDescriptorSets",
        command_name(2) == "vkAllocateMemory",
        command_name(3) == "vkBeginCommandBuffer",
        command_name(4) == "vkBindBufferMemory",
        command_name(5) == "vkBindImageMemory",
        command_name(6) == "vkCmdBeginQuery",
        command_name(7) == "vkCmdBeginRenderPass",
        command_name(8) == "vkCmdBindDescriptorSets",
        command_name(9) == "vkCmdBindIndexBuffer",
        command_name(10) == "vkCmdBindPipeline",
        command_name(11) == "vkCmdBindVertexBuffers",
        command_name(12) == "vkCmdBlitImage",
        command_name(13) == "vkCmdClearAttachments",
        command_name(14) == "vkCmdClearColorImage",
        command_name(15) == "vkCmdClearDepthStencilImage",
        command_name(16) == "vkCmdCopyBuffer",
        command_name(17) == "vkCmdCopyBufferToImage",
        command_name(18) == "vkCmdCopyImage",
        command_name(19) == "vkCmdCopyImageToBuffer",
        command_name(20) == "vkCmdCopyQueryPoolResults",
        command_name(21) == "vkCmdDispatch",
        command_name(22) == "vkCmdDispatchIndirect",
        command_name(23) == "vkCmdDraw",
        command_name(24) == "vkCmdDrawIndexed",
        command_name(25) == "vkCmdDrawIndexedIndirect",
        command_name(26) == "vkCmdDrawIndirect",
        command_name(27) == "vkCmdEndQuery",
        command_name(28) == "vkCmdEndRenderPass",
        command_name(29) == "vkCmdExecuteCommands",
        command_name(30) == "vkCmdFillBuffer",
        command_name(31) == "vkCmdNextSubpass",
        command_name(32) == "vkCmdPipelineBarrier",
        command_name(33) == "vkCmdPushConstants",
        command_name(34) == "vkCmdResetEvent",
        command_name(35) == "vkCmdResetQueryPool",
        command_name(36) == "vkCmdResolveImage",
        command_name(37) == "vkCmdSetBlendConstants",
        command_name(38) == "vkCmdSetDepthBias",
        command_name(39) == "vkCmdSetDepthBounds",
        command_name(40) == "vkCmdSetEvent",
        command_name(41) == "vkCmdSetLineWidth",
        command_name(42) == "vkCmdSetScissor",
        command_name(43) == "vkCmdSetStencilCompareMask",
        command_name(44) == "vkCmdSetStencilReference",
        command_name(45) == "vkCmdSetStencilWriteMask",
        command_name(46) == "vkCmdSetViewport",
        command_name(47) == "vkCmdUpdateBuffer",
        command_name(48) == "vkCmdWaitEvents",
        command_name(49) == "vkCmdWriteTimestamp",
        command_name(50) == "vkCreateBuffer",
        command_name(51) == "vkCreateBufferView",
        command_name(52) == "vkCreateCommandPool",
        command_name(53) == "vkCreateComputePipelines",
        command_name(54) == "vkCreateDescriptorPool",
        command_name(55) == "vkCreateDescriptorSetLayout",
        command_name(56) == "vkCreateDevice",
        command_name(57) == "vkCreateEvent",
        command_name(58) == "vkCreateFence",
        command_name(59) == "vkCreateFramebuffer",
        command_name(60) == "vkCreateGraphicsPipelines",
        command_name(61) == "vkCreateImage",
        command_name(62) == "vkCreateImageView",
        command_name(63) == "vkCreateInstance",
        command_name(64) == "vkCreatePipelineCache",
        command_name(65) == "vkCreatePipelineLayout",
        command_name(66) == "vkCreateQueryPool",
        command_name(67) == "vkCreateRenderPass",
        command_name(68) == "vkCreateSampler",
        command_name(69) == "vkCreateSemaphore",
        command_name(70) == "vkCreateShaderModule",
        command_name(71) == "vkDestroyBuffer",
        command_name(72) == "vkDestroyBufferView",
        command_name(73) == "vkDestroyCommandPool",
        command_name(74) == "vkDestroyDescriptorPool",
        command_name(75) == "vkDestroyDescriptorSetLayout",
        command_name(76) == "vkDestroyDevice",
        command_name(77) == "vkDestroyEvent",
        command_name(78) == "vkDestroyFence",
        command_name(79) == "vkDestroyFramebuffer",
        command_name(80) == "vkDestroyImage",
        command_name(81) == "vkDestroyImageView",
        command_name(82) == "vkDestroyInstance",
        command_name(83) == "vkDestroyPipeline",
        command_name(84) == "vkDestroyPipelineCache",
        command_name(85) == "vkDestroyPipelineLayout",
        command_name(86) == "vkDestroyQueryPool",
        command_name(87) == "vkDestroyRenderPass",
        command_name(88) == "vkDestroySampler",
        command_name(89) == "vkDestroySemaphore",
        command_name(90) == "vkDestroyShaderModule",
        command_name(91) == "vkDeviceWaitIdle",
        command_name(92) == "vkEndCommandBuffer",
        command_name(93) == "vkEnumerateDeviceExtensionProperties",
        command_name(94) == "vkEnumerateDeviceLayerProperties",
        command_name(95) == "vkEnumerateInstanceExtensionProperties",
        command_name(96) == "vkEnumerateInstanceLayerProperties",
        command_name(97) == "vkEnumeratePhysicalDevices",
        command_name(98) == "vkFlushMappedMemoryRanges",
        command_name(99) == "vkFreeCommandBuffers",
        command_name(100) == "vkFreeDescriptorSets",
        command_name(101) == "vkFreeMemory",
        command_name(102) == "vkGetBufferMemoryRequirements",
        command_name(103) == "vkGetDeviceMemoryCommitment",
        command_name(104) == "vkGetDeviceProcAddr",
        command_name(105) == "vkGetDeviceQueue",
        command_name(106) == "vkGetEventStatus",
        command_name(107) == "vkGetFenceStatus",
        command_name(108) == "vkGetImageMemoryRequirements",
        command_name(109) == "vkGetImageSparseMemoryRequirements",
        command_name(110) == "vkGetImageSubresourceLayout",
        command_name(111) == "vkGetInstanceProcAddr",
        command_name(112) == "vkGetPhysicalDeviceExternalBufferPropertiesKHR",
        command_name(113) == "vkGetPhysicalDeviceFeatures",
        command_name(114) == "vkGetPhysicalDeviceFormatProperties",
        command_name(115) == "vkGetPhysicalDeviceImageFormatProperties",
        command_name(116) == "vkGetPhysicalDeviceMemoryProperties",
        command_name(117) == "vkGetPhysicalDeviceProperties",
        command_name(118) == "vkGetPhysicalDeviceQueueFamilyProperties",
        command_name(119) == "vkGetPhysicalDeviceSparseImageFormatProperties",
        command_name(120) == "vkGetPipelineCacheData",
        command_name(121) == "vkGetQueryPoolResults",
        command_name(122) == "vkGetRenderAreaGranularity",
        command_name(123) == "vkInvalidateMappedMemoryRanges",
        command_name(124) == "vkMapMemory",
        command_name(125) == "vkMergePipelineCaches",
        command_name(126) == "vkQueueBindSparse",
        command_name(127) == "vkQueueSubmit",
        command_name(128) == "vkQueueWaitIdle",
        command_name(129) == "vkResetCommandBuffer",
        command_name(130) == "vkResetCommandPool",
        command_name(131) == "vkResetDescriptorPool",
        command_name(132) == "vkResetEvent",
        command_name(133) == "vkResetFences",
        command_name(134) == "vkSetEvent",
        command_name(135) == "vkUnmapMemory",
        command_name(136) == "vkUpdateDescriptorSets",
        command_name(137) == "vkWaitForFences",
        command_name(COMMAND_COUNT) == "",
{
}

/// The name of the entry point loaded at `index`.
pub fn command_name_at(index: usize) -> (r: &'static str)
    requires
        index < COMMAND_COUNT,
    ensures
        r == command_name(index),
{
    match index {
        0 => "vkAllocateCommandBuffers",
        1 => "vkAllocateDescriptorSets",
        2 => "vkAllocateMemory",
        3 => "vkBeginCommandBuffer",
        4 => "vkBindBufferMemory",
        5 => "vkBindImageMemory",
        6 => "vkCmdBeginQuery",
        7 => "vkCmdBeginRenderPass",
        8 => "vkCmdBindDescriptorSets",
        9 => "vkCmdBindIndexBuffer",
        10 => "vkCmdBindPipeline",
        11 => "vkCmdBindVertexBuffers",
        12 => "vkCmdBlitImage",
        13 => "vkCmdClearAttachments",
        14 => "vkCmdClearColorImage",
        15 => "vkCmdClearDepthStencilImage",
        16 => "vkCmdCopyBuffer",
        17 => "vkCmdCopyBufferToImage",
        18 => "vkCmdCopyImage",
        19 => "vkCmdCopyImageToBuffer",
        20 => "vkCmdCopyQueryPoolResults",
        21 => "vkCmdDispatch",
        22 => "vkCmdDispatchIndirect",
        23 => "vkCmdDraw",
        24 => "vkCmdDrawIndexed",
        25 => "vkCmdDrawIndexedIndirect",
        26 => "vkCmdDrawIndirect",
        27 => "vkCmdEndQuery",
        28 => "vkCmdEndRenderPass",
        29 => "vkCmdExecuteCommands",
        30 => "vkCmdFillBuffer",
        31 => "vkCmdNextSubpass",
        32 => "vkCmdPipelineBarrier",
        33 => "vkCmdPushConstants",
        34 => "vkCmdResetEvent",
        35 => "vkCmdResetQueryPool",
        36 => "vkCmdResolveImage",
        37 => "vkCmdSetBlendConstants",
        38 => "vkCmdSetDepthBias",
        39 => "vkCmdSetDepthBounds",
        40 => "vkCmdSetEvent",
        41 => "vkCmdSetLineWidth",
        42 => "vkCmdSetScissor",
        43 => "vkCmdSetStencilCompareMask",
        44 => "vkCmdSetStencilReference",
        45 => "vkCmdSetStencilWriteMask",
        46 => "vkCmdSetViewport",
        47 => "vkCmdUpdateBuffer",
        48 => "vkCmdWaitEvents",
        49 => "vkCmdWriteTimestamp",
        50 => "vkCreateBuffer",
        51 => "vkCreateBufferView",
        52 => "vkCreateCommandPool",
        53 => "vkCreateComputePipelines",
        54 => "vkCreateDescriptorPool",
        55 => "vkCreateDescriptorSetLayout",
        56 => "vkCreateDevice",
        57 => "vkCreateEvent",
        58 => "vkCreateFence",
        59 => "vkCreateFramebuffer",
        60 => "vkCreateGraphicsPipelines",
        61 => "vkCreateImage",
        62 => "vkCreateImageView",
        63 => "vkCreateInstance",
        64 => "vkCreatePipelineCache",
        65 => "vkCreatePipelineLayout",
        66 => "vkCreateQueryPool",
        67 => "vkCreateRenderPass",
        68 => "vkCreateSampler",
        69 => "vkCreateSemaphore",
        70 => "vkCreateShaderModule",
        71 => "vkDestroyBuffer",
        72 => "vkDestroyBufferView",
        73 => "vkDestroyCommandPool",
        74 => "vkDestroyDescriptorPool",
        75 => "vkDestroyDescriptorSetLayout",
        76 => "vkDestroyDevice",
        77 => "vkDestroyEvent",
        78 => "vkDestroyFence",
        79 => "vkDestroyFramebuffer",
        80 => "vkDestroyImage",
        81 => "vkDestroyImageView",
        82 => "vkDestroyInstance",
        83 => "vkDestroyPipeline",
        84 => "vkDestroyPipelineCache",
        85 => "vkDestroyPipelineLayout",
        86 => "vkDestroyQueryPool",
        87 => "vkDestroyRenderPass",
        88 => "vkDestroySampler",
        89 => "vkDestroySemaphore",
        90 => "vkDestroyShaderModule",
        91 => "vkDeviceWaitIdle",
        92 => "vkEndCommandBuffer",
        93 => "vkEnumerateDeviceExtensionProperties",
        94 => "vkEnumerateDeviceLayerProperties",
        95 => "vkEnumerateInstanceExtensionProperties",
        96 => "vkEnumerateInstanceLayerProperties",
        97 => "vkEnumeratePhysicalDevices",
        98 => "vkFlushMappedMemoryRanges",
        99 => "vkFreeCommandBuffers",
        100 => "vkFreeDescriptorSets",
        101 => "vkFreeMemory",
        102 => "vkGetBufferMemoryRequirements",
        103 => "vkGetDeviceMemoryCommitment",
        104 => "vkGetDeviceProcAddr",
        105 => "vkGetDeviceQueue",
        106 => "vkGetEventStatus",
        107 => "vkGetFenceStatus",
        108 => "vkGetImageMemoryRequirements",
        109 => "vkGetImageSparseMemoryRequirements",
        110 => "vkGetImageSubresourceLayout",
        111 => "vkGetInstanceProcAddr",
        112 => "vkGetPhysicalDeviceExternalBufferPropertiesKHR",
        113 => "vkGetPhysicalDeviceFeatures",
        114 => "vkGetPhysicalDeviceFormatProperties",
        115 => "vkGetPhysicalDeviceImageFormatProperties",
        116 => "vkGetPhysicalDeviceMemoryProperties",
        117 => "vkGetPhysicalDeviceProperties",
        118 => "vkGetPhysicalDeviceQueueFamilyProperties",
        119 => "vkGetPhysicalDeviceSparseImageFormatProperties",
        120 => "vkGetPipelineCacheData",
        121 => "vkGetQueryPoolResults",
        122 => "vkGetRenderAreaGranularity",
        123 => "vkInvalidateMappedMemoryRanges",
        124 => "vkMapMemory",
        125 => "vkMergePipelineCaches",
        126 => "vkQueueBindSparse",
        127 => "vkQueueSubmit",
        128 => "vkQueueWaitIdle",
        129 => "vkResetCommandBuffer",
        130 => "vkResetCommandPool",
        131 => "vkResetDescriptorPool",
        132 => "vkResetEvent",
        133 => "vkResetFences",
        134 => "vkSetEvent",
        135 => "vkUnmapMemory",
        136 => "vkUpdateDescriptorSets",
        137 => "vkWaitForFences",
        _ => "",
    }
}

/// The names of the entry points that the loader is asked for, in order.
pub fn command_names() -> (r: Vec<&'static str>)
    ensures
        r@ == command_name_list(),
        r@.len() == COMMAND_COUNT,
{
    let mut names: Vec<&'static str> = Vec::new();
    let mut i: usize = 0;
    while i < COMMAND_COUNT
        invariant
            i <= COMMAND_COUNT,
            names@.len() == i,
            forall|j: int| 0 <= j < i ==> #[trigger] names@[j] == command_name(j as usize),
        decreases COMMAND_COUNT - i,
    {
        names.push(command_name_at(i));
        i += 1;
    }
    assert(names@ =~= command_name_list());
    names
}

/// Asks `loadfn` for the address of every entry point, in order, and builds
/// one slot per entry point from its answer: a loaded slot holds what the
/// loader returned for that name, and a slot for which it returned null holds
/// the address of the panicking `trap`.
pub fn load<F>(loadfn: F, trap: usize) -> (r: Vec<FnPtr>)
    where
        F: Fn(&'static str) -> usize,
    requires
        forall|name: &'static str| call_requires(loadfn, (name,)),
    ensures
        r@.len() == COMMAND_COUNT,
        forall|i: int|
            0 <= i < COMMAND_COUNT ==> {
                &&& (#[trigger] r@[i]).wf()
                &&& r@[i].loaded() ==> call_ensures(
                    loadfn,
                    (command_name(i as usize),),
                    r@[i].address(),
                )
                &&& !r@[i].loaded() ==> r@[i].address() == trap && call_ensures(
                    loadfn,
                    (command_name(i as usize),),
                    0usize,
                )
            },
{
    let mut slots: Vec<FnPtr> = Vec::new();
    let mut i: usize = 0;
    while i < COMMAND_COUNT
        invariant
            i <= COMMAND_COUNT,
            slots@.len() == i,
            forall|name: &'static str| call_requires(loadfn, (name,)),
            forall|j: int|
                0 <= j < i ==> {
                    &&& (#[trigger] slots@[j]).wf()
                    &&& slots@[j].loaded() ==> call_ensures(
                        loadfn,
                        (command_name(j as usize),),
                        slots@[j].address(),
                    )
                    &&& !slots@[j].loaded() ==> slots@[j].address() == trap && call_ensures(
                        loadfn,
                        (command_name(j as usize),),
                        0usize,
                    )
                },
        decreases COMMAND_COUNT - i,
    {
        let name = command_name_at(i);
        let address = loadfn(name);
        slots.push(FnPtr::new(address, trap));
        i += 1;
    }
    slots
}

} // verus!
