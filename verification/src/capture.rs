//! What the capture hooks decide: the descriptions they hand to the graphics
//! API, which DXGI path handles a present, and what each hook does with the
//! shared texture on a given frame.

use vstd::prelude::*;
use crate::injector::HookedApi;

verus! {

/// `DXGI_FORMAT_UNKNOWN`.
pub const DXGI_FORMAT_UNKNOWN: i32 = 0i32;
/// `DXGI_FORMAT_R8G8B8A8_UNORM`.
pub const DXGI_FORMAT_R8G8B8A8_UNORM: i32 = 28i32;
/// `DXGI_FORMAT_R8G8B8A8_UNORM_SRGB`.
pub const DXGI_FORMAT_R8G8B8A8_UNORM_SRGB: i32 = 29i32;
/// `DXGI_MODE_SCANLINE_ORDER_UNSPECIFIED`.
pub const DXGI_MODE_SCANLINE_ORDER_UNSPECIFIED: i32 = 0i32;
/// `DXGI_MODE_SCALING_UNSPECIFIED`.
pub const DXGI_MODE_SCALING_UNSPECIFIED: i32 = 0i32;
/// `DXGI_USAGE_RENDER_TARGET_OUTPUT`.
pub const DXGI_USAGE_RENDER_TARGET_OUTPUT: u32 = 0x20u32;
/// `DXGI_SWAP_EFFECT_DISCARD`.
pub const DXGI_SWAP_EFFECT_DISCARD: i32 = 0i32;
/// `DXGI_SWAP_EFFECT_FLIP_SEQUENTIAL`.
pub const DXGI_SWAP_EFFECT_FLIP_SEQUENTIAL: i32 = 3i32;
/// `DXGI_SWAP_CHAIN_FLAG_ALLOW_MODE_SWITCH`.
pub const DXGI_SWAP_CHAIN_FLAG_ALLOW_MODE_SWITCH: u32 = 2u32;
/// `D3D12_TEXTURE_COPY_TYPE_SUBRESOURCE_INDEX`.
pub const D3D12_TEXTURE_COPY_TYPE_SUBRESOURCE_INDEX: i32 = 0i32;
/// `E_NOINTERFACE`: the swap chain does not belong to the device kind asked for.
pub const E_NOINTERFACE: i32 = -2147467262i32;

/// A `DXGI_SWAP_CHAIN_DESC`, with the output window given by its handle value.
#[derive(Clone, Copy, PartialEq, Eq, Structural, Debug)]
pub struct SwapChainDescription {
    pub width: u32,
    pub height: u32,
    pub refresh_numerator: u32,
    pub refresh_denominator: u32,
    pub format: i32,
    pub scanline_ordering: i32,
    pub scaling: i32,
    pub sample_count: u32,
    pub sample_quality: u32,
    pub buffer_usage: u32,
    pub buffer_count: u32,
    pub output_window: usize,
    pub windowed: bool,
    pub swap_effect: i32,
    pub flags: u32,
}

/// The swap chain that the DXGI hooks create on their hidden window to find
/// the `Present` entry point: 100x100 at 60 Hz, two flip-model buffers.
pub fn dxgi_swap_chain_desc(window: usize) -> (r: SwapChainDescription)
    ensures
        r == dxgi_swap_chain_desc_spec(window),
        r.sample_count == 1,
        r.sample_quality == 0,
        r.output_window == window,
{
    SwapChainDescription {
        width: 100,
        height: 100,
        refresh_numerator: 60,
        refresh_denominator: 1,
        format: DXGI_FORMAT_R8G8B8A8_UNORM,
        scanline_ordering: DXGI_MODE_SCANLINE_ORDER_UNSPECIFIED,
        scaling: DXGI_MODE_SCALING_UNSPECIFIED,
        sample_count: 1,
        sample_quality: 0,
        buffer_usage: DXGI_USAGE_RENDER_TARGET_OUTPUT,
        buffer_count: 2,
        output_window: window,
        windowed: true,
        swap_effect: DXGI_SWAP_EFFECT_FLIP_SEQUENTIAL,
        flags: 0,
    }
}

/// The swap chain of the single-buffered hidden window that the Direct3D 11
/// hook of the older capture library creates: discard model, mode switch
/// allowed.
pub fn legacy_swap_chain_desc(window: usize) -> (r: SwapChainDescription)
    ensures
        r == (SwapChainDescription {
            buffer_count: 1,
            swap_effect: DXGI_SWAP_EFFECT_DISCARD,
            flags: DXGI_SWAP_CHAIN_FLAG_ALLOW_MODE_SWITCH,
            ..dxgi_swap_chain_desc_spec(window)
        }),
        r.sample_count == 1,
        r.sample_quality == 0,
        r.output_window == window,
{
    let base = dxgi_swap_chain_desc(window);
    SwapChainDescription {
        buffer_count: 1,
        swap_effect: DXGI_SWAP_EFFECT_DISCARD,
        flags: DXGI_SWAP_CHAIN_FLAG_ALLOW_MODE_SWITCH,
        ..base
    }
}

/// The description that `dxgi_swap_chain_desc` returns.
pub open spec fn dxgi_swap_chain_desc_spec(window: usize) -> SwapChainDescription {
    SwapChainDescription {
        width: 100,
        height: 100,
        refresh_numerator: 60,
        refresh_denominator: 1,
        format: DXGI_FORMAT_R8G8B8A8_UNORM,
        scanline_ordering: DXGI_MODE_SCANLINE_ORDER_UNSPECIFIED,
        scaling: DXGI_MODE_SCALING_UNSPECIFIED,
        sample_count: 1,
        sample_quality: 0,
        buffer_usage: DXGI_USAGE_RENDER_TARGET_OUTPUT,
        buffer_count: 2,
        output_window: window,
        windowed: true,
        swap_effect: DXGI_SWAP_EFFECT_FLIP_SEQUENTIAL,
        flags: 0,
    }
}

/// Every swap chain described here is single-sampled (one sample, quality
/// level zero, the only multisample setting every DXGI device accepts) and
/// presents to the window it was asked for.
pub proof fn lemma_swap_chains_single_sampled(window: usize)
    ensures
        dxgi_swap_chain_desc_spec(window).sample_count == 1,
        dxgi_swap_chain_desc_spec(window).sample_quality == 0,
        dxgi_swap_chain_desc_spec(window).output_window == window,
{
}

/// The swap chain of the injector's own window: its size, sRGB colour, two
/// discard-model buffers.
pub fn window_swap_chain_desc(width: u32, height: u32, window: usize) -> (r: SwapChainDescription)
    ensures
        r == (SwapChainDescription {
            width: width,
            height: height,
            format: DXGI_FORMAT_R8G8B8A8_UNORM_SRGB,
            swap_effect: DXGI_SWAP_EFFECT_DISCARD,
            ..dxgi_swap_chain_desc_spec(window)
        }),
        r.sample_count == 1,
        r.sample_quality == 0,
        r.output_window == window,
{
    let base = dxgi_swap_chain_desc(window);
    SwapChainDescription {
        width,
        height,
        format: DXGI_FORMAT_R8G8B8A8_UNORM_SRGB,
        swap_effect: DXGI_SWAP_EFFECT_DISCARD,
        ..base
    }
}

/// A `D3D12_TEXTURE_COPY_LOCATION` that names a whole resource.
#[derive(Clone, Copy)]
pub struct TextureCopyLocation<R> {
    pub copy_type: i32,
    pub resource: R,
    pub subresource_index: u32,
}

/// The copy location of subresource 0 of `texture`.
pub fn texture_copy_location<R>(texture: R) -> (r: TextureCopyLocation<R>)
    ensures
        r.copy_type == D3D12_TEXTURE_COPY_TYPE_SUBRESOURCE_INDEX,
        r.resource == texture,
        r.subresource_index == 0,
{
    TextureCopyLocation {
        copy_type: D3D12_TEXTURE_COPY_TYPE_SUBRESOURCE_INDEX,
        resource: texture,
        subresource_index: 0,
    }
}

/// The DXGI device kinds that a present can belong to, in the order the
/// hook tries them.
#[derive(Clone, Copy, PartialEq, Eq, Structural, Debug)]
pub enum DxgiDevice {
    Dx10,
    Dx11,
    Dx12,
}

/// How one attempt to capture a DXGI present ended.
#[derive(Clone, Copy, PartialEq, Eq, Structural, Debug)]
pub enum HookOutcome {
    /// The attempt went through.
    Done,
    /// The swap chain belongs to another device kind.
    NoInterface,
    /// Another error; the frame is left alone. The Direct3D 10 and 12
    /// attempts print such an error, the Direct3D 11 attempt drops it.
    Failed,
}

/// Classifies an attempt by the error code it returned, if any.
pub fn hook_outcome(error: Option<i32>) -> (r: HookOutcome)
    ensures
        r == (match error {
            None => HookOutcome::Done,
            Some(code) => if code == E_NOINTERFACE {
                HookOutcome::NoInterface
            } else {
                HookOutcome::Failed
            },
        }),
{
    match error {
        None => HookOutcome::Done,
        Some(code) => if code == E_NOINTERFACE {
            HookOutcome::NoInterface
        } else {
            HookOutcome::Failed
        },
    }
}

/// The device kind to try after `tried` ended with `outcome`: only a
/// mismatch moves on, from Direct3D 10 to 11 to 12.
pub fn next_dxgi_device(tried: DxgiDevice, outcome: HookOutcome) -> (r: Option<DxgiDevice>)
    ensures
        r == (match (tried, outcome) {
            (DxgiDevice::Dx10, HookOutcome::NoInterface) => Some(DxgiDevice::Dx11),
            (DxgiDevice::Dx11, HookOutcome::NoInterface) => Some(DxgiDevice::Dx12),
            _ => None,
        }),
{
    match (tried, outcome) {
        (DxgiDevice::Dx10, HookOutcome::NoInterface) => Some(DxgiDevice::Dx11),
        (DxgiDevice::Dx11, HookOutcome::NoInterface) => Some(DxgiDevice::Dx12),
        _ => None,
    }
}

/// The position of a device kind in the order of attempts.
pub open spec fn attempt_rank(d: DxgiDevice) -> nat {
    match d {
        DxgiDevice::Dx10 => 0,
        DxgiDevice::Dx11 => 1,
        DxgiDevice::Dx12 => 2,
    }
}

/// Each present tries every device kind at most once, in order, so a
/// present ends after at most three attempts.
pub proof fn lemma_dxgi_attempts_advance(tried: DxgiDevice, outcome: HookOutcome)
    ensures
        match next_dxgi_device_spec(tried, outcome) {
            Some(next) => attempt_rank(next) == attempt_rank(tried) + 1,
            None => true,
        },
        attempt_rank(tried) == 2 ==> next_dxgi_device_spec(tried, outcome) is None,
{
}

/// The device kind that `next_dxgi_device` returns.
pub open spec fn next_dxgi_device_spec(tried: DxgiDevice, outcome: HookOutcome) -> Option<DxgiDevice> {
    match (tried, outcome) {
        (DxgiDevice::Dx10, HookOutcome::NoInterface) => Some(DxgiDevice::Dx11),
        (DxgiDevice::Dx11, HookOutcome::NoInterface) => Some(DxgiDevice::Dx12),
        _ => None,
    }
}

/// What the DXGI present hook does with the mark that the OpenGL and Vulkan
/// hooks leave when the present is theirs.
#[derive(Clone, Copy, PartialEq, Eq, Structural, Debug)]
pub struct PresentStep {
    /// Whether this present is captured through DXGI.
    pub capture: bool,
    /// The mark after the present.
    pub mark_after: bool,
}

/// A marked present is left to the hook that marked it and the mark is
/// cleared; an unmarked one is captured.
pub fn dxgi_present_step(marked: bool) -> (r: PresentStep)
    ensures
        r == present_step_spec(marked),
{
    PresentStep { capture: !marked, mark_after: false }
}

/// The step that `dxgi_present_step` takes.
pub open spec fn present_step_spec(marked: bool) -> PresentStep {
    PresentStep { capture: !marked, mark_after: false }
}

/// A mark keeps exactly one DXGI present from being captured: the present
/// right after it is skipped, and whatever the mark was, the present after
/// any present is captured.
pub proof fn lemma_mark_consumed_once(marked: bool)
    ensures
        !present_step_spec(true).capture,
        present_step_spec(present_step_spec(marked).mark_after).capture,
{
}

/// What a Direct3D 10 or 11 hook does on a frame.
#[derive(Clone, Copy, PartialEq, Eq, Structural, Debug)]
pub enum SharedTextureAction {
    /// Copy the back buffer into the shared texture.
    CopyBackBuffer,
    /// Open the shared texture from the handle in shared memory.
    OpenSharedTexture,
    /// Nothing to do yet.
    Wait,
}

/// Copy once the shared texture is open; otherwise open it as soon as the
/// injector has published its handle.
pub fn shared_texture_action(texture_open: bool, handle_published: bool) -> (r: SharedTextureAction)
    ensures
        r == (if texture_open {
            SharedTextureAction::CopyBackBuffer
        } else if handle_published {
            SharedTextureAction::OpenSharedTexture
        } else {
            SharedTextureAction::Wait
        }),
{
    if texture_open {
        SharedTextureAction::CopyBackBuffer
    } else if handle_published {
        SharedTextureAction::OpenSharedTexture
    } else {
        SharedTextureAction::Wait
    }
}

/// What the Direct3D 12 hook does on a frame.
#[derive(Clone, Copy, PartialEq, Eq, Structural, Debug)]
pub enum Dx12Action {
    /// Record and run a copy of the back buffer into the shared texture.
    CopyBackBuffer,
    /// Create the copy queue, allocator and command list.
    CreateCopyQueue,
    /// Open the shared texture from the handle in shared memory.
    OpenSharedTexture,
    /// Nothing to do yet.
    Wait,
}

/// The Direct3D 12 hook first opens the shared texture, then builds its copy
/// queue on the next frame, then copies on every frame after that.
pub fn dx12_action(texture_open: bool, queue_ready: bool, handle_published: bool) -> (r: Dx12Action)
    ensures
        r == (if texture_open {
            if queue_ready {
                Dx12Action::CopyBackBuffer
            } else {
                Dx12Action::CreateCopyQueue
            }
        } else if handle_published {
            Dx12Action::OpenSharedTexture
        } else {
            Dx12Action::Wait
        }),
{
    if texture_open {
        if queue_ready {
            Dx12Action::CopyBackBuffer
        } else {
            Dx12Action::CreateCopyQueue
        }
    } else if handle_published {
        Dx12Action::OpenSharedTexture
    } else {
        Dx12Action::Wait
    }
}

/// What the Vulkan present hook does on a frame.
#[derive(Clone, Copy, PartialEq, Eq, Structural, Debug)]
pub enum VkAction {
    /// Copy the presented image into the imported shared image.
    CopyImage,
    /// Import the shared texture as an image and create the command pool.
    ImportSharedImage,
    /// Nothing to do: no device seen yet, or no handle published.
    Wait,
}

/// The Vulkan hook acts only once it has seen the device; it imports the
/// shared texture first and copies on later frames.
pub fn vk_action(device_known: bool, image_ready: bool, handle_published: bool) -> (r: VkAction)
    ensures
        r == (if !device_known {
            VkAction::Wait
        } else if image_ready {
            VkAction::CopyImage
        } else if handle_published {
            VkAction::ImportSharedImage
        } else {
            VkAction::Wait
        }),
{
    if !device_known {
        VkAction::Wait
    } else if image_ready {
        VkAction::CopyImage
    } else if handle_published {
        VkAction::ImportSharedImage
    } else {
        VkAction::Wait
    }
}

/// The size in bytes of an RGBA8 frame of `width` by `height` pixels.
pub fn rgba_frame_len(width: u32, height: u32) -> (r: u32)
    requires
        width * height * 4 <= u32::MAX,
    ensures
        r == width * height * 4,
{
    proof {
        assert(width * height <= u32::MAX) by (nonlinear_arith)
            requires
                width * height * 4 <= u32::MAX,
        ;
    }
    width * height * 4
}

/// The width and height of a rectangle given by its edges, as the
/// Direct3D 9 hook reads them from the source rectangle (a negative extent
/// wraps around to a large value).
pub fn rect_extent(left: i32, top: i32, right: i32, bottom: i32) -> (r: (u32, u32))
    requires
        i32::MIN <= right - left <= i32::MAX,
        i32::MIN <= bottom - top <= i32::MAX,
    ensures
        r.0 == (right - left) as u32,
        r.1 == (bottom - top) as u32,
{
    ((right - left) as u32, (bottom - top) as u32)
}

/// The APIs that the capture library tries to hook when it is loaded, in
/// order (the Direct3D 9 path is disabled).
pub fn hooked_apis() -> (r: Vec<HookedApi>)
    ensures
        r@ == seq![
            HookedApi::OpenGl,
            HookedApi::Dx10,
            HookedApi::Dx11,
            HookedApi::Dx12,
            HookedApi::Vulkan,
        ],
{
    let mut apis: Vec<HookedApi> = Vec::new();
    apis.push(HookedApi::OpenGl);
    apis.push(HookedApi::Dx10);
    apis.push(HookedApi::Dx11);
    apis.push(HookedApi::Dx12);
    apis.push(HookedApi::Vulkan);
    apis
}

} // verus!
