use screen_share::screenshot::encode_screenshot;
use screen_share::capture::{
    dx12_action, dxgi_present_step, dxgi_swap_chain_desc, hook_outcome, hooked_apis,
    legacy_swap_chain_desc, next_dxgi_device, rect_extent, rgba_frame_len, shared_texture_action,
    texture_copy_location, vk_action, window_swap_chain_desc, Dx12Action, DxgiDevice, HookOutcome,
    SharedTextureAction, VkAction, E_NOINTERFACE,
};
use screen_share::injector::{
    classify_module, copy_buffer_description, d3d11_texture_description, getter_program,
    injected_dll_name, no_module_seen, remote_alloc_size, staging_description, terminate_wide,
    texture_plan, texture_slot, title_buffer_len, win32_call_failed, window_is_listed, HookedApi,
    ModuleApis, System,
};

#[test]
fn shared_texture_description_values() {
    let d = d3d11_texture_description(1920, 1080, false);
    assert_eq!(d.width, 1920);
    assert_eq!(d.height, 1080);
    assert_eq!(d.format, 28);
    assert_eq!((d.sample_count, d.sample_quality), (1, 0));
    assert_eq!(d.usage, 0);
    assert_eq!(d.bind_flags, 0x28);
    assert_eq!(d.cpu_access_flags, 0);
    assert_eq!(d.misc_flags, 0x2);
    assert_eq!((d.mip_levels, d.array_size), (1, 1));
    let nt = d3d11_texture_description(640, 480, true);
    assert_eq!(nt.misc_flags, 0x802);
    assert_eq!((nt.width, nt.height), (640, 480));
}

#[test]
fn copy_buffer_and_staging_descriptions() {
    let c = copy_buffer_description(1920, 1080);
    assert_eq!(c.misc_flags, 0);
    assert_eq!(c.bind_flags, 0x8);
    assert_eq!(c.usage, 0);
    let s = staging_description(d3d11_texture_description(1920, 1080, true));
    assert_eq!(s.usage, 3);
    assert_eq!(s.cpu_access_flags, 0x20000);
    assert_eq!(s.bind_flags, 0);
    assert_eq!(s.misc_flags, 0);
    assert_eq!((s.width, s.height, s.format), (1920, 1080, 28));
}

#[test]
fn module_classification() {
    let seen = no_module_seen();
    let a = classify_module(seen, b"D3D11.DLL");
    assert_eq!(a, ModuleApis { nt_handle: true, handle: false });
    let b = classify_module(a, b"d3d9.dll");
    assert_eq!(b, ModuleApis { nt_handle: true, handle: true });
    // The legacy list is compared without lowering case.
    let c = classify_module(seen, b"D3D9.dll");
    assert_eq!(c, seen);
    let d = classify_module(seen, b"Vulkan-1.dll");
    assert!(d.nt_handle);
    let e = classify_module(seen, b"OpenGL32.dll");
    assert!(e.nt_handle);
    let f = classify_module(seen, b"d3d10.dll");
    assert_eq!(f, ModuleApis { nt_handle: false, handle: true });
    let g = classify_module(seen, b"kernel32.dll");
    assert_eq!(g, seen);
    let h = classify_module(seen, b"d3d11.dll.mui");
    assert_eq!(h, seen);
}

#[test]
fn texture_slots_and_plan() {
    assert_eq!(texture_slot(true), 1);
    assert_eq!(texture_slot(false), 0);
    let plan = texture_plan(ModuleApis { nt_handle: true, handle: false });
    assert_eq!(plan, [false, true]);
    for (api, module) in [
        (HookedApi::OpenGl, &b"opengl32.dll"[..]),
        (HookedApi::Dx9, &b"d3d9.dll"[..]),
        (HookedApi::Dx10, &b"d3d10.dll"[..]),
        (HookedApi::Dx11, &b"d3d11.dll"[..]),
        (HookedApi::Dx12, &b"d3d12.dll"[..]),
        (HookedApi::Vulkan, &b"vulkan-1.dll"[..]),
    ] {
        let apis = classify_module(no_module_seen(), module);
        let nt = !matches!(api, HookedApi::Dx9 | HookedApi::Dx10);
        assert!(texture_plan(apis)[texture_slot(nt)]);
    }
}

#[test]
fn window_listing() {
    assert!(window_is_listed(true, true, false, 5));
    assert!(!window_is_listed(false, true, false, 5));
    assert!(!window_is_listed(true, false, false, 5));
    assert!(!window_is_listed(true, true, true, 5));
    assert!(!window_is_listed(true, true, false, 0));
    assert!(win32_call_failed(true, 5));
    assert!(!win32_call_failed(true, 0));
    assert!(!win32_call_failed(false, 5));
    assert_eq!(title_buffer_len(10), 260);
    assert_eq!(title_buffer_len(260), 260);
    assert_eq!(title_buffer_len(261), 262);
    assert!(System::new().is_ok());
}

#[test]
fn helper_names_and_sizes() {
    assert_eq!(getter_program(true), "./load_library_getter_64.exe");
    assert_eq!(getter_program(false), "./load_library_getter_32.exe");
    assert_eq!(injected_dll_name(true), "screen_recorder_64.dll");
    assert_eq!(injected_dll_name(false), "screen_recorder_32.dll");
    assert_eq!(terminate_wide(vec![67, 58]), vec![67, 58, 0]);
    assert_eq!(terminate_wide(vec![]), vec![0]);
    assert_eq!(remote_alloc_size(12), 24);
}

#[test]
fn swap_chain_descriptions() {
    let d = dxgi_swap_chain_desc(0x1234);
    assert_eq!((d.width, d.height), (100, 100));
    assert_eq!((d.refresh_numerator, d.refresh_denominator), (60, 1));
    assert_eq!(d.format, 28);
    assert_eq!(d.buffer_count, 2);
    assert_eq!(d.buffer_usage, 0x20);
    assert_eq!(d.output_window, 0x1234);
    assert!(d.windowed);
    assert_eq!(d.swap_effect, 3);
    assert_eq!(d.flags, 0);
    let l = legacy_swap_chain_desc(7);
    assert_eq!((l.buffer_count, l.swap_effect, l.flags), (1, 0, 2));
    assert_eq!(l.output_window, 7);
    let w = window_swap_chain_desc(600, 400, 9);
    assert_eq!((w.width, w.height, w.format, w.swap_effect, w.buffer_count), (600, 400, 29, 0, 2));
}

#[test]
fn copy_location_names_subresource_zero() {
    let loc = texture_copy_location("texture");
    assert_eq!(loc.copy_type, 0);
    assert_eq!(loc.resource, "texture");
    assert_eq!(loc.subresource_index, 0);
}

#[test]
fn dxgi_fallback_chain() {
    assert_eq!(hook_outcome(None), HookOutcome::Done);
    assert_eq!(hook_outcome(Some(E_NOINTERFACE)), HookOutcome::NoInterface);
    assert_eq!(hook_outcome(Some(-2147024809)), HookOutcome::Failed);
    assert_eq!(next_dxgi_device(DxgiDevice::Dx10, HookOutcome::NoInterface), Some(DxgiDevice::Dx11));
    assert_eq!(next_dxgi_device(DxgiDevice::Dx11, HookOutcome::NoInterface), Some(DxgiDevice::Dx12));
    assert_eq!(next_dxgi_device(DxgiDevice::Dx12, HookOutcome::NoInterface), None);
    assert_eq!(next_dxgi_device(DxgiDevice::Dx10, HookOutcome::Failed), None);
    assert_eq!(next_dxgi_device(DxgiDevice::Dx10, HookOutcome::Done), None);
}

#[test]
fn opengl_mark_skips_one_present() {
    let first = dxgi_present_step(true);
    assert!(!first.capture);
    assert!(!first.mark_after);
    let second = dxgi_present_step(first.mark_after);
    assert!(second.capture);
}

#[test]
fn hook_actions() {
    assert_eq!(shared_texture_action(true, false), SharedTextureAction::CopyBackBuffer);
    assert_eq!(shared_texture_action(false, true), SharedTextureAction::OpenSharedTexture);
    assert_eq!(shared_texture_action(false, false), SharedTextureAction::Wait);
    assert_eq!(dx12_action(true, true, false), Dx12Action::CopyBackBuffer);
    assert_eq!(dx12_action(true, false, true), Dx12Action::CreateCopyQueue);
    assert_eq!(dx12_action(false, false, true), Dx12Action::OpenSharedTexture);
    assert_eq!(dx12_action(false, true, false), Dx12Action::Wait);
    assert_eq!(vk_action(false, true, true), VkAction::Wait);
    assert_eq!(vk_action(true, true, false), VkAction::CopyImage);
    assert_eq!(vk_action(true, false, true), VkAction::ImportSharedImage);
    assert_eq!(vk_action(true, false, false), VkAction::Wait);
}

#[test]
fn frame_sizes() {
    assert_eq!(rgba_frame_len(1920, 1080), 8_294_400);
    assert_eq!(rect_extent(10, 20, 1930, 1100), (1920, 1080));
    assert_eq!(rect_extent(5, 0, 4, 0), (u32::MAX, 0));
}

#[test]
fn attach_order() {
    assert_eq!(
        hooked_apis(),
        vec![HookedApi::OpenGl, HookedApi::Dx10, HookedApi::Dx11, HookedApi::Dx12, HookedApi::Vulkan]
    );
}

#[test]
fn screenshot_is_a_png_file() {
    let pixels: Vec<u8> = (0..2 * 3 * 4).map(|i| i as u8).collect();
    let png = encode_screenshot(2, 3, &pixels).unwrap();
    assert_eq!(&png[..8], &[137, 80, 78, 71, 13, 10, 26, 10]);
    assert_ne!(png, pixels);
    assert!(png.len() > 8);
    assert_eq!(encode_screenshot(2, 3, &pixels[..20]), None);
    assert_eq!(encode_screenshot(0, 3, &[]), None);
    assert_eq!(encode_screenshot(3, 0, &[]), None);
}
