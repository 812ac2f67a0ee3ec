//! The injector's decisions: which windows it offers, which graphics
//! modules of a target call for which kind of shared texture, the texture
//! descriptions it creates, and the names of the helper programs it runs.

use vstd::prelude::*;

verus! {

/// `MAX_PATH`: the size of the title buffer used for ordinary titles.
pub const MAX_PATH: usize = 260usize;
/// `DXGI_SHARED_RESOURCE_READ | DXGI_SHARED_RESOURCE_WRITE`: the rights of
/// the NT handle that the injector shares with the target.
pub const SHARED_RIGHTS: u32 = 0x80000001u32;
/// `D3D11_USAGE_DEFAULT`.
pub const D3D11_USAGE_DEFAULT: i32 = 0i32;
/// `D3D11_USAGE_STAGING`.
pub const D3D11_USAGE_STAGING: i32 = 3i32;
/// `D3D11_BIND_SHADER_RESOURCE`.
pub const D3D11_BIND_SHADER_RESOURCE: u32 = 0x8u32;
/// `D3D11_BIND_RENDER_TARGET`.
pub const D3D11_BIND_RENDER_TARGET: u32 = 0x20u32;
/// `D3D11_RESOURCE_MISC_SHARED`.
pub const D3D11_RESOURCE_MISC_SHARED: u32 = 0x2u32;
/// `D3D11_RESOURCE_MISC_SHARED_NTHANDLE`.
pub const D3D11_RESOURCE_MISC_SHARED_NTHANDLE: u32 = 0x800u32;
/// `D3D11_CPU_ACCESS_READ`.
pub const D3D11_CPU_ACCESS_READ: u32 = 0x20000u32;
/// `DXGI_FORMAT_R8G8B8A8_UNORM`.
pub const DXGI_FORMAT_R8G8B8A8_UNORM: i32 = 28i32;

/// A Win32 failure, by its `HRESULT` code.
#[derive(Clone, Copy, PartialEq, Eq, Structural, Debug)]
pub struct Win32Error {
    pub code: i32,
}

/// Access to the desktop's windows.
pub struct System {}

impl System {
    /// Opens access to the desktop; this cannot fail.
    pub fn new() -> (r: Result<System, Win32Error>)
        ensures
            r is Ok,
    {
        Ok(System {})
    }
}

/// Whether a window is offered as a capture target: it is visible, enabled,
/// not cloaked, and has a title.
pub fn window_is_listed(visible: bool, enabled: bool, cloaked: bool, title_len: usize) -> (r: bool)
    ensures
        r == (visible && enabled && !cloaked && title_len > 0),
{
    visible && enabled && !cloaked && title_len > 0
}

/// Whether a Win32 call failed: it returned zero and the thread's last
/// error, cleared before the call, is set.
pub fn win32_call_failed(returned_zero: bool, last_error: i32) -> (r: bool)
    ensures
        r == (returned_zero && last_error != 0),
{
    returned_zero && last_error != 0
}

/// The length of the buffer a window title is read into: `MAX_PATH` units,
/// or the title and its terminator when the title is longer.
pub fn title_buffer_len(title_len: usize) -> (r: usize)
    requires
        title_len < usize::MAX,
    ensures
        r == (if title_len > MAX_PATH {
            title_len + 1
        } else {
            MAX_PATH as int
        }),
        r >= title_len,
{
    if title_len > MAX_PATH {
        title_len + 1
    } else {
        MAX_PATH
    }
}

/// `b` with ASCII capitals turned to lower case.
pub open spec fn ascii_lower(b: u8) -> u8 {
    if 65 <= b <= 90 {
        (b + 32) as u8
    } else {
        b
    }
}

/// `s` with ASCII capitals turned to lower case.
pub open spec fn ascii_lowercase(s: Seq<u8>) -> Seq<u8> {
    s.map_values(|b: u8| ascii_lower(b))
}

/// The bytes of `d3d11.dll`.
pub open spec fn d3d11_dll() -> Seq<u8> {
    seq![100u8, 51, 100, 49, 49, 46, 100, 108, 108]
}

/// The bytes of `d3d12.dll`.
pub open spec fn d3d12_dll() -> Seq<u8> {
    seq![100u8, 51, 100, 49, 50, 46, 100, 108, 108]
}

/// The bytes of `opengl32.dll`.
pub open spec fn opengl32_dll() -> Seq<u8> {
    seq![111u8, 112, 101, 110, 103, 108, 51, 50, 46, 100, 108, 108]
}

/// The bytes of `vulkan-1.dll`.
pub open spec fn vulkan_dll() -> Seq<u8> {
    seq![118u8, 117, 108, 107, 97, 110, 45, 49, 46, 100, 108, 108]
}

/// The bytes of `d3d9.dll`.
pub open spec fn d3d9_dll() -> Seq<u8> {
    seq![100u8, 51, 100, 57, 46, 100, 108, 108]
}

/// The bytes of `d3d10.dll`.
pub open spec fn d3d10_dll() -> Seq<u8> {
    seq![100u8, 51, 100, 49, 48, 46, 100, 108, 108]
}

/// Modules whose APIs read the shared texture through an NT handle
/// (compared after lowering ASCII case).
pub open spec fn is_nt_handle_module(lowered: Seq<u8>) -> bool {
    lowered == d3d11_dll() || lowered == d3d12_dll() || lowered == opengl32_dll() || lowered
        == vulkan_dll()
}

/// Modules whose APIs read the shared texture through a legacy shared
/// handle (compared as they are).
pub open spec fn is_handle_module(name: Seq<u8>) -> bool {
    name == d3d9_dll() || name == d3d10_dll()
}

/// What the injector has learned from the modules of a target so far.
#[derive(Clone, Copy, PartialEq, Eq, Structural, Debug)]
pub struct ModuleApis {
    /// Some module needs a texture shared by NT handle.
    pub nt_handle: bool,
    /// Some module needs a texture shared by legacy handle.
    pub handle: bool,
}

/// Whether `a` and `b` hold the same bytes.
pub fn bytes_equal(a: &[u8], b: &[u8]) -> (r: bool)
    ensures
        r == (a@ == b@),
{
    if a.len() != b.len() {
        return false;
    }
    let mut i: usize = 0;
    while i < a.len()
        invariant
            i <= a@.len(),
            a@.len() == b@.len(),
            forall|k: int| 0 <= k < i ==> a@[k] == b@[k],
        decreases a@.len() - i,
    {
        if a[i] != b[i] {
            return false;
        }
        i += 1;
    }
    assert(a@ =~= b@);
    true
}

/// Whether `name`, with ASCII capitals lowered, holds the bytes `lowered`.
pub fn equals_ignoring_ascii_case(name: &[u8], lowered: &[u8]) -> (r: bool)
    ensures
        r == (ascii_lowercase(name@) == lowered@),
{
    if name.len() != lowered.len() {
        assert(ascii_lowercase(name@).len() == name@.len());
        return false;
    }
    let mut i: usize = 0;
    while i < name.len()
        invariant
            i <= name@.len(),
            name@.len() == lowered@.len(),
            forall|k: int| 0 <= k < i ==> ascii_lower(name@[k]) == lowered@[k],
        decreases name@.len() - i,
    {
        let b = name[i];
        let l: u8 = if 65u8 <= b && b <= 90u8 {
            b + 32u8
        } else {
            b
        };
        if l != lowered[i] {
            assert(ascii_lowercase(name@)[i as int] != lowered@[i as int]);
            return false;
        }
        i += 1;
    }
    assert(ascii_lowercase(name@) =~= lowered@);
    true
}

/// Adds what the module file `file_name` tells about the target.
pub fn classify_module(seen: ModuleApis, file_name: &[u8]) -> (r: ModuleApis)
    ensures
        r == classified(seen, file_name@),
        seen.handle ==> r.handle,
        seen.nt_handle ==> r.nt_handle,
        is_handle_module(file_name@) ==> r.handle,
        is_nt_handle_module(ascii_lowercase(file_name@)) ==> r.nt_handle,
{
    let d3d11: [u8; 9] = [100u8, 51, 100, 49, 49, 46, 100, 108, 108];
    let d3d12: [u8; 9] = [100u8, 51, 100, 49, 50, 46, 100, 108, 108];
    let opengl32: [u8; 12] = [111u8, 112, 101, 110, 103, 108, 51, 50, 46, 100, 108, 108];
    let vulkan: [u8; 12] = [118u8, 117, 108, 107, 97, 110, 45, 49, 46, 100, 108, 108];
    let d3d9: [u8; 8] = [100u8, 51, 100, 57, 46, 100, 108, 108];
    let d3d10: [u8; 9] = [100u8, 51, 100, 49, 48, 46, 100, 108, 108];
    assert(d3d11@ =~= d3d11_dll());
    assert(d3d12@ =~= d3d12_dll());
    assert(opengl32@ =~= opengl32_dll());
    assert(vulkan@ =~= vulkan_dll());
    assert(d3d9@ =~= d3d9_dll());
    assert(d3d10@ =~= d3d10_dll());
    let nt = equals_ignoring_ascii_case(file_name, d3d11.as_slice())
        || equals_ignoring_ascii_case(file_name, d3d12.as_slice())
        || equals_ignoring_ascii_case(file_name, opengl32.as_slice())
        || equals_ignoring_ascii_case(file_name, vulkan.as_slice());
    let legacy = bytes_equal(file_name, d3d9.as_slice()) || bytes_equal(file_name, d3d10.as_slice());
    ModuleApis { nt_handle: seen.nt_handle || nt, handle: seen.handle || legacy }
}

/// What the injector knows before looking at any module.
pub fn no_module_seen() -> (r: ModuleApis)
    ensures
        !r.nt_handle,
        !r.handle,
{
    ModuleApis { nt_handle: false, handle: false }
}

/// The graphics APIs that the capture library hooks.
#[derive(Clone, Copy, PartialEq, Eq, Structural, Debug)]
pub enum HookedApi {
    OpenGl,
    Dx9,
    Dx10,
    Dx11,
    Dx12,
    Vulkan,
}

/// The module file of each hooked API.
pub open spec fn module_file_name(api: HookedApi) -> Seq<u8> {
    match api {
        HookedApi::OpenGl => opengl32_dll(),
        HookedApi::Dx9 => d3d9_dll(),
        HookedApi::Dx10 => d3d10_dll(),
        HookedApi::Dx11 => d3d11_dll(),
        HookedApi::Dx12 => d3d12_dll(),
        HookedApi::Vulkan => vulkan_dll(),
    }
}

/// Whether the hook of `api` opens the shared texture from the NT handle
/// (Direct3D 11 and 12, OpenGL, Vulkan) rather than from the legacy shared
/// handle (Direct3D 9 and 10).
pub open spec fn hook_reads_nt_handle(api: HookedApi) -> bool {
    match api {
        HookedApi::Dx9 | HookedApi::Dx10 => false,
        _ => true,
    }
}

/// The slot of the injector's texture pair that holds the texture shared
/// by NT handle (slot 1) or by legacy handle (slot 0).
pub fn texture_slot(nt_handle: bool) -> (r: usize)
    ensures
        r == slot_of(nt_handle),
        nt_handle ==> r == 1,
        !nt_handle ==> r == 0,
{
    if nt_handle {
        1
    } else {
        0
    }
}

/// Which slots of the texture pair the injector fills for a target with
/// the modules `apis`: slot 0 for a legacy handle, slot 1 for an NT handle.
pub fn texture_plan(apis: ModuleApis) -> (r: [bool; 2])
    ensures
        r@ == plan_of(apis),
        r@[0] == apis.handle,
        r@[1] == apis.nt_handle,
{
    let r = [apis.handle, apis.nt_handle];
    assert(r@ =~= plan_of(apis));
    r
}

/// The slot that `texture_slot` returns.
pub open spec fn slot_of(nt_handle: bool) -> int {
    if nt_handle {
        1
    } else {
        0
    }
}

/// The slots that `texture_plan` fills.
pub open spec fn plan_of(apis: ModuleApis) -> Seq<bool> {
    seq![apis.handle, apis.nt_handle]
}

/// What `classify_module` learns from `file_name` on top of `seen`.
pub open spec fn classified(seen: ModuleApis, file_name: Seq<u8>) -> ModuleApis {
    ModuleApis {
        nt_handle: seen.nt_handle || is_nt_handle_module(ascii_lowercase(file_name)),
        handle: seen.handle || is_handle_module(file_name),
    }
}

/// What the injector knows after classifying the modules `names` in order,
/// starting from `seen`.
pub open spec fn classified_all(seen: ModuleApis, names: Seq<Seq<u8>>) -> ModuleApis
    decreases names.len(),
{
    if names.len() == 0 {
        seen
    } else {
        classified_all(classified(seen, names[0]), names.drop_first())
    }
}

/// Classification only accumulates: what was learned from earlier modules is
/// never forgotten by a later one.
pub proof fn lemma_classification_accumulates(seen: ModuleApis, file_name: Seq<u8>)
    ensures
        seen.handle ==> classified(seen, file_name).handle,
        seen.nt_handle ==> classified(seen, file_name).nt_handle,
{
}

/// The order in which two modules are looked at does not matter.
pub proof fn lemma_classification_commutes(seen: ModuleApis, a: Seq<u8>, b: Seq<u8>)
    ensures
        classified(classified(seen, a), b) == classified(classified(seen, b), a),
{
}

/// After a whole module list, the injector needs a texture of a kind exactly
/// when it needed one before or some module of the list calls for it: a
/// legacy-handle texture for `d3d9.dll` or `d3d10.dll`, an NT-handle texture
/// for `d3d11.dll`, `d3d12.dll`, `opengl32.dll` or `vulkan-1.dll` in any
/// ASCII case.
pub proof fn lemma_classification_is_any_module(seen: ModuleApis, names: Seq<Seq<u8>>)
    ensures
        classified_all(seen, names).handle == (seen.handle || exists|i: int|
            0 <= i < names.len() && #[trigger] is_handle_module(names[i])),
        classified_all(seen, names).nt_handle == (seen.nt_handle || exists|i: int|
            0 <= i < names.len() && #[trigger] is_nt_handle_module(ascii_lowercase(names[i]))),
    decreases names.len(),
{
    if names.len() > 0 {
        let rest = names.drop_first();
        let next = classified(seen, names[0]);
        lemma_classification_is_any_module(next, rest);
        if exists|i: int| 0 <= i < names.len() && #[trigger] is_handle_module(names[i]) {
            let i = choose|i: int| 0 <= i < names.len() && #[trigger] is_handle_module(names[i]);
            if i > 0 {
                assert(rest[i - 1] == names[i]);
                assert(is_handle_module(rest[i - 1]));
            }
        }
        if exists|i: int| 0 <= i < rest.len() && #[trigger] is_handle_module(rest[i]) {
            let i = choose|i: int| 0 <= i < rest.len() && #[trigger] is_handle_module(rest[i]);
            assert(names[i + 1] == rest[i]);
            assert(is_handle_module(names[i + 1]));
        }
        if exists|i: int|
            0 <= i < names.len() && #[trigger] is_nt_handle_module(ascii_lowercase(names[i])) {
            let i = choose|i: int|
                0 <= i < names.len() && #[trigger] is_nt_handle_module(ascii_lowercase(names[i]));
            if i > 0 {
                assert(rest[i - 1] == names[i]);
                assert(is_nt_handle_module(ascii_lowercase(rest[i - 1])));
            }
        }
        if exists|i: int|
            0 <= i < rest.len() && #[trigger] is_nt_handle_module(ascii_lowercase(rest[i])) {
            let i = choose|i: int|
                0 <= i < rest.len() && #[trigger] is_nt_handle_module(ascii_lowercase(rest[i]));
            assert(names[i + 1] == rest[i]);
            assert(is_nt_handle_module(ascii_lowercase(names[i + 1])));
        }
    }
}

/// Whatever API a target draws with, the injector, seeing that API's module
/// among the target's modules, creates the kind of shared texture that the
/// hook for that API opens, in the slot that the injector reads for it.
pub proof fn lemma_injector_prepares_every_hook(api: HookedApi, seen: ModuleApis)
    ensures
        plan_of(classified(seen, module_file_name(api)))[slot_of(hook_reads_nt_handle(api))],
{
    let n = module_file_name(api);
    assert(ascii_lowercase(n) =~= n);
}

/// The description of a texture that the injector shares with a target:
/// RGBA8, usable as shader resource and render target, shared, and shared
/// by NT handle when `nt_handle` is set.
#[derive(Clone, Copy, PartialEq, Eq, Structural, Debug)]
pub struct TextureDescription {
    pub width: u32,
    pub height: u32,
    pub mip_levels: u32,
    pub array_size: u32,
    pub format: i32,
    pub sample_count: u32,
    pub sample_quality: u32,
    pub usage: i32,
    pub bind_flags: u32,
    pub cpu_access_flags: u32,
    pub misc_flags: u32,
}

/// The texture description that `d3d11_texture_description` returns.
pub open spec fn shared_texture_spec(width: u32, height: u32, nt_handle: bool) -> TextureDescription {
    TextureDescription {
        width: width,
        height: height,
        mip_levels: 1,
        array_size: 1,
        format: DXGI_FORMAT_R8G8B8A8_UNORM,
        sample_count: 1,
        sample_quality: 0,
        usage: D3D11_USAGE_DEFAULT,
        bind_flags: D3D11_BIND_SHADER_RESOURCE | D3D11_BIND_RENDER_TARGET,
        cpu_access_flags: 0,
        misc_flags: if nt_handle {
            D3D11_RESOURCE_MISC_SHARED | D3D11_RESOURCE_MISC_SHARED_NTHANDLE
        } else {
            D3D11_RESOURCE_MISC_SHARED
        },
    }
}

/// A texture shared with a target is always marked shared, is marked shared
/// by NT handle exactly when asked, and is one single-sampled image of the
/// asked size.
pub proof fn lemma_shared_texture_flags(width: u32, height: u32, nt_handle: bool)
    ensures
        shared_texture_spec(width, height, nt_handle).misc_flags & 0x2 != 0,
        (shared_texture_spec(width, height, nt_handle).misc_flags & 0x800 != 0) == nt_handle,
        shared_texture_spec(width, height, nt_handle).width == width,
        shared_texture_spec(width, height, nt_handle).height == height,
        shared_texture_spec(width, height, nt_handle).mip_levels == 1,
        shared_texture_spec(width, height, nt_handle).array_size == 1,
        shared_texture_spec(width, height, nt_handle).sample_count == 1,
        shared_texture_spec(width, height, nt_handle).sample_quality == 0,
{
    assert((0x2u32 | 0x800u32) & 0x2 != 0) by (bit_vector);
    assert((0x2u32 | 0x800u32) & 0x800 != 0) by (bit_vector);
    assert(0x2u32 & 0x2 != 0) by (bit_vector);
    assert(0x2u32 & 0x800 == 0) by (bit_vector);
}

/// The description of a texture shared with a target.
pub fn d3d11_texture_description(width: u32, height: u32, nt_handle: bool) -> (r: TextureDescription)
    ensures
        r == shared_texture_spec(width, height, nt_handle),
        r.width == width,
        r.height == height,
        r.mip_levels == 1,
        r.array_size == 1,
        r.sample_count == 1,
        r.sample_quality == 0,
        r.misc_flags & 0x2 != 0,
        (r.misc_flags & 0x800 != 0) == nt_handle,
{
    proof {
        lemma_shared_texture_flags(width, height, nt_handle);
    }
    let mut flags: u32 = D3D11_RESOURCE_MISC_SHARED;
    if nt_handle {
        flags = flags | D3D11_RESOURCE_MISC_SHARED_NTHANDLE;
    }
    TextureDescription {
        width,
        height,
        mip_levels: 1,
        array_size: 1,
        format: DXGI_FORMAT_R8G8B8A8_UNORM,
        sample_count: 1,
        sample_quality: 0,
        usage: D3D11_USAGE_DEFAULT,
        bind_flags: D3D11_BIND_SHADER_RESOURCE | D3D11_BIND_RENDER_TARGET,
        cpu_access_flags: 0,
        misc_flags: flags,
    }
}

/// The injector's own display texture, into which the targets' textures
/// are copied: like a shared texture but not shared, and bound only as a
/// shader resource.
pub fn copy_buffer_description(width: u32, height: u32) -> (r: TextureDescription)
    ensures
        r == (TextureDescription {
            misc_flags: 0,
            usage: D3D11_USAGE_DEFAULT,
            bind_flags: D3D11_BIND_SHADER_RESOURCE,
            ..shared_texture_spec(width, height, false)
        }),
{
    let mut description = d3d11_texture_description(width, height, false);
    description.misc_flags = 0;
    description.usage = D3D11_USAGE_DEFAULT;
    description.bind_flags = D3D11_BIND_SHADER_RESOURCE;
    description
}

/// A CPU-readable staging copy of a texture description: not shared, not
/// bound, readable by the CPU.
pub fn staging_description(description: TextureDescription) -> (r: TextureDescription)
    ensures
        r == (TextureDescription {
            misc_flags: 0,
            usage: D3D11_USAGE_STAGING,
            cpu_access_flags: D3D11_CPU_ACCESS_READ,
            bind_flags: 0,
            ..description
        }),
{
    let mut staging = description;
    staging.misc_flags = 0;
    staging.usage = D3D11_USAGE_STAGING;
    staging.cpu_access_flags = D3D11_CPU_ACCESS_READ;
    staging.bind_flags = 0;
    staging
}

/// The helper program that prints the address of `LoadLibraryW` for a
/// target of the given bitness.
pub fn getter_program(is_64_bit: bool) -> (r: &'static str)
    ensures
        is_64_bit ==> r@ == "./load_library_getter_64.exe"@,
        !is_64_bit ==> r@ == "./load_library_getter_32.exe"@,
{
    if is_64_bit {
        "./load_library_getter_64.exe"
    } else {
        "./load_library_getter_32.exe"
    }
}

/// The capture library injected into a target of the given bitness.
pub fn injected_dll_name(is_64_bit: bool) -> (r: &'static str)
    ensures
        is_64_bit ==> r@ == "screen_recorder_64.dll"@,
        !is_64_bit ==> r@ == "screen_recorder_32.dll"@,
{
    if is_64_bit {
        "screen_recorder_64.dll"
    } else {
        "screen_recorder_32.dll"
    }
}

/// A UTF-16 path with the terminating zero that `LoadLibraryW` expects.
pub fn terminate_wide(units: Vec<u16>) -> (r: Vec<u16>)
    ensures
        r@ == units@.push(0u16),
{
    let mut units = units;
    units.push(0u16);
    units
}

/// The number of bytes that a UTF-16 path of `units` code units takes in
/// the target.
pub fn remote_alloc_size(units: usize) -> (r: usize)
    requires
        units * 2 <= usize::MAX,
    ensures
        r == units * 2,
{
    units * 2
}

} // verus!
