# screen_share

The verified decisions, names and formats of a Windows screen-capture
toolkit. In that toolkit an injector lists the desktop's windows, creates a
shared-memory segment and shared textures for a chosen game and loads a
capture library into it, and the capture library hooks the game's present
call (Direct3D 9 to 12, OpenGL, Vulkan) to copy each frame into the shared
texture. This crate does not install hooks or talk to a graphics API: it
holds what those parts compute and decide, so that they can be checked, and
an operating-system layer for the injector's side.

`src/` holds the logic, proved with Verus:

- `decimal`: decimal text of addresses and its parser (the getter prints,
  the injector reads back).
- `naming`: the per-process segment name, built by the injector and by the
  capture library, and C-string handling.
- `shmem`: the layout of a segment (holder count and value) and the
  injector's decision tied to the holder count.
- `injector`: window filtering, module classification, texture plans and
  descriptions, helper program names.
- `capture`: swap-chain descriptions, the DXGI fallback chain and the
  per-frame decisions of each hook.
- `pipe`: the pid / handle exchange of the older capture library.
- `screenshot`: PNG encoding of a frame (through the `png` crate).
- `encoder`: encoder configuration and the receive/send decisions.
- `vk`, `vk_types`: Vulkan constants, version packing, entry-point slots and
  memory-type choice; the API's enumerations and plain structures.
- `vk_commands`: the entry points loaded by name, in order, and the slots
  filled from what the loader returns for each.
- `vk_frame`: the image created over the shared texture, its memory size,
  and the barriers and copy around the copy of each presented image.

`app/` holds the operating-system side (file mappings, mutexes, process and
window access, the getter, the pipe client, writing files), built on
`windows-sys`.
