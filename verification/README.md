# vk_renderer

The decision-making core of a Vulkan ray-tracing renderer with an egui
overlay, written in Verus. Each function in `src/` carries a contract that
Verus proves; `app/` holds the code that talks to the driver, the window
system and the asset loaders and hands plain values to the library.

## Layout

- `src/geometry.rs`, `src/scene.rs`, `src/model.rs`: glTF primitives to
  triangle geometry, the node graph to acceleration-structure instances.
- `src/pixels.rs`, `src/textures.rs`: texel conversions and the GUI texture
  registry (allocation, upload, free, lookup).
- `src/gui_pass.rs`, `src/gui_pipeline.rs`: scissor rectangles, draw calls and
  buffer uploads of the GUI pass, and its pipeline state.
- `src/frame.rs`, `src/descriptors.rs`, `src/sbt.rs`, `src/render_pass.rs`:
  the commands and layouts of a frame, descriptor set layouts and writes,
  shader binding table regions, render pass attachments.
- `src/device.rs`, `src/swapchain.rs`, `src/names.rs`, `src/version.rs`:
  queue family choice, swapchain parameters and frame state, layer and
  extension names, packed API versions.
- `src/camera.rs`: input events to camera actions.
- `src/log_ring.rs`: the bounded ring of recent log lines.

Laws that span several functions are public proof functions named
`lemma_*` next to the functions they relate.
