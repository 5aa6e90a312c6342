# gpuwu

A small toolkit for putting text on the screen with wgpu, winit and
cosmic-text. The library under `src/` is verified with Verus:

- `color` – how a glyph pixel reported by the text shaper becomes an RGBA
  texel (every channel scaled by the pixel's alpha) and which coverage
  rectangles are kept.
- `canvas` – `TextCanvas`, the RGBA image (an `image::RgbaImage`) a text
  object is rasterised into, with the laws of drawing into it.
- `layout` – the vertex buffer layout of text instances.
- `event_loop` – the decisions of the window event loop, as functions from
  the loop's state and an event to the next state and an action.

`app/` is the program around it: window creation, GPU resources, font
shaping and file output, which hand plain values to the library.
