//! The verified core of a small GPU text-rendering toolkit: how glyph coverage
//! reported by the text shaper becomes RGBA texels, the vertex layout of text
//! instances, and the decisions of the window event loop.

mod canvas;
mod color;
mod event_loop;
mod layout;

pub use canvas::{
    draw_glyph_spec, image_dimensions, image_samples, lemma_draw_idempotent,
    lemma_draw_glyph_effect, lemma_draw_keeps_outside_clip, lemma_draws_commute,
    lemma_pixel_layout, pixel_base, with_pixel, RgbaPixels,
    TextCanvas,
};
pub use color::{
    alpha_of, blue_of, glyph_accepted, glyph_pixel, glyph_texel, glyph_texel_spec, green_of,
    lemma_glyph_acceptance, lemma_glyph_texel_channels, lemma_scaled_bounds,
    lemma_scaled_is_floor_quotient, lemma_scaled_monotonic, red_of, scale_channel, scaled,
};
pub use event_loop::{
    event_step, handle_event, handle_render_outcome, lemma_event_decisions, lemma_exit_causes,
    lemma_exit_is_final, lemma_render_decisions, lemma_resize_is_exact,
    lemma_foreign_or_consumed_events_ignored, render_step, Key, LoopAction, LoopEvent, LoopFlow,
    RenderOutcome, WindowEventKind,
};
pub use layout::{
    format_size, lemma_text_instance_layout_packed, packed_layout, text_instance_bytes,
    text_instance_layout, InstanceLayout, VertexAttribute, VertexFormat, VertexStepMode,
    FLOAT32X2_BYTES, FLOAT32_BYTES,
};
