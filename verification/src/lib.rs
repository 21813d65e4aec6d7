//! A software rendering engine for an indexed-colour framebuffer.
//!
//! The engine owns two pixel surfaces of equal size, a visible one and an
//! off-screen one, and a flag that selects which of them drawing lands on.
//! Every drawing routine is stated as a relation between the pixels of the
//! selected surface before and after the call.
//!
//! Beside the engine stand the small models that a kernel around it needs:
//! the character-cell console, the hexadecimal printer, the palette, the
//! bump heap, the layout of the interrupt table and the in-memory file store.

pub mod circle;
pub mod console;
pub mod font;
pub mod framebuffer;
pub mod heap;
pub mod idt;
pub mod line;
pub mod mode;
pub mod palette;
pub mod ramfs;
pub mod raster;
pub mod region;
pub mod sprite;
pub mod surface;
pub mod text;
pub mod widgets;

pub use circle::{fb_draw_circle, fb_draw_filled_circle};
pub use console::{
    format_hex, vga_clear, vga_print, vga_print_at, vga_print_hex, vga_scroll, Cell, TextConsole,
    BUFFER_HEIGHT, BUFFER_WIDTH, CLEAR_ATTR,
};
pub use font::get_font_char;
pub use framebuffer::{
    fb_clear, fb_clear_enhanced, fb_enable_double_buffer, fb_get_frame_counter, fb_get_pixel,
    fb_height, fb_is_double_buffered, fb_set_pixel, fb_set_pixel_enhanced, fb_swap_buffers,
    fb_update_frame_counter, fb_visible, fb_width, get_draw_buffer, Framebuffer,
};
pub use heap::{bump_alloc, bump_init, BumpHeap, BUMP_ALIGN};
pub use idt::{idt_entry, idt_limit, IdtEntry, IDT_ENTRY_BYTES, IDT_ENTRIES, IDT_SELECTOR, IDT_TYPE_ATTR};
pub use line::{fb_draw_line, fb_draw_triangle};
pub use mode::{framebuffer_for_mode, video_modes, VideoMode};
pub use palette::get_palette_color;
pub use ramfs::{
    file_create, file_find, file_read, file_write, RamFs, MAX_FILES, MAX_FILE_SIZE, NAME_SIZE,
};
pub use raster::{
    fb_draw_gradient_rect, fb_draw_hline, fb_draw_rect, fb_draw_rect_enhanced,
    fb_draw_rect_outline, fb_draw_vline, gradient_row_color,
};
pub use region::{fb_blit, fb_scroll_down, fb_scroll_up};
pub use sprite::{
    animation_frame_index, decode_digit, fb_draw_animation, fb_draw_sprite,
    fb_draw_sprite_enhanced, AnimationFrame, Sprite, FRAME_PACE,
};
pub use surface::PixelSurface;
pub use text::{fb_blit_bitmap, fb_blit_bitmap_enhanced, fb_draw_text, fb_draw_text_enhanced};
pub use widgets::{fb_draw_button, fb_draw_window};
