//! A minimal windowing and raster-display engine for an X11 display server.
//!
//! The crate holds the engine's decisions: visual and colormap negotiation,
//! the shared-memory capability rules, the pixel buffer with its clipping
//! writes, the window registry with its hook table, and the event loop's
//! state machine. Every decision is stated as a contract and proved. The
//! calls that talk to the display server are made by the program around the
//! library, which hands their results in as plain values.

pub mod color;
pub mod error;
pub mod events;
pub mod image;
pub mod mlx;
pub mod mlx_image;
pub mod mlx_window;
pub mod shm;
pub mod strings;
pub mod visual;
pub mod window;
pub mod xpm;
pub mod xvars;

pub use color::{mlx_get_color_value, mlx_int_get_good_color};
pub use error::MlxError;
pub use events::{
    mlx_int_do_nothing, Dispatch, Event, GeneralHook, HookSlot, MlxEventHook, MlxGeneralHook,
    MlxMouseHook, MouseHook, MLX_MAX_EVENT,
};
pub use image::{mlx_get_data_addr, MlxImage};
pub use mlx::{Blit, Mlx, MlxRelease};
pub use mlx_image::{
    mlx_destroy_image, mlx_image_step, mlx_int_new_image, mlx_int_new_xshmimage, mlx_new_image,
    shm_att_pb, ImageCommand, ImageEvent, ImagePhase, ImageProgress, ImageStep, Img,
    MLX_TYPE_SHM, MLX_TYPE_SHM_PIXMAP, MLX_TYPE_XIMAGE,
};
pub use mlx_window::MlxWindow;
pub use shm::{mlx_int_deal_shm, ShmCapability, ShmReport};
pub use strings::{mlx_int_str_str, mlx_int_str_str_cote, mlx_int_str_to_wordtab};
pub use visual::{mlx_int_get_visual, mlx_int_rgb_conversion, Visual};
pub use window::{mlx_int_anti_resize_win, GcValues, SizeHints, WinList, WindowAttributes};
pub use xpm::{mlx_int_find_in_pcm, ColName, XpmCol};
pub use xvars::{
    mlx_destroy_display, mlx_destroy_window, mlx_dispatch, mlx_expose_hook, mlx_hook, mlx_init,
    mlx_key_hook, mlx_loop, mlx_loop_end, mlx_loop_hook, mlx_loop_step, mlx_mouse_hook,
    mlx_new_window, DisplayRelease, LoopState, LoopStep, ServerInfo, WindowRelease, XVar,
};
