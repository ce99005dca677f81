//! The decisions of a VPN client's window, apart from the toolkit, the
//! daemon and the graphics device that carry them out.
//!
//! The larger part is the globe view, an off-screen renderer whose image
//! the window shows as a texture: decoding of the static geometry
//! (`geometry`), the shape of render targets, read-back buffers and uniform
//! blocks (`target`, `uniform`, `align`), the pipelines (`pipeline`), change
//! detection between frames (`renderer`, `input`, `scalar`), and the
//! repacking of row-padded read-back data into a tight RGBA8 image
//! (`readback`).
//!
//! The rest are the rules that the window applies to what the daemon and
//! the desktop report: tunnel state and settings (`status`, `settings`), the
//! list of applications to launch outside the tunnel and their pictures
//! (`apps`, `text`, `icons`), the tray icon (`tray`), and the relay list of
//! the public relay service (`api`). Pictures are decoded by the `image`
//! crate (`decode`).

pub mod align;
pub mod api;
pub mod apps;
pub mod decode;
pub mod geometry;
pub mod icons;
pub mod input;
pub mod pipeline;
pub mod readback;
pub mod renderer;
pub mod scalar;
pub mod settings;
pub mod status;
pub mod target;
pub mod text;
pub mod tray;
pub mod uniform;
