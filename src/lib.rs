//! Status-line reporters for a tiling window manager's bar: each reads the
//! text that a system tool prints (GPU diagnostics, the audio server, a media
//! player), picks out the fields it needs, derives a small display state and
//! renders a long line, a short line and an optional color.
pub mod pattern;
pub mod report;
pub mod text;
pub mod gpu;
pub mod audio;
pub mod player;
