pub mod clipboard;
pub mod entity;
pub mod events;
pub mod input;
pub mod util;
pub mod wayland;
pub mod wl;
pub mod wp;
pub mod x11;
pub mod xdg;
pub mod zwlr;
pub mod zwp;
pub mod zxdg;
