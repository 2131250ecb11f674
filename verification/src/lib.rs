//! A terminal color and theme model: colors with their text parsing rules, a
//! palette of named color roles, semantic color styles resolved against a
//! theme, and a loader that fills a theme from TOML configuration text.

pub mod color;
pub mod config;
pub mod loader;
pub mod style;
pub mod theme;

pub use color::{load_hex, BaseColor, Color};
pub use loader::{load_default, load_theme, LoadError};
pub use style::{ColorPair, ColorStyle, Effect};
pub use theme::{load_color, BorderStyle, Palette, Theme};
