//! Terminal text styling with verified escape-sequence rendering.
//!
//! The library attaches a foreground color, a background color and a set of
//! text attributes to a piece of text, and renders the text together with the
//! ANSI escape sequences that realise that styling, honouring the color
//! capability of the output terminal (16-color, 256-color or truecolor) by
//! downgrading colors to the nearest representable one when needed.

pub mod color;
pub mod colored_string;
pub mod colorize;
pub mod customcolors;
pub mod hex;
pub mod style;

pub use color::Color;
pub use color::ColorLevel;
pub use color::ansi256_to_rgb;

pub use colored_string::ColoredString;
pub use colorize::Colorize;
pub use customcolors::CustomColor;
pub use hex::parse_hex;

pub use style::Style;
pub use style::Styles;
