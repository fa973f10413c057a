//! ANSI styling for values rendered as text: colors, attributes and the
//! decision of when escape sequences are emitted.

pub mod color;
pub mod escape;
pub mod policy;
pub mod styled;

pub use color::{Color, Style};
pub use policy::supports_styling;
pub use styled::{style, Styled};
