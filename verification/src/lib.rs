//! Styled text for terminal interfaces: runs of text that carry a style,
//! grouped into lines, grouped into blocks, and the number of terminal
//! columns each of them takes.

pub mod style;
pub mod text;
pub mod width;
