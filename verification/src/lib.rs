//! Decorative, fixed-width banner comments in the comment syntax of a chosen
//! programming language.
//!
//! A banner is one line: the opening and the closing comment delimiter of
//! the language, and between them the text, centred in a run of dashes so
//! that the whole line has the requested width:
//!
//! ```text
//! /* ------------------------------ some comment ------------------------------ */
//! ```
//!
//! * [`language`] knows which delimiters a language uses.
//! * [`banner`] renders the line.
//! * [`cli`] turns the arguments of the banner program into what it writes.
//! * [`length`] reads a width from an argument, [`text`] compares and trims
//!   strings, and [`options`] states what the library relies on in `getopts`.

pub mod banner;
pub mod cli;
pub mod language;
pub mod length;
pub mod options;
pub mod text;
