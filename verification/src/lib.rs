//! A command-line password generator's core: resolve string arguments into
//! a validated format template, then render the template into a password by
//! drawing one character per class symbol from its fixed candidate set.

pub mod numerals;
pub mod options;
pub mod render;
pub mod template;
pub mod text;

pub use options::Notice;
pub use options::Options;
pub use options::parse_options_from_args;
pub use options::resolve_options;
pub use render::generate_password_from_options;
pub use render::match_format_char_to_replacement;
pub use template::generate_format_from_custom_length;
pub use template::validate_format;
