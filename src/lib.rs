//! State machines behind a password-manager form: the session controller,
//! the alias autocomplete box, the multi-tap on-screen keyboard and the focus
//! coordinator that ties them together.
pub mod combobox;
pub mod focus;
pub mod keyboard;
pub mod session;
pub mod text;
