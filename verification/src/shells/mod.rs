//! The kinds of native surface a scene window can be backed by.

pub mod layer_shell;
