//! One detector for each family of editors.

pub mod jetbrains;
pub mod terminal;
pub mod vscode;
