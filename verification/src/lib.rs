//! A terminal front end for the Jujutsu version control system: the command
//! lines it hands to `jj`, the key bindings that choose them, and the state of
//! the selection, the text prompt and the fuzzy finder between key presses.
pub mod actions;
pub mod ansi;
pub mod binding_order;
pub mod command_tree;
pub mod fuzzy;
pub mod keys;
pub mod layout;
pub mod listing;
pub mod message;
pub mod model;
pub mod prompt;
pub mod shell_out;
pub mod styled;
pub mod text;
pub mod update;
