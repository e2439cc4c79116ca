//! Typed builders for a process's exploit-mitigation policies.
//!
//! Each builder accumulates a 32-bit flag mask for one mitigation category and
//! hands it, tagged with its category, to a caller-supplied entry point that
//! applies it to the running process.
pub mod aslr;
pub mod binary_signature;
pub mod category;
pub mod child_process;
pub mod commit;
pub mod dynamic_code;
pub mod extension_point;
pub mod flags;
pub mod font_disable;
pub mod image_load;
pub mod strict_handle;
pub mod lemmas;
