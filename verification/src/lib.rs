//! Type names for generated OpenGL, GLX and WGL bindings.
//!
//! The registries of the three interfaces spell their types as C does. This
//! crate maps each such spelling to the type that the generated Rust code
//! uses for it, forms the return part of a generated signature, and holds
//! the blocks of declarations that the generated code opens with.

pub mod aliases;
pub mod order;
pub mod standard;
pub mod suffix;
pub mod table;
pub mod text;
pub mod ty;

pub use aliases::{
    get_alias_block, BlockId, Src, GLX_ALIASES, GL_ALIASES, WGL_ALIASES, WIN_ALIASES, X_ALIASES,
};
pub use standard::STANDARD_ENTRIES;
pub use table::{DuplicateSpelling, Entry, TypeTable, UnresolvedType};
pub use ty::{to_return_suffix, to_rust_ty};
