//! The two forms every setting takes: span-tracked in `specification`, and
//! narrowed to the runtime type in `runtime`. Lowering carries a value from
//! one to the other.

pub mod runtime;
pub mod specification;
