//! Synthesis of phantom marker types for generic parameter lists.
//!
//! Given a generic parameter list, the crate builds a zero-sized marker type
//! of the shape `::core::marker::PhantomData<fn(&'a (), ...) -> (T, ...)>`
//! that uses every lifetime and every type parameter of the list, so that a
//! surrounding generic item compiles without unused-parameter errors. The
//! marker is `Send` and `Sync`: the function pointer inside carries no data.

pub mod bridge;
pub mod params;
pub mod phantom;
pub mod render;

pub use params::GenericParam;
pub use params::GenericParams;
pub use phantom::PhantomType;
pub use phantom::ToPhantom;
