//! Ternary outcomes: success, partial success with a measured loss, and
//! failure that still carries the loss accumulated before it.

pub mod aperture;
pub mod context;
pub mod convergence;
pub mod imperfect;
pub mod interop;
pub mod laws;
pub mod loss;
pub mod model;
pub mod std_losses;
pub mod transparency;

pub use context::{Eh, IntoEh};
pub use convergence::ConvergenceLoss;
pub use imperfect::Imperfect;
pub use loss::Loss;
pub use transparency::Diagnostic;
