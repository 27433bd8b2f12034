//! A minimal dtype-tagged tensor engine with shape-checked elementwise
//! arithmetic, whole-buffer reductions, and a one-step reverse-mode
//! gradient mechanism.
//!
//! Floating-point data is carried as IEEE 754 binary64 bit patterns
//! (`u64`); the scalar floating-point operations themselves are performed
//! by the `rustc_apfloat` software implementation behind the trusted
//! wrappers in [`fbits`].

pub mod fbits;
pub mod laws;
pub mod tensor;
