//! Deterministic 2D geometry on Q16.16 fixed-point numbers.
//!
//! The crate provides two value types: [`Vector`], a 2D coordinate or
//! direction, and [`Rect`], an axis-aligned rectangle built from two
//! vectors. All arithmetic is carried out on the raw 16.16 fixed-point
//! representation so that results are bit-identical across platforms,
//! which lockstep simulations and replay systems depend on. Every
//! operation carries a contract that states its result exactly over the
//! raw bits; the algebraic properties of the operations are proved as
//! public lemmas alongside them.

mod fp;
mod rect;
mod vector;

pub use fp::Fp;
pub use fp::FP_SCALE;
pub use fp::cos_bits;
pub use fp::div_bits;
pub use fp::isqrt;
pub use fp::lemma_isqrt_bounds;
pub use fp::lemma_mul_bits_exact;
pub use fp::lemma_tdiv_add_error;
pub use fp::lemma_wrap_i32_in_range;
pub use fp::mul_bits;
pub use fp::sin_bits;
pub use fp::sqrt_bits;
pub use fp::tdiv;
pub use fp::wrap_i32;
pub use rect::Rect;
pub use rect::lemma_union_associative;
pub use rect::lemma_union_commutative;
pub use rect::lemma_union_idempotent;
pub use vector::Vector;
pub use vector::abs_int;
pub use vector::int_div_vec;
pub use vector::int_mul_vec;
pub use vector::lemma_add_neg_is_zero;
pub use vector::lemma_scale_distributes;
