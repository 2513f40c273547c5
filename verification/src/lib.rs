//! Marked pointers: machine words that carry a pointer together with a small
//! tag in the low bits that the pointee's alignment leaves unused.
//!
//! Lock-free data structures exchange a pointer and a piece of companion
//! state with one atomic instruction.  The types here compose, decompose and
//! mutate such words.  They work on addresses and never dereference one: the
//! pointee, its lifetime and the access to it are the caller's.

pub mod atomic;
pub mod codec;
pub mod dwcas;
pub mod maybe;
pub mod native;
pub mod native_atomic;
pub mod non_null;
pub mod ptr;
pub mod ptr128;
pub mod traits;

pub use crate::atomic::AtomicMarkedPtr;
pub use crate::codec::{assert_alignment, has_sufficient_alignment};
pub use crate::dwcas::AtomicMarkedPtr128;
pub use crate::maybe::MaybeNull;
pub use crate::non_null::{MarkedNonNull, Null};
pub use crate::ptr::MarkedPtr;
pub use crate::ptr128::MarkedPtr128;
pub use crate::traits::NonNullable;
