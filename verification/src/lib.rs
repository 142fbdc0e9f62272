//! A pointer-ownership abstraction layer for intrusive-style collections.
//!
//! Generic collection code stores only raw addresses in its link fields.  This
//! crate defines the contract by which an owned handle is exchanged for such a
//! raw address and back ([`pointer_ops::PointerOps`]), the tiered negotiation
//! of mutable access ([`pointer_ops::TryExclusivePointerOps`] and
//! [`pointer_ops::ExclusivePointerOps`]), the per-ownership-kind default
//! policies ([`pointer_ops::DefaultPointerOps`]), the two caller-managed
//! unchecked wrappers ([`unsafe_ref::UnsafeRef`] and [`unsafe_ref::UnsafeMut`]),
//! and the guarded clone-from-raw operation.
//!
//! Allocations themselves are modelled by an explicit [`arena::Arena`]: a slot
//! per allocation, holding the managed value together with its ownership
//! bookkeeping (unique, or shared with a strong count).  A raw address is an
//! index into the arena paired with the metadata half that a dynamically-sized
//! referent carries, so the metadata round-trips bit-for-bit exactly as a fat
//! pointer's would.

pub mod arena;
pub mod handle;
pub mod pointer_ops;
pub mod unsafe_ref;

pub use arena::Arena;
pub use arena::Slot;
pub use handle::ArcPtr;
pub use handle::BoxPtr;
pub use handle::Pinned;
pub use handle::RawPtr;
pub use handle::RcPtr;
pub use handle::RefPtr;
pub use pointer_ops::ClonePointerOps;
pub use pointer_ops::DefaultPointerOps;
pub use pointer_ops::ExclusivePointerOps;
pub use pointer_ops::PointerOps;
pub use pointer_ops::TryExclusivePointerOps;
pub use pointer_ops::clone_pointer_from_raw;
pub use pointer_ops::try_clone_pointer_from_raw;
pub use unsafe_ref::UnsafeMut;
pub use unsafe_ref::UnsafeRef;
