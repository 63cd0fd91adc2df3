//! Conditional transformation of a borrowed reference.
//!
//! A caller that holds a reference hands it to a closure. Where the closure
//! produces a value, the caller gets that value; where the closure declines,
//! the caller gets the reference back and can go on with it.
//!
//! [`TryTransform`] does this for shared references, which the closure receives
//! for their whole lifetime. [`try_transform_mut`] does it for exclusive
//! references: the closure borrows the target for the length of its call, may
//! change it, and cannot keep hold of it, so on a decline the one exclusive
//! reference there is goes back to the caller.
pub mod exclusive;
pub mod shared;

pub use exclusive::try_transform_mut;
pub use shared::TryTransform;
