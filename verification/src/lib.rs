//! A scoped storage slot: a cell that holds a value only for the dynamic extent of a call.
//!
//! [`slot::Slot::set`] publishes a value for as long as a body runs, [`slot::Slot::with`] lends
//! the published value to nested code, and [`slot::Slot::is_set`] tells whether a value is
//! published right now. Scopes nest: an inner `set` hides the outer value, and the outer value
//! is back as soon as the inner body has ended.
//!
//! Nothing is ambient. The slot is a value of its owner, and every body and callback is handed
//! the slot it may work on, so its contract can say in which state it finds the slot and in
//! which state it leaves it. While a `with` callback holds the value, the value is physically
//! out of the slot: a second `with` on the same slot finds it empty and is refused, which is
//! what keeps two exclusive borrows of one value from ever existing.
pub mod example;
pub mod guard;
pub mod laws;
pub mod slot;
