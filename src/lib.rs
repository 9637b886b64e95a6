//! Pointers to values and to slices, modelled as plain addresses.
//!
//! A pointer to one `T` is its address; a pointer to `[T]` is a fat pointer,
//! the address of its first element together with the number of elements.
//! Moving a pointer by a count of elements is specified by the element size,
//! and the conditions under which such a move is defined are its `requires`.
pub mod ptr;
pub mod slice;
