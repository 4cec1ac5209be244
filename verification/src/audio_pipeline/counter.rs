//! The position counters of the ring buffer.
//!
//! A counter is an atomic word. The ring buffer owns its two counters and
//! stores to them only through exclusive references, so between two stores
//! a counter holds one value, which the contracts below name.

use vstd::prelude::*;
use portable_atomic::{AtomicUsize, Ordering};

verus! {

/// `portable_atomic::AtomicUsize`: an atomic machine word. Nothing inside it
/// is visible here; `counter_value` names what it holds.
#[verifier::external_type_specification]
#[verifier::external_body]
pub struct ExAtomicUsize(portable_atomic::AtomicUsize);

/// The value that a counter holds.
pub uninterp spec fn counter_value(counter: AtomicUsize) -> usize;

/// `portable_atomic::AtomicUsize::new`: a counter that holds `value`.
#[verifier::external_body]
pub(crate) fn counter_new(value: usize) -> (counter: AtomicUsize)
    ensures
        counter_value(counter) == value,
{
    AtomicUsize::new(value)
}

/// `portable_atomic::AtomicUsize::load`, with acquire ordering: the value
/// that the counter holds.
#[verifier::external_body]
pub(crate) fn counter_load(counter: &AtomicUsize) -> (value: usize)
    ensures
        value == counter_value(*counter),
{
    counter.load(Ordering::Acquire)
}

/// `portable_atomic::AtomicUsize::store`, with release ordering: afterwards
/// the counter holds `value`.
#[verifier::external_body]
pub(crate) fn counter_store(counter: &mut AtomicUsize, value: usize)
    ensures
        counter_value(*final(counter)) == value,
{
    counter.store(value, Ordering::Release)
}

} // verus!
