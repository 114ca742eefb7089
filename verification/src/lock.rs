//! The lock of the standard library that guards a shared buffer.
//!
//! Nothing in this file is proved: it states what the rest of the crate
//! takes from `std::sync` on trust. A lock is known by what it was made
//! with. No contract here says what a lock holds afterwards, since that
//! changes under every handle's call; what comes out of a lock is known to be
//! a valid [`BufferState`] and nothing more.

use vstd::prelude::*;
use std::sync::Arc;
use std::sync::Mutex;
use std::sync::MutexGuard;
use crate::model::BufferModel;
use crate::state::BufferState;

verus! {

/// `std::sync::Mutex`, opaque.
#[verifier::external_type_specification]
#[verifier::external_body]
#[verifier::reject_recursive_types(T)]
pub struct ExMutex<T: ?Sized>(Mutex<T>);

/// `std::sync::MutexGuard`, opaque: the token of holding a `Mutex`, which
/// is released when the token is dropped.
#[verifier::external_type_specification]
#[verifier::external_body]
#[verifier::reject_recursive_types(T)]
pub struct ExMutexGuard<'a, T: ?Sized + 'a>(MutexGuard<'a, T>);

/// The value of the buffer that `lock` was made around. A lock is made once,
/// so this is fixed for good, whatever the lock comes to hold later.
pub uninterp spec fn made_with(lock: Mutex<BufferState>) -> BufferModel;

/// `Mutex::new`: a free lock around `state`, which is thereby what the lock
/// was made with. Nothing is claimed of what it holds at any later time.
#[verifier::external_body]
pub(crate) fn new_lock(state: BufferState) -> (lock: Mutex<BufferState>)
    ensures
        made_with(lock) == state@,
{
    Mutex::new(state)
}

/// `Mutex::lock`: waits until the lock is free and takes it. Nothing is
/// claimed of the guard.
///
/// Panics with "lock poisoned" where an earlier holder panicked while it
/// held the lock; that is an unrecoverable error. The holders in this crate
/// are the operations of [`IoBuffer`](crate::shared::IoBuffer), which are
/// proved free of panics of their own; what is left is a panic of the
/// allocator while a write grows the buffer. `Mutex::lock` may also panic, or
/// wait for good, where the calling thread holds the lock already: no
/// operation of this crate asks for a lock while it holds one.
#[verifier::external_body]
pub(crate) fn acquire<'a>(lock: &'a Arc<Mutex<BufferState>>) -> MutexGuard<'a, BufferState> {
    lock.lock().expect("lock poisoned")
}

/// `DerefMut::deref_mut` of a guard: the buffer inside the held lock.
/// Nothing is claimed of its value, which is whatever the holder before left
/// there.
#[verifier::external_body]
pub(crate) fn held<'a, 'b>(guard: &'a mut MutexGuard<'b, BufferState>) -> &'a mut BufferState {
    &mut **guard
}

/// `Arc::clone`: one more pointer to the same lock. To Verus an `Arc` is
/// what it points to, so the new pointer equals the given one.
#[verifier::external_body]
pub(crate) fn share(lock: &Arc<Mutex<BufferState>>) -> (shared: Arc<Mutex<BufferState>>)
    ensures
        shared == *lock,
{
    Arc::clone(lock)
}

} // verus!
