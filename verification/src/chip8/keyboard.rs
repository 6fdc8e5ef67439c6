use vstd::prelude::*;
use std::sync::{Arc, Condvar, Mutex, MutexGuard};

verus! {

/// `std::sync::Mutex`, carried as an opaque value.
#[verifier::external_type_specification]
#[verifier::external_body]
#[verifier::reject_recursive_types(T)]
pub struct ExMutex<T: ?Sized>(Mutex<T>);

/// `std::sync::Condvar`, carried as an opaque value.
#[verifier::external_type_specification]
#[verifier::external_body]
pub struct ExCondvar(Condvar);

/// `std::sync::MutexGuard`, carried as an opaque value.
#[verifier::external_type_specification]
#[verifier::external_body]
#[verifier::reject_recursive_types(T)]
pub struct ExMutexGuard<'a, T: ?Sized + 'a>(MutexGuard<'a, T>);

/// The key, or none, that a lock was made around: what it guarded before any thread wrote
/// to it. What it guards later is decided by the threads that write, and has no name.
pub uninterp spec fn spec_first_key(lock: &Mutex<Option<u8>>) -> Option<u8>;

/// `Mutex::new` makes an unlocked mutex around the value it is given. The claim is that the
/// new lock was made around `key`.
#[verifier::external_body]
fn new_lock(key: Option<u8>) -> (lock: Mutex<Option<u8>>)
    ensures
        spec_first_key(&lock) == key,
{
    Mutex::new(key)
}

/// `Condvar::new` makes a condition variable with no waiters. Nothing is claimed of it.
pub assume_specification[ Condvar::new ]() -> Condvar;

/// `Condvar::notify_all` wakes every thread that waits on the condition variable. Nothing
/// is claimed of it.
pub assume_specification[ Condvar::notify_all ](condvar: &Condvar);

/// `Mutex::lock`: waits for the lock and hands out its guard, or `None` where the lock is
/// poisoned, that is where a thread panicked while it held the lock. Nothing is claimed of
/// the guard. The calling thread must not hold the lock already; every function of this file
/// drops its guard before it returns.
#[verifier::external_body]
fn lock_key<'a>(mutex: &'a Mutex<Option<u8>>) -> Option<MutexGuard<'a, Option<u8>>> {
    match mutex.lock() {
        Ok(guard) => Some(guard),
        Err(_) => None,
    }
}

/// `Condvar::wait_while`: gives the lock up and sleeps until a notification finds a key
/// held, then hands the guard back; `None` where the lock is poisoned. It does not return
/// while no key is set. Nothing is claimed of the guard: other threads decide when and with
/// which key the wait ends. The condition variable must always be used with the same mutex;
/// here the two are made together and never parted.
#[verifier::external_body]
fn wait_while_absent<'a>(condvar: &Condvar, guard: MutexGuard<'a, Option<u8>>) -> Option<
    MutexGuard<'a, Option<u8>>,
> {
    match condvar.wait_while(guard, |key| is_absent(key)) {
        Ok(guard) => Some(guard),
        Err(_) => None,
    }
}

/// Reads through the guard (`Deref::deref`). Nothing is claimed of the key read: other
/// threads write it.
#[verifier::external_body]
fn read_key(guard: &MutexGuard<'_, Option<u8>>) -> Option<u8> {
    **guard
}

/// Writes through the guard (`DerefMut::deref_mut`). The guard is opaque, so nothing is
/// claimed.
#[verifier::external_body]
fn write_key(guard: &mut MutexGuard<'_, Option<u8>>, key: Option<u8>) {
    **guard = key;
}

/// Whether no key is held: the condition on which a blocking read goes on waiting.
pub fn is_absent(key: &Option<u8>) -> (absent: bool)
    ensures
        absent == (*key is None),
{
    key.is_none()
}

/// The key that is down, or none, shared between the machine and the thread that feeds it
/// key presses. Clones are handles to the same state.
///
/// The state is guarded by a lock and comes with a condition on which a reader can wait for
/// a key. What a read returns is decided by the other threads, so the functions below
/// promise nothing of it; what the machine does with a key once read is stated where the
/// key is handed in, as in `Chip8::load_input_with`.
///
/// No function here can panic while it holds the lock, so the lock is never poisoned by
/// this library. Should it be poisoned all the same, writes are dropped and reads return
/// `None`.
#[derive(Debug, Clone)]
pub struct Keyboard {
    shared: Arc<(Mutex<Option<u8>>, Condvar)>,
}

impl Keyboard {
    /// The key, or none, that was down when the state behind this handle was made.
    pub closed spec fn first_key(&self) -> Option<u8> {
        spec_first_key(&self.shared.0)
    }

    /// A keyboard of its own, behind a new lock, made with no key down.
    pub fn new() -> (keyboard: Self)
        ensures
            keyboard.first_key() is None,
    {
        Keyboard { shared: Arc::new((new_lock(None), Condvar::new())) }
    }

    /// Records `key` as the key that is down and wakes every blocked reader.
    pub fn set_key(&self, key: u8) {
        if let Some(mut guard) = lock_key(&self.shared.0) {
            write_key(&mut guard, Some(key));
            self.shared.1.notify_all();
        }
    }

    /// Records that no key is down and wakes every blocked reader.
    pub fn clear_key(&self) {
        if let Some(mut guard) = lock_key(&self.shared.0) {
            write_key(&mut guard, None);
            self.shared.1.notify_all();
        }
    }

    /// The key that is down at the moment of the call, without waiting.
    pub fn current_key(&self) -> (key: Option<u8>) {
        match lock_key(&self.shared.0) {
            Some(guard) => read_key(&guard),
            None => None,
        }
    }

    /// Blocks the calling thread until a key is down, then returns it. There is no
    /// timeout: the call returns only once another thread has set a key.
    pub fn wait_key(&self) -> (key: Option<u8>) {
        match lock_key(&self.shared.0) {
            Some(guard) => match wait_while_absent(&self.shared.1, guard) {
                Some(guard) => read_key(&guard),
                None => None,
            },
            None => None,
        }
    }
}

} // verus!
