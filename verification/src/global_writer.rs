//! The process-wide synchronized accessor: one writer behind a mutual-
//! exclusion lock.
//!
//! Every output request takes the lock, performs its whole sequence of byte
//! writes, and releases on return — so one logical message is never
//! interleaved character-by-character with another concurrent message, and
//! the lock is released on every exit path. The lock is `spin::Mutex`; its
//! mutual exclusion is relied on, not proved here. The trusted boundary is
//! only taking the lock and reaching the writer through the guard: what the
//! bytes then do to the screen is the verified `Writer` logic, called from
//! verified code while the guard is held.
//!
//! Creating the one process-wide instance and wiring it into process start
//! is the embedding program's explicit initialization step; this module only
//! provides the guarded type.

use vstd::prelude::*;

use crate::screen::{BUFFER_HEIGHT, NEWLINE_BYTE};
use crate::writer::Writer;

verus! {

#[verifier::external_type_specification]
#[verifier::external_body]
pub struct ExSpin(spin::relax::Spin);

#[verifier::external_type_specification]
#[verifier::external_body]
#[verifier::reject_recursive_types(T)]
#[verifier::reject_recursive_types(R)]
pub struct ExSpinMutex<T: ?Sized, R>(spin::mutex::Mutex<T, R>);

#[verifier::external_type_specification]
#[verifier::external_body]
#[verifier::reject_recursive_types(T)]
#[verifier::reject_recursive_types(R)]
pub struct ExSpinMutexGuard<'a, T: 'a + ?Sized, R>(spin::mutex::MutexGuard<'a, T, R>);

/// Relies on spin::mutex::Mutex::new: wraps the value in a new, unlocked
/// mutex.
#[verifier::external_body]
fn mutex_new(writer: Writer) -> spin::mutex::Mutex<Writer, spin::relax::Spin> {
    spin::mutex::Mutex::new(writer)
}

/// Relies on spin::mutex::Mutex::lock: blocks until the lock is free, then
/// returns a guard granting exclusive access to the held writer; dropping
/// the guard releases the lock.
#[verifier::external_body]
fn mutex_lock<'a>(
    m: &'a spin::mutex::Mutex<Writer, spin::relax::Spin>,
) -> spin::mutex::MutexGuard<'a, Writer, spin::relax::Spin> {
    m.lock()
}

/// Relies on spin::mutex::MutexGuard's `Deref`: the guard points at the
/// writer it locked. Only well-formed writers ever enter the mutex —
/// `GlobalWriter::new` demands one, and everything reached through these
/// guard accessors is verified to preserve well-formedness — so the writer
/// seen through the guard is well-formed.
#[verifier::external_body]
fn guard_writer<'a, 'b>(
    g: &'b spin::mutex::MutexGuard<'a, Writer, spin::relax::Spin>,
) -> (w: &'b Writer)
    ensures
        w.wf(),
{
    &**g
}

/// Relies on spin::mutex::MutexGuard's `DerefMut`, with the same
/// well-formedness reasoning as `guard_writer`.
#[verifier::external_body]
fn guard_writer_mut<'a, 'b>(
    g: &'b mut spin::mutex::MutexGuard<'a, Writer, spin::relax::Spin>,
) -> (w: &'b mut Writer)
    ensures
        w.wf(),
{
    &mut **g
}

/// One writer behind a mutual-exclusion lock, for shared use by concurrent
/// callers. Each operation holds the lock for exactly its own duration, so
/// whole messages from different callers are serialized, never interleaved.
pub struct GlobalWriter {
    inner: spin::mutex::Mutex<Writer, spin::relax::Spin>,
}

impl GlobalWriter {
    /// Puts a writer behind a fresh lock.
    pub fn new(writer: Writer) -> GlobalWriter
        requires
            writer.wf(),
    {
        GlobalWriter { inner: mutex_new(writer) }
    }

    /// Writes one whole message: takes the lock, feeds every byte to the
    /// writer in order, releases. What each byte does to the screen is
    /// `Writer::write_byte`'s verified contract.
    pub fn write_message(&self, bytes: &[u8]) {
        let mut guard = mutex_lock(&self.inner);
        let writer = guard_writer_mut(&mut guard);
        writer.write_text(bytes);
    }

    /// Writes the UTF-8 bytes of a string as one message.
    pub fn write_str(&self, s: &str) {
        self.write_message(s.as_bytes());
    }

    /// Clears the display by writing one message of `BUFFER_HEIGHT`
    /// newlines — one line advance per row, scrolling the buffer empty.
    pub fn clear_screen(&self) {
        let mut bytes: Vec<u8> = Vec::new();
        let mut i: usize = 0;
        while i < BUFFER_HEIGHT
            invariant
                i <= BUFFER_HEIGHT,
                bytes@.len() == i,
                forall|j: int| 0 <= j < i ==> bytes@[j] == NEWLINE_BYTE,
            decreases BUFFER_HEIGHT - i,
        {
            bytes.push(NEWLINE_BYTE);
            i = i + 1;
        }
        self.write_message(bytes.as_slice());
    }

    /// A consistent copy of the writer taken under the lock, for inspecting
    /// the screen contents and cursor.
    pub fn snapshot(&self) -> (w: Writer)
        ensures
            w.wf(),
    {
        let guard = mutex_lock(&self.inner);
        let writer = guard_writer(&guard);
        writer.duplicate()
    }
}

} // verus!
