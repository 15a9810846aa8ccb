//! Formatted output to a writer that several callers share behind a lock.

use vstd::prelude::*;
use vstd::string::StringSliceAdditionalSpecFns;
use core::fmt::{Arguments, Error};
use core::ops::DerefMut;
use spin::{Mutex, MutexGuard};
use crate::writer::Writer;

verus! {

/// `spin::Mutex`, a lock that spins until it is free. What it guards is not
/// visible to the verifier.
#[verifier::external_type_specification]
#[verifier::external_body]
#[verifier::reject_recursive_types(T)]
pub struct ExMutex<T: ?Sized>(Mutex<T>);

/// `spin::MutexGuard`, the held lock; dropping it releases the lock.
#[verifier::external_type_specification]
#[verifier::external_body]
#[verifier::reject_recursive_types(T)]
pub struct ExMutexGuard<'a, T: ?Sized + 'a>(MutexGuard<'a, T>);

/// `core::fmt::Arguments`, a format template with its values.
#[verifier::external_type_specification]
#[verifier::external_body]
pub struct ExArguments<'a>(Arguments<'a>);

/// `core::fmt::Error`, the failure of a formatting trait.
#[verifier::external_type_specification]
#[verifier::external_body]
pub struct ExError(Error);

/// `Mutex::lock`: spins until the lock is free and takes it. It does not
/// return while the caller itself still holds the lock. Nothing is claimed
/// of the writer behind it.
#[verifier::external_body]
fn acquire<'a>(lock: &'a Mutex<Writer>) -> (guard: MutexGuard<'a, Writer>) {
    lock.lock()
}

/// `MutexGuard::deref_mut`: the writer that the held lock guards. Nothing
/// is claimed of its state.
#[verifier::external_body]
fn guarded<'a, 'b>(guard: &'b mut MutexGuard<'a, Writer>) -> (writer: &'b mut Writer) {
    guard.deref_mut()
}

/// `core::fmt::write`: renders `args` onto the end of `text`. Nothing is
/// claimed of the text or of the result, which are up to the formatting
/// traits of the values.
#[verifier::external_body]
fn render(text: &mut String, args: Arguments<'_>) -> (done: Result<(), Error>) {
    core::fmt::write(text, args)
}

impl core::fmt::Write for Writer {
    /// Writes `s` as `write_string` does, and never fails.
    fn write_str(&mut self, s: &str) -> (done: Result<(), Error>)
        ensures
            done is Ok,
            final(self)@ == old(self)@.emit(s.spec_bytes()),
            final(self)@.wf(),
    {
        self.write_string(s);
        Ok(())
    }
}

impl Writer {
    /// Renders `args` and writes the text as `write_string` does. The
    /// result is that of the rendering; what was rendered before a failure
    /// is written all the same.
    pub fn write_fmt(&mut self, args: Arguments<'_>) -> (done: Result<(), Error>)
        ensures
            exists|bytes: Seq<u8>| final(self)@ == #[trigger] old(self)@.emit(bytes),
            final(self)@.wf(),
    {
        let mut text = String::new();
        let rendered = render(&mut text, args);
        let done = self.write_rendered(text.as_str(), rendered);
        done
    }
}

/// Takes the lock, renders `args` to the writer behind it as `write_fmt`
/// does, and releases the lock, whatever the rendering gave. While the lock
/// is held no other caller reaches the writer, so the writes of one call are
/// not mixed with those of another. Neither the state behind a lock nor the
/// outcome of a rendering is visible in a contract: what is written and
/// returned for each outcome is stated by `Writer::write_rendered`.
pub fn _print(writer: &Mutex<Writer>, args: Arguments<'_>) -> (done: Result<(), Error>) {
    let mut guard = acquire(writer);
    let held = guarded(&mut guard);
    held.write_fmt(args)
}

impl Writer {
    /// Writes `text`, which a rendering left, as `write_string` does, and
    /// hands on what the rendering gave: the text rendered before a failure
    /// is written all the same, and the failure is still reported.
    pub fn write_rendered(&mut self, text: &str, rendered: Result<(), Error>) -> (done: Result<
        (),
        Error,
    >)
        ensures
            final(self)@ == old(self)@.emit(text.spec_bytes()),
            final(self)@.wf(),
            done == rendered,
    {
        self.write_string(text);
        rendered
    }
}

} // verus!
