//! The forwarding adapter and the once-only registration of the
//! process-wide logger.
//!
//! The rendering engine writes each event's text into a per-thread
//! [`CaptureBuffer`]; the adapter validates the bytes, hands them with the
//! event's severity to the caller-supplied handler, and clears the buffer on
//! every path, so that no event ever sees the prior event's bytes.

use vstd::prelude::*;
use crate::buffer::{contains_nul, CaptureBuffer};
use crate::config::LoggingConfig;
use crate::level::{level_enabled, spec_enabled, LogLevel};

verus! {

/// The error returned when the process-wide logger is configured a second
/// time.
#[derive(Copy, Clone, Debug, PartialEq, Eq, Structural)]
pub struct TracingInitError;

/// The callback capability supplied by the caller: receives each admitted
/// event's severity and its rendered text, which is free of nul bytes.
pub trait LogHandler {
    fn on_message(&self, level: LogLevel, message: &[u8]);
}

/// The adapter that bridges the rendering engine to one caller-supplied
/// handler: it holds the handler and the configuration whose threshold
/// admits events.
pub struct Adapter<H: LogHandler> {
    /// The caller-supplied callback.
    pub handler: H,
    /// The configuration the logger was registered with.
    pub config: LoggingConfig,
}

/// Builds the adapter that forwards each admitted event to `handler`
/// according to `config`.
pub fn adapter<H: LogHandler>(config: LoggingConfig, handler: H) -> (r: Adapter<H>)
    ensures
        r.config == config,
        r.handler == handler,
{
    Adapter { handler, config }
}

impl<H: LogHandler> Adapter<H> {
    /// Forwards one rendered event: the handler is invoked, with the event's
    /// own severity and the buffer's bytes, exactly when the severity passes
    /// the configured threshold and the bytes hold no nul byte; an event
    /// whose text holds a nul byte is dropped silently. The buffer is
    /// cleared on every path, also when the event is dropped, so no later
    /// event sees this one's bytes. Returns the forwarded message: exactly
    /// what the handler was given, or nothing where it was not invoked.
    pub fn handle_event(&self, level: LogLevel, buffer: &mut CaptureBuffer)
        -> (forwarded: Option<Vec<u8>>)
        ensures
            forwarded is Some == (spec_enabled(self.config.level, level)
                && !contains_nul(old(buffer)@)),
            forwarded matches Some(m) ==> m@ == old(buffer)@,
            final(buffer)@ == Seq::<u8>::empty(),
    {
        let mut forwarded: Option<Vec<u8>> = None;
        if level_enabled(self.config.level, level) {
            if let Some(message) = buffer.message() {
                self.handler.on_message(level, message.as_slice());
                forwarded = Some(message);
            }
        }
        buffer.clear();
        forwarded
    }
}

/// Law: an event never sees the prior event's bytes. [`Adapter::handle_event`]
/// leaves the buffer empty on every path, and appending one event's writes
/// to an empty buffer yields exactly those writes.
pub proof fn lemma_no_residual_bytes(next_writes: Seq<u8>)
    ensures
        Seq::<u8>::empty() + next_writes == next_writes,
{
    assert(Seq::<u8>::empty() + next_writes =~= next_writes);
}

/// One registration attempt against the process-wide once slot: given
/// whether the slot is already occupied, the caller's result and the slot's
/// state afterwards.
pub open spec fn registry_step(occupied: bool) -> (Result<(), TracingInitError>, bool) {
    if occupied {
        (Err(TracingInitError), true)
    } else {
        (Ok(()), true)
    }
}

/// Law: an attempt leaves the slot occupied whatever state it was in, so a
/// second registration always yields the double-initialization error,
/// whatever the first returned and whatever configuration either carried.
pub proof fn lemma_second_registration_fails(occupied: bool)
    ensures
        registry_step(occupied).1,
        registry_step(registry_step(occupied).1).0
            == Err::<(), TracingInitError>(TracingInitError),
{
}

/// Relies on tracing::subscriber::set_global_default: installs the
/// subscriber as the process-wide default through a compare-and-swap once
/// slot, returning Ok exactly on the call that finds the slot free — the
/// first such call in the process — and Err on every later call.
#[verifier::external_body]
fn install_global_subscriber<S>(subscriber: S) -> (installed: bool)
    where S: tracing::Subscriber + Send + Sync + 'static,
{
    tracing::subscriber::set_global_default(subscriber).is_ok()
}

/// Maps the installation outcome to the caller-facing result: success
/// exactly when the once slot was free, the double-initialization error
/// otherwise.
pub fn registration_result(installed: bool) -> (r: Result<(), TracingInitError>)
    ensures
        r == registry_step(!installed).0,
{
    if installed {
        Ok(())
    } else {
        Err(TracingInitError)
    }
}

/// Registers `subscriber` as the process-wide log sink for the rest of the
/// process's lifetime; there is no unregistration. The once slot decides:
/// the registration that finds it free succeeds, every other returns the
/// double-initialization error.
pub fn configure_logging<S>(subscriber: S) -> (r: Result<(), TracingInitError>)
    where S: tracing::Subscriber + Send + Sync + 'static,
    ensures
        r is Err ==> r == Err::<(), TracingInitError>(TracingInitError),
{
    let installed = install_global_subscriber(subscriber);
    registration_result(installed)
}

} // verus!
