//! A single-slot asynchronous bridge between a redraw-driven UI and the
//! blocking, OS-native file dialogs of [`native_dialog`].
//!
//! [`ImNativeFileDialog`] holds at most one outstanding dialog request. An
//! open operation hands back the work of the request as a job value; running
//! that job (on a worker thread, see the accompanying application layer)
//! blocks on the native dialog and delivers the outcome over a one-shot
//! channel. The UI polls with [`ImNativeFileDialog::check`] once per frame,
//! which never blocks and returns the outcome exactly once, and gates further
//! open attempts with [`ImNativeFileDialog::is_open`].

use vstd::prelude::*;

mod channel;
mod native;
mod worker;

pub use channel::PollOutcome;
pub use worker::{MultiPathJob, SinglePathJob, SinglePathKind};

verus! {

broadcast use vstd::string::to_string_from_display_ensures_for_str;

/// Error returned by the open operations.
#[derive(Clone, Copy, Debug, PartialEq, Eq, Structural)]
pub enum ImNativeDialogError {
    /// A request is already in flight; no new worker was started.
    AlreadyOpen,
}

impl ImNativeDialogError {
    /// A human-readable description of the error.
    pub fn message(&self) -> (r: String)
        ensures
            r@ == "The dialog is already open."@,
    {
        "The dialog is already open.".to_string()
    }
}

/// A slot for at most one outstanding native file dialog request.
///
/// It holds the receiving end of the request's delivery channel exactly while
/// a request is in flight.
#[verifier::reject_recursive_types(T)]
pub struct ImNativeFileDialog<T> {
    receiver: Option<crossbeam_channel::Receiver<Result<T, native_dialog::Error>>>,
}

/// Whether an open request is accepted for a slot in the given state: exactly
/// when no request is in flight.
pub open spec fn open_accepted(in_flight: bool) -> bool {
    !in_flight
}

impl<T> ImNativeFileDialog<T> {
    /// True iff a request is in flight: opened, and its outcome not yet
    /// consumed.
    pub closed spec fn in_flight(&self) -> bool {
        self.receiver is Some
    }

    /// The slot state that holds `receiver` as the delivery channel of an
    /// in-flight request.
    pub closed spec fn holding(
        receiver: crossbeam_channel::Receiver<Result<T, native_dialog::Error>>,
    ) -> Self {
        ImNativeFileDialog { receiver: Some(receiver) }
    }

    /// Non-blocking query: whether a request is currently in flight.
    pub fn is_open(&self) -> (r: bool)
        ensures
            r == self.in_flight(),
    {
        self.receiver.is_some()
    }

    /// Begins a request: refused while one is in flight; otherwise the slot
    /// keeps the receiving end of a fresh one-shot delivery channel and hands
    /// back the sending end, for a worker to deliver the dialog's outcome
    /// over. Spawning that worker is the caller's part: this call itself
    /// never blocks.
    pub fn show(&mut self) -> (r: Result<
        crossbeam_channel::Sender<Result<T, native_dialog::Error>>,
        ImNativeDialogError,
    >)
        ensures
            (r is Ok) == open_accepted(old(self).in_flight()),
            old(self).in_flight() ==> (r matches Err(e) && e == ImNativeDialogError::AlreadyOpen)
                && *final(self) == *old(self),
            !old(self).in_flight() ==> final(self).in_flight(),
    {
        if self.receiver.is_some() {
            return Err(ImNativeDialogError::AlreadyOpen);
        }
        let (sender, receiver) = channel::bounded_one();
        self.receiver = Some(receiver);
        Ok(sender)
    }
}

/// What a consuming poll returns for each worker outcome: a delivered result
/// verbatim; success with the empty payload `fallback` for a worker that hung
/// up without sending; nothing while the worker still runs.
pub open spec fn resolved_value<T>(
    outcome: PollOutcome<Result<T, native_dialog::Error>>,
    fallback: T,
) -> Option<Result<T, native_dialog::Error>> {
    match outcome {
        PollOutcome::Received(result) => Some(result),
        PollOutcome::NotYet => None,
        PollOutcome::Disconnected => Some(Ok(fallback)),
    }
}

/// Whether a request remains in flight after a poll with the given outcome:
/// only while the worker has neither delivered nor hung up.
pub open spec fn still_in_flight<T>(outcome: PollOutcome<Result<T, native_dialog::Error>>) -> bool {
    outcome is NotYet
}

impl<T> ImNativeFileDialog<T> {
    /// Applies one poll outcome to a slot whose receiver has been taken out.
    /// Taking the outcome as an argument, it is verified for every value the
    /// channel can hand back: it returns exactly `resolved_value` and puts
    /// `receiver` back untouched exactly while the worker still runs. The
    /// second component tells a masked disconnect apart from a real delivery:
    /// true exactly when the worker hung up without sending.
    pub fn resolve(
        &mut self,
        receiver: crossbeam_channel::Receiver<Result<T, native_dialog::Error>>,
        outcome: PollOutcome<Result<T, native_dialog::Error>>,
        fallback: T,
    ) -> (r: (Option<Result<T, native_dialog::Error>>, bool))
        requires
            !old(self).in_flight(),
        ensures
            r.0 == resolved_value(outcome, fallback),
            r.1 == (outcome is Disconnected),
            final(self).in_flight() == still_in_flight(outcome),
            outcome is NotYet ==> *final(self) == Self::holding(receiver),
    {
        match outcome {
            PollOutcome::Received(result) => (Some(result), false),
            PollOutcome::NotYet => {
                self.receiver = Some(receiver);
                (None, false)
            },
            PollOutcome::Disconnected => (Some(Ok(fallback)), true),
        }
    }
}

impl<T: Default> ImNativeFileDialog<T> {
    /// Non-blocking poll for the outcome of the in-flight request, if any.
    /// Nothing comes back while no request is in flight or the worker still
    /// runs, and an empty poll leaves the slot exactly as it was; a delivered
    /// outcome is consumed and returned exactly once, upon which the slot is
    /// free for a new request. A worker that hung up without sending is
    /// reported once, as a successful empty selection.
    pub fn check(&mut self) -> (r: Option<Result<T, native_dialog::Error>>)
        ensures
            !old(self).in_flight() ==> r is None,
            r is None ==> *final(self) == *old(self),
            r is Some ==> old(self).in_flight() && !final(self).in_flight(),
    {
        let (result, _) = self.check_with_disconnect();
        result
    }

    /// As [`Self::check`], whose result is the first component, and tells a
    /// masked disconnect apart from a real delivery: the second component is
    /// true exactly when the consumed outcome was a worker that hung up
    /// without sending — the one event per request for which the UI's
    /// diagnostics collaborator is owed a warning. [`Self::check`] masks that
    /// event beyond recall, so a caller that wants to warn polls through this.
    pub fn check_with_disconnect(&mut self) -> (r: (
        Option<Result<T, native_dialog::Error>>,
        bool,
    ))
        ensures
            !old(self).in_flight() ==> r.0 is None,
            r.0 is None ==> *final(self) == *old(self) && !r.1,
            r.0 is Some ==> old(self).in_flight() && !final(self).in_flight(),
    {
        match self.receiver.take() {
            Some(receiver) => {
                let outcome = channel::poll_receiver(&receiver);
                let fallback = T::default();
                self.resolve(receiver, outcome, fallback)
            },
            None => (None, false),
        }
    }
}

impl ImNativeFileDialog<Option<std::path::PathBuf>> {
    /// Begins an open-one-file request: refused while one is in flight;
    /// otherwise the slot is in flight and the returned job, which carries
    /// `location` as the dialog's starting directory, is ready to be run on a
    /// worker thread.
    pub fn open_single_file(&mut self, location: Option<std::path::PathBuf>) -> (r: Result<
        SinglePathJob,
        ImNativeDialogError,
    >)
        ensures
            (r is Ok) == open_accepted(old(self).in_flight()),
            old(self).in_flight() ==> (r matches Err(e) && e == ImNativeDialogError::AlreadyOpen)
                && *final(self) == *old(self),
            !old(self).in_flight() ==> final(self).in_flight() && (r matches Ok(job)
                && job.kind_of() == SinglePathKind::OpenFile && job.location_of() == location),
    {
        match self.show() {
            Ok(sender) => Ok(SinglePathJob::new(SinglePathKind::OpenFile, location, sender)),
            Err(e) => Err(e),
        }
    }

    /// Begins an open-one-directory request; as [`Self::open_single_file`],
    /// with the platform's directory picker.
    pub fn open_single_dir(&mut self, location: Option<std::path::PathBuf>) -> (r: Result<
        SinglePathJob,
        ImNativeDialogError,
    >)
        ensures
            (r is Ok) == open_accepted(old(self).in_flight()),
            old(self).in_flight() ==> (r matches Err(e) && e == ImNativeDialogError::AlreadyOpen)
                && *final(self) == *old(self),
            !old(self).in_flight() ==> final(self).in_flight() && (r matches Ok(job)
                && job.kind_of() == SinglePathKind::OpenDir && job.location_of() == location),
    {
        match self.show() {
            Ok(sender) => Ok(SinglePathJob::new(SinglePathKind::OpenDir, location, sender)),
            Err(e) => Err(e),
        }
    }

    /// Begins a save-one-file request; as [`Self::open_single_file`], with
    /// the platform's save dialog.
    pub fn show_save_single_file(&mut self, location: Option<std::path::PathBuf>) -> (r: Result<
        SinglePathJob,
        ImNativeDialogError,
    >)
        ensures
            (r is Ok) == open_accepted(old(self).in_flight()),
            old(self).in_flight() ==> (r matches Err(e) && e == ImNativeDialogError::AlreadyOpen)
                && *final(self) == *old(self),
            !old(self).in_flight() ==> final(self).in_flight() && (r matches Ok(job)
                && job.kind_of() == SinglePathKind::SaveFile && job.location_of() == location),
    {
        match self.show() {
            Ok(sender) => Ok(SinglePathJob::new(SinglePathKind::SaveFile, location, sender)),
            Err(e) => Err(e),
        }
    }
}

impl ImNativeFileDialog<Vec<std::path::PathBuf>> {
    /// Begins an open-many-files request: refused while one is in flight;
    /// otherwise the slot is in flight and the returned job, which carries
    /// `location` as the dialog's starting directory, is ready to be run on a
    /// worker thread.
    pub fn show_open_multiple_file(&mut self, location: Option<std::path::PathBuf>) -> (r: Result<
        MultiPathJob,
        ImNativeDialogError,
    >)
        ensures
            (r is Ok) == open_accepted(old(self).in_flight()),
            old(self).in_flight() ==> (r matches Err(e) && e == ImNativeDialogError::AlreadyOpen)
                && *final(self) == *old(self),
            !old(self).in_flight() ==> final(self).in_flight() && (r matches Ok(job)
                && job.location_of() == location),
    {
        match self.show() {
            Ok(sender) => Ok(MultiPathJob::new(location, sender)),
            Err(e) => Err(e),
        }
    }
}

/// Exactly-once delivery: a consuming poll yields a value exactly when the
/// worker's outcome is final (delivered or hung up), and then the request
/// leaves the in-flight state; an empty poll yields nothing and keeps the
/// request in flight, to be consumed by a later poll.
pub proof fn lemma_exactly_once<T>(
    outcome: PollOutcome<Result<T, native_dialog::Error>>,
    fallback: T,
)
    ensures
        (resolved_value(outcome, fallback) is Some) == !still_in_flight(outcome),
{
}

/// State reset: once a poll has yielded a value, the request is no longer in
/// flight, so a new open request is accepted.
pub proof fn lemma_state_reset<T>(
    outcome: PollOutcome<Result<T, native_dialog::Error>>,
    fallback: T,
)
    ensures
        resolved_value(outcome, fallback) is Some ==> open_accepted(still_in_flight(outcome)),
{
}

/// Disconnect masking: a worker that hung up without sending is reported as a
/// successful empty selection, and the request leaves the in-flight state.
pub proof fn lemma_disconnect_masked<T>(fallback: T)
    ensures
        resolved_value(PollOutcome::<Result<T, native_dialog::Error>>::Disconnected, fallback)
            == Some(Ok::<T, native_dialog::Error>(fallback)),
        !still_in_flight(PollOutcome::<Result<T, native_dialog::Error>>::Disconnected),
{
}

impl<T> Default for ImNativeFileDialog<T> {
    /// A fresh slot with no request in flight.
    fn default() -> (slot: Self)
        ensures
            !slot.in_flight(),
    {
        ImNativeFileDialog { receiver: None }
    }
}

} // verus!
