//! The work of one dialog request, packaged as a job value.
//!
//! An accepted open request hands back a job holding the dialog's
//! configuration and the sending end of the delivery channel. Running the job
//! blocks on the native dialog and delivers its outcome, so it belongs on a
//! worker thread, never on the UI thread; spawning that thread is the
//! caller's part.

use vstd::prelude::*;

use crate::channel::send_value;
use crate::native::{
    dialog_at_location, dialog_location, new_dialog, show_open_multiple_file,
    show_open_single_dir, show_open_single_file, show_save_single_file,
};

verus! {

/// Builds the dialog a job hands to the blocking platform call: fresh, with
/// the job's starting directory recorded exactly when one was given.
fn configured_dialog<'a>(location: &'a Option<std::path::PathBuf>) -> (dialog:
    native_dialog::FileDialog<'a>)
    ensures
        dialog_location(dialog) == *location,
{
    let dialog = new_dialog();
    match location {
        Some(start) => dialog_at_location(dialog, start),
        None => dialog,
    }
}

/// Which single-path dialog a job runs.
#[derive(Clone, Copy, Debug, PartialEq, Eq, Structural)]
pub enum SinglePathKind {
    /// Pick one existing file.
    OpenFile,
    /// Pick one existing directory.
    OpenDir,
    /// Pick a file name to save to.
    SaveFile,
}

/// The work of one dialog request whose payload is a single optional path.
pub struct SinglePathJob {
    kind: SinglePathKind,
    location: Option<std::path::PathBuf>,
    sender: crossbeam_channel::Sender<
        Result<Option<std::path::PathBuf>, native_dialog::Error>,
    >,
}

impl SinglePathJob {
    /// Which dialog this job runs.
    pub closed spec fn kind_of(&self) -> SinglePathKind {
        self.kind
    }

    /// The directory the dialog starts in, if one was given.
    pub closed spec fn location_of(&self) -> Option<std::path::PathBuf> {
        self.location
    }

    pub(crate) fn new(
        kind: SinglePathKind,
        location: Option<std::path::PathBuf>,
        sender: crossbeam_channel::Sender<
            Result<Option<std::path::PathBuf>, native_dialog::Error>,
        >,
    ) -> (job: SinglePathJob)
        ensures
            job.kind_of() == kind,
            job.location_of() == location,
    {
        SinglePathJob { kind, location, sender }
    }

    /// Blocks on the native dialog this job describes and delivers the
    /// outcome over the job's channel. What is delivered is the user's and
    /// the platform's to decide: a chosen path, None for a cancelled dialog,
    /// or a platform error. Returns whether the receiving slot still
    /// listened.
    pub fn run(self) -> bool {
        let SinglePathJob { kind, location, sender } = self;
        let dialog = configured_dialog(&location);
        let result = match kind {
            SinglePathKind::OpenFile => show_open_single_file(dialog),
            SinglePathKind::OpenDir => show_open_single_dir(dialog),
            SinglePathKind::SaveFile => show_save_single_file(dialog),
        };
        send_value(&sender, result)
    }
}

/// The work of one dialog request whose payload is a list of paths.
pub struct MultiPathJob {
    location: Option<std::path::PathBuf>,
    sender: crossbeam_channel::Sender<Result<Vec<std::path::PathBuf>, native_dialog::Error>>,
}

impl MultiPathJob {
    /// The directory the dialog starts in, if one was given.
    pub closed spec fn location_of(&self) -> Option<std::path::PathBuf> {
        self.location
    }

    pub(crate) fn new(
        location: Option<std::path::PathBuf>,
        sender: crossbeam_channel::Sender<
            Result<Vec<std::path::PathBuf>, native_dialog::Error>,
        >,
    ) -> (job: MultiPathJob)
        ensures
            job.location_of() == location,
    {
        MultiPathJob { location, sender }
    }

    /// Blocks on the native open-many-files dialog and delivers the outcome
    /// over the job's channel. What is delivered is the user's and the
    /// platform's to decide: the chosen paths, an empty list for a cancelled
    /// dialog, or a platform error. Returns whether the receiving slot still
    /// listened.
    pub fn run(self) -> bool {
        let MultiPathJob { location, sender } = self;
        let dialog = configured_dialog(&location);
        let result = show_open_multiple_file(dialog);
        send_value(&sender, result)
    }
}

} // verus!
