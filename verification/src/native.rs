//! Trusted declarations for the native dialog layer.
//!
//! The blocking platform dialogs are an outside capability: what they return
//! depends on the user and on the platform, so the wrappers promise nothing
//! of their results beyond the shape already given by the types. The slot's
//! verified logic states what it does with every possible result.

use vstd::prelude::*;

verus! {

#[verifier::external_type_specification]
#[verifier::external_body]
pub struct ExPathBuf(std::path::PathBuf);

#[verifier::external_type_specification]
#[verifier::external_body]
pub struct ExNativeDialogError(native_dialog::Error);

#[verifier::external_type_specification]
#[verifier::external_body]
pub struct ExFileDialog<'a>(native_dialog::FileDialog<'a>);

/// The starting directory a dialog configuration holds, named so that the
/// builder wrappers below can fix by contract what a worker hands to the
/// blocking platform call.
pub uninterp spec fn dialog_location(dialog: native_dialog::FileDialog) -> Option<
    std::path::PathBuf,
>;

/// Relies on native_dialog::FileDialog::new: builds a dialog description with
/// no options set, in particular no starting directory.
#[verifier::external_body]
pub(crate) fn new_dialog<'a>() -> (dialog: native_dialog::FileDialog<'a>)
    ensures
        dialog_location(dialog) is None,
{
    native_dialog::FileDialog::new()
}

/// Relies on native_dialog::FileDialog::set_location: records `location`, and
/// nothing else, as the directory the dialog starts in.
#[verifier::external_body]
pub(crate) fn dialog_at_location<'a>(
    dialog: native_dialog::FileDialog<'a>,
    location: &'a std::path::PathBuf,
) -> (configured: native_dialog::FileDialog<'a>)
    ensures
        dialog_location(configured) == Some(*location),
{
    dialog.set_location(location)
}

/// Relies on native_dialog::FileDialog::show_open_single_file: blocks on the
/// platform's open-one-file dialog. The user decides what comes back: a chosen
/// path, None for a cancelled dialog, or a platform error.
#[verifier::external_body]
pub(crate) fn show_open_single_file(
    dialog: native_dialog::FileDialog<'_>,
) -> Result<Option<std::path::PathBuf>, native_dialog::Error> {
    dialog.show_open_single_file()
}

/// Relies on native_dialog::FileDialog::show_open_single_dir: blocks on the
/// platform's open-one-directory dialog. The user decides what comes back.
#[verifier::external_body]
pub(crate) fn show_open_single_dir(
    dialog: native_dialog::FileDialog<'_>,
) -> Result<Option<std::path::PathBuf>, native_dialog::Error> {
    dialog.show_open_single_dir()
}

/// Relies on native_dialog::FileDialog::show_save_single_file: blocks on the
/// platform's save-one-file dialog. The user decides what comes back.
#[verifier::external_body]
pub(crate) fn show_save_single_file(
    dialog: native_dialog::FileDialog<'_>,
) -> Result<Option<std::path::PathBuf>, native_dialog::Error> {
    dialog.show_save_single_file()
}

/// Relies on native_dialog::FileDialog::show_open_multiple_file: blocks on the
/// platform's open-many-files dialog. The user decides what comes back: the
/// chosen paths, an empty list for a cancelled dialog, or a platform error.
#[verifier::external_body]
pub(crate) fn show_open_multiple_file(
    dialog: native_dialog::FileDialog<'_>,
) -> Result<Vec<std::path::PathBuf>, native_dialog::Error> {
    dialog.show_open_multiple_file()
}

} // verus!
