//! What the application asks of the platform window.

use crate::error::SystrayError;
use crate::event::SystrayEvent;
use std::sync::mpsc::Sender;
use vstd::prelude::*;

verus! {

/// The native tray icon with its menu, and the thread that runs the native event loop.
///
/// The application is the sole owner of its window and reaches the native resource only
/// through these operations. The window in turn never reads the application: it sends one
/// [`SystrayEvent`] over the channel for each activation of a menu entry, in the order in
/// which the entries were activated.
///
/// No operation promises an outcome. The application states for each of its own
/// operations what it does with whatever the window answers.
pub trait Window: Sized {
    /// Creates the native tray icon and starts the native UI thread, which from then on
    /// publishes activations to `event_tx`.
    fn new(event_tx: Sender<SystrayEvent>) -> Result<Self, SystrayError>;

    /// Appends an entry with the given identifier and label to the native menu.
    fn add_menu_entry(&self, item_idx: u32, item_name: &String) -> Result<(), SystrayError>;

    /// Appends a separator with the given identifier to the native menu.
    fn add_menu_separator(&self, item_idx: u32) -> Result<(), SystrayError>;

    /// Shows the icon stored in the given file.
    fn set_icon_from_file(&self, file: &String) -> Result<(), SystrayError>;

    /// Shows the icon stored under the given resource name.
    fn set_icon_from_resource(&self, resource: &String) -> Result<(), SystrayError>;

    /// Sets the text shown when the pointer rests on the icon.
    fn set_tooltip(&self, tooltip: &String) -> Result<(), SystrayError>;

    /// Asks the native UI loop to end.
    fn quit(&self);

    /// Tears the native resource down.
    fn shutdown(&self) -> Result<(), SystrayError>;
}

} // verus!
