//! The parts of the public operations that are decided before or after the native
//! library is called.

use crate::registry::{RegistryError, WindowId, WindowRegistry};
use crate::window::{WindowSettings, WsiCreateWindowOptions};
use vstd::prelude::*;
use vstd::string::*;

verus! {

/// Exit status of the process when an operation is called although the bridge was
/// never set up.
pub const UNAVAILABLE_EXIT_CODE: i32 = 70;

/// Title of a window that is created without one.
pub open spec fn default_title() -> Seq<char> {
    "Denog"@
}

/// An operation was called where the bridge does not exist. The host is set up
/// wrongly; the process is to print the message and exit with the code.
pub struct Unavailable {
    pub message: String,
    pub exit_code: i32,
}

/// The message that names the operation which could not be served.
pub open spec fn unavailable_message(api_name: Seq<char>) -> Seq<char> {
    "WSI API '"@ + api_name
        + "'. Only available in the main worker and the --wsi flag must be provided."@
}

/// Hands out the proxy if the bridge was set up, and says how to fail if it was not.
pub fn try_borrow_event_loop_proxy<P>(proxy: Option<P>, api_name: &str) -> (r: Result<
    P,
    Unavailable,
>)
    ensures
        match proxy {
            Some(p) => r == Ok::<P, Unavailable>(p),
            None => r matches Err(e) && e.message@ == unavailable_message(api_name@)
                && e.exit_code == UNAVAILABLE_EXIT_CODE,
        },
{
    match proxy {
        Some(p) => Ok(p),
        None => {
            let message = String::from_str("WSI API '").concat(api_name).concat(
                "'. Only available in the main worker and the --wsi flag must be provided.",
            );
            Err(Unavailable { message, exit_code: UNAVAILABLE_EXIT_CODE })
        },
    }
}

/// The settings that a window starts from: the default title and nothing else.
pub open spec fn initial_settings(title: String) -> WindowSettings {
    WindowSettings { title: Some(title), ..WindowSettings::spec_new() }
}

/// The settings for a new window: the default title, with the caller's options, if
/// any, applied on top.
pub fn create_window_settings(options: Option<WsiCreateWindowOptions>) -> (r: WindowSettings)
    ensures
        exists|title: String|
            title@ == default_title() && r == (match options {
                Some(options) => options.applied_to(initial_settings(title)),
                None => initial_settings(title),
            }),
{
    let title = String::from_str("Denog");
    let builder = WindowSettings::new().with_title(title);
    match options {
        Some(options) => options.into_window_builder(builder),
        None => builder,
    }
}

/// Second half of window creation: a window that the native library built is
/// registered under its id, and the id is the result; a failure to build is handed
/// on as it is and the registry stays as it was.
pub fn register_created_window<W, E>(
    windows: &mut WindowRegistry<W>,
    built: Result<(WindowId, W), E>,
) -> (r: Result<WindowId, E>)
    ensures
        match built {
            Ok((id, window)) => r == Ok::<WindowId, E>(id) && final(windows)@ == old(
                windows,
            )@.insert(id, window),
            Err(e) => r == Err::<WindowId, E>(e) && final(windows)@ == old(windows)@,
        },
{
    match built {
        Ok((id, window)) => {
            windows.insert(id, window);
            Ok(id)
        },
        Err(e) => Err(e),
    }
}

/// Destroys a window: it leaves the registry and is dropped, which closes it. A window
/// that is not registered cannot be destroyed; the registry then stays as it was.
pub fn destroy_window<W>(windows: &mut WindowRegistry<W>, id: WindowId) -> (r: Result<
    (),
    RegistryError,
>)
    ensures
        final(windows)@ == old(windows)@.remove(id),
        r == (if old(windows)@.contains_key(id) {
            Ok::<(), RegistryError>(())
        } else {
            Err(RegistryError::UnknownWindow(id))
        }),
{
    match windows.remove(id) {
        Ok(_) => Ok(()),
        Err(e) => Err(e),
    }
}

} // verus!
