//! The core of a terminal dashboard for exchanging files between peers: the
//! session state, the list of files with its cursor, what each key does,
//! what the screen shows, and the decisions of the loop that drives it all.
//! Painting the screen and reading the keyboard are left to the caller.

use crate::app::{file_views, App, AppView, ConnectionType, File, HostInfo};
use vstd::prelude::*;

pub mod app;
pub mod control;
pub mod text;

verus! {

/// The dashboard's session over `files`, under the dashboard's own title.
pub fn create_app<'a>(
    connection_type: ConnectionType,
    host_info: HostInfo,
    files: Vec<File>,
) -> (app: App<'a>)
    ensures
        app@ == AppView::initial("leightbox"@, connection_type, host_info@, file_views(files@)),
        app@.available_files.wf(),
{
    App::new("leightbox", connection_type, host_info, files)
}

} // verus!
