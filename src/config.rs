//! Where the console keeps its data on disk, and the paths it serves.
use vstd::prelude::*;

verus! {

/// The directory under which all persistent data lives.
pub const DATA_FOLDER: &'static str = "./_data";

/// The scratch directory that script-strategy projects render their scripts into.
pub const TEMP_SCRIPT_FOLDER: &'static str = "./_data/temp/scripts";

/// The directory holding one working copy per project and branch.
pub const PROJECT_FOLDER: &'static str = "./_data/projects";

/// The directory holding one persisted log per finished execution.
pub const IO_LOG_FOLDER: &'static str = "./_data/io_logs";

/// The directory of the project registry's backing file.
pub const STORE_LOCATION: &'static str = "./_data/store/";

/// The project registry's backing file.
pub const STORE_FILE: &'static str = "store.json";

/// The route prefix under which push webhooks are received.
pub const WEBHOOK_URL_PATH: &'static str = "/projects/webhook";

/// The shell that runs script-strategy actions.
pub const SCRIPT_SHELL: &'static str = "/bin/bash";

} // verus!
