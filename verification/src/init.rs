//! First-run bootstrap: decide what to create and report what was done.
//! The filesystem work itself goes through the `FilesystemAccess` trait,
//! so the decisions here are checked against any implementation of it.
use vstd::prelude::*;

use crate::error::IoFailure;
use crate::fs::FilesystemAccess;

verus! {

/// What bootstrap has to create, given what already exists.
pub struct InitPlan {
    pub create_directory: bool,
    pub create_file: bool,
}

/// Each piece is created exactly when it does not exist yet.
pub fn initialization_plan(directory_exists: bool, file_exists: bool) -> (r: InitPlan)
    ensures
        r.create_directory == !directory_exists,
        r.create_file == !file_exists,
{
    InitPlan { create_directory: !directory_exists, create_file: !file_exists }
}

/// What bootstrap did, and the message to show for it.
pub struct InitReport {
    pub created_directory: bool,
    pub created_file: bool,
    pub message: String,
}

/// Creates the configuration directory and file where they are missing.
/// The report's message belongs to the file decision: the creation notice
/// when the file was written, the nothing-to-do notice when it already
/// existed.
pub fn initialize<F: FilesystemAccess>(filesystem: &mut F) -> (r: Result<InitReport, IoFailure>)
    ensures
        r matches Ok(rep) ==> {
            &&& rep.created_file ==> rep.message@ == "Creating configuration file.\n"@
            &&& !rep.created_file ==> rep.message@
                == "Configuration file already exists.\nNothing to do here.\n"@
        },
{
    let directory_exists = filesystem.config_directory_exists();
    let file_exists = filesystem.config_file_exists();
    let plan = initialization_plan(directory_exists, file_exists);

    let mut created_directory = false;
    if plan.create_directory {
        match filesystem.create_config_directory() {
            Ok(_) => {
                created_directory = true;
            },
            Err(e) => {
                return Err(e);
            },
        }
    }

    if plan.create_file {
        match filesystem.create_config_file(crate::configuration_file_content()) {
            Ok(_) => {},
            Err(e) => {
                return Err(e);
            },
        }
        Ok(
            InitReport {
                created_directory,
                created_file: true,
                message: String::from_str("Creating configuration file.\n"),
            },
        )
    } else {
        Ok(
            InitReport {
                created_directory,
                created_file: false,
                message: String::from_str(
                    "Configuration file already exists.\nNothing to do here.\n",
                ),
            },
        )
    }
}

} // verus!
