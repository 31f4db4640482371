//! Where the configuration lives, and the filesystem operations the
//! launcher needs from its surroundings.
use vstd::prelude::*;

use crate::error::IoFailure;

verus! {

/// The filesystem operations the launcher depends on. The production
/// implementation performs real input/output and therefore lives with
/// the caller; tests substitute an in-memory double.
pub trait FilesystemAccess {
    fn config_directory_exists(&self) -> bool;

    fn config_file_exists(&self) -> bool;

    fn create_config_directory(&mut self) -> Result<(), IoFailure>;

    fn create_config_file(&mut self, content: &str) -> Result<(), IoFailure>;

    fn read_config_file(&self) -> Result<String, IoFailure>;
}

/// The two paths the launcher's configuration lives at, derived from the
/// user's home directory.
pub struct Filesystem {
    pub path_to_configuration_directory: String,
    pub path_to_configuration_file: String,
}

impl Filesystem {
    /// Joins the home directory with the configuration directory's and
    /// file's well-known names.
    pub fn new(user_home_directory: String) -> (r: Filesystem)
        ensures
            r.path_to_configuration_directory@ == user_home_directory@ + "/"@ + ".chaperone"@,
            r.path_to_configuration_file@ == r.path_to_configuration_directory@ + "/"@
                + "config"@,
    {
        let mut path_to_configuration_directory = user_home_directory;
        path_to_configuration_directory.append("/");
        path_to_configuration_directory.append(crate::configuration_directory_name());

        let mut path_to_configuration_file = path_to_configuration_directory.clone();
        path_to_configuration_file.append("/");
        path_to_configuration_file.append(crate::configuration_file_name());

        Filesystem { path_to_configuration_directory, path_to_configuration_file }
    }
}

} // verus!
