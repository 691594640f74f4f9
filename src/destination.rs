use vstd::prelude::*;
use crate::error::SetupError;

verus! {

/// The name of the configuration file inside the per-user configuration
/// directory.
pub const BOT_CONFIG_FILE_NAME: &'static str = "mwbot.toml";

/// Where the configuration file goes: a directory and a file name in it.
#[derive(Debug, Clone)]
pub struct ConfigPath {
    pub dir: String,
    pub file_name: String,
}

/// Relies on dirs::config_dir: the current user's configuration directory,
/// which depends on the platform and the environment, or `None`. A directory
/// that is not valid UTF-8 is reported as `None`.
#[verifier::external_body]
pub(crate) fn user_config_dir() -> (r: Option<String>) {
    dirs::config_dir().and_then(|p| p.to_str().map(|s| s.to_string()))
}

/// Places the configuration file in the given configuration directory; with
/// no directory there is no destination.
pub fn resolve_destination(config_dir: Option<String>) -> (r: Result<ConfigPath, SetupError>)
    ensures
        config_dir is None ==> r == Err::<ConfigPath, SetupError>(
            SetupError::DestinationUnresolvable,
        ),
        config_dir is Some ==> (r matches Ok(p) && p.dir@ == config_dir->0@ && p.file_name@
            == BOT_CONFIG_FILE_NAME@),
{
    match config_dir {
        Some(dir) => Ok(ConfigPath { dir, file_name: String::from_str(BOT_CONFIG_FILE_NAME) }),
        None => Err(SetupError::DestinationUnresolvable),
    }
}

/// Resolves the destination in the current user's configuration directory.
/// A directory whose path is not valid UTF-8 counts as none.
pub fn get_bot_config_path() -> (r: Result<ConfigPath, SetupError>)
    ensures
        r is Ok ==> r->Ok_0.file_name@ == BOT_CONFIG_FILE_NAME@,
        r is Err ==> r == Err::<ConfigPath, SetupError>(SetupError::DestinationUnresolvable),
{
    resolve_destination(user_config_dir())
}

} // verus!
