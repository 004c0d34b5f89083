//! Where packages are installed: the install root, decided once from what the
//! user has set.

use crate::error::{CliError, Failure};
use crate::location::Location;
use vstd::prelude::*;

verus! {

/// The name of the default install root, a directory in the home directory.
pub const DEFAULT_DIR_NAME: &'static str = ".yapm";

/// The install root, given the directory that was configured and the home
/// directory, as far as either is known: the configured directory; without
/// one, the default directory in the home directory; without a home directory
/// either, no install root can be told.
pub open spec fn install_root(configured: Option<Seq<char>>, home: Option<Seq<char>>) -> Result<
    Seq<Seq<char>>,
    Failure,
> {
    match (configured, home) {
        (Some(dir), _) => Ok(seq![dir]),
        (None, Some(home)) => Ok(seq![home, DEFAULT_DIR_NAME@]),
        (None, None) => Err(Failure::CannotInferYapmDir),
    }
}

/// The text of a setting, where it is set.
pub open spec fn setting(value: Option<String>) -> Option<Seq<char>> {
    match value {
        Some(text) => Some(text@),
        None => None,
    }
}

/// Decides the install root from the configured directory and the home
/// directory, as far as they are set.
pub fn infer_yapm_dir(configured: Option<String>, home: Option<String>) -> (root: Result<
    Location,
    CliError,
>)
    ensures
        match root {
            Ok(location) => install_root(setting(configured), setting(home)) == Ok::<
                Seq<Seq<char>>,
                Failure,
            >(location@),
            Err(error) => install_root(setting(configured), setting(home)) == Err::<
                Seq<Seq<char>>,
                Failure,
            >(error@),
        },
{
    match configured {
        Some(dir) => Ok(Location::root(dir)),
        None => match home {
            Some(home) => {
                let location = Location::root(home).child(DEFAULT_DIR_NAME.to_owned());
                assert(location@ =~= seq![home@, DEFAULT_DIR_NAME@]);
                Ok(location)
            },
            None => Err(CliError::CannotInferYapmDir),
        },
    }
}

} // verus!
