//! Where `man` sends the page it renders.

use std::path::PathBuf;
use vstd::prelude::*;

verus! {

/// Where the rendered page goes.
#[derive(Debug)]
pub enum Target {
    /// To the user's manual directory.
    Install,
    /// To the file at this path.
    File(PathBuf),
    /// To standard output.
    Stdout,
}

/// `--install` and `--output` were both given.
#[derive(Debug)]
pub struct Conflict;

impl Conflict {
    /// What went wrong, in one line.
    pub fn message(&self) -> (r: String)
        ensures
            r@ == "--install cannot be used with --output"@,
    {
        String::from_str("--install cannot be used with --output")
    }
}

/// Decides where the page goes from the `--output` path and the `--install` flag.
pub fn target(output: Option<PathBuf>, install: bool) -> (r: Result<Target, Conflict>)
    ensures
        r is Err <==> install && output is Some,
        install && output is None ==> r matches Ok(Target::Install),
        !install ==> match output {
            Some(path) => r matches Ok(Target::File(p)) && p == path,
            None => r matches Ok(Target::Stdout),
        },
{
    match output {
        Some(path) => {
            if install {
                Err(Conflict)
            } else {
                Ok(Target::File(path))
            }
        },
        None => {
            if install {
                Ok(Target::Install)
            } else {
                Ok(Target::Stdout)
            }
        },
    }
}

/// The directory under which an installed page goes.
#[derive(Debug)]
pub enum InstallBase {
    /// The user's data directory, as `XDG_DATA_HOME` gives it.
    DataHome(PathBuf),
    /// The user's home directory, as `HOME` gives it.
    Home(PathBuf),
}

/// Neither `XDG_DATA_HOME` nor `HOME` is set.
#[derive(Debug)]
pub struct HomeNotSet;

impl HomeNotSet {
    /// What went wrong, in one line.
    pub fn message(&self) -> (r: String)
        ensures
            r@ == "HOME is not set"@,
    {
        String::from_str("HOME is not set")
    }
}

/// Decides where to install from the values of `XDG_DATA_HOME` and `HOME`: the data
/// directory where it is set, else the home directory.
pub fn install_base(xdg_data_home: Option<PathBuf>, home: Option<PathBuf>) -> (r: Result<
    InstallBase,
    HomeNotSet,
>)
    ensures
        r is Err <==> xdg_data_home is None && home is None,
        xdg_data_home matches Some(x) ==> r matches Ok(InstallBase::DataHome(p)) && p == x,
        xdg_data_home is None ==> (home matches Some(h) ==> (r matches Ok(
            InstallBase::Home(p),
        ) && p == h)),
{
    match xdg_data_home {
        Some(x) => Ok(InstallBase::DataHome(x)),
        None => match home {
            Some(h) => Ok(InstallBase::Home(h)),
            None => Err(HomeNotSet),
        },
    }
}

/// The page's file name under an install directory: below `man/man1` of the data directory,
/// and below `.local/share/man/man1` of the home directory.
pub open spec fn page_under(base: InstallBase) -> Seq<char> {
    match base {
        InstallBase::DataHome(_) => "man/man1/git-dom.1"@,
        InstallBase::Home(_) => ".local/share/man/man1/git-dom.1"@,
    }
}

/// The page's file name, relative to the install directory `base`.
pub fn install_file(base: &InstallBase) -> (r: String)
    ensures
        r@ == page_under(*base),
{
    match base {
        InstallBase::DataHome(_) => String::from_str("man/man1/git-dom.1"),
        InstallBase::Home(_) => String::from_str(".local/share/man/man1/git-dom.1"),
    }
}

} // verus!
