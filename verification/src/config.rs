//! Locations of the application's persistent files, all rooted in a fixed
//! directory under the user's home directory.

use vstd::prelude::*;

use crate::error::Error;

verus! {

/// Outcome of asking the operating environment for the user's home directory.
pub enum HomeLookup {
    /// The home directory, as a unicode path.
    Found(String),
    /// A home directory exists but its path is not valid unicode.
    NotUnicode,
    /// No home directory could be determined.
    Missing,
}

/// Relies on home::home_dir to locate the user's home directory; the result
/// depends on the environment, so nothing is promised of it.
#[verifier::external_body]
fn home_directory() -> HomeLookup {
    match home::home_dir() {
        Some(path) => match path.to_str() {
            Some(s) => HomeLookup::Found(s.to_string()),
            None => HomeLookup::NotUnicode,
        },
        None => HomeLookup::Missing,
    }
}

/// The application directory that belongs to a given home directory.
pub open spec fn app_dir_of(home: Seq<char>) -> Seq<char> {
    home + "/.bote"@
}

/// Appends the application's own directory name to a home directory path.
pub fn app_directory_from_home(home: &str) -> (r: String)
    ensures
        r@ == app_dir_of(home@),
{
    String::from_str(home).concat("/.bote")
}

/// Returns the directory where the application keeps its files: the user's
/// home directory extended with the application's own directory name.
pub fn get_app_directory() -> (r: Result<String, Error>)
    ensures
        r is Ok ==> exists|h: Seq<char>| r->Ok_0@ == app_dir_of(h),
        r is Err ==> (r->Err_0 is HomeDir || r->Err_0 is Conversion),
{
    match home_directory() {
        HomeLookup::Found(home) => {
            let dir = app_directory_from_home(home.as_str());
            proof {
                assert(dir@ == app_dir_of(home@));
            }
            Ok(dir)
        },
        HomeLookup::NotUnicode => Err(
            Error::Conversion { from: String::from_str("PathBuf"), into: String::from_str("&str") },
        ),
        HomeLookup::Missing => Err(Error::HomeDir),
    }
}

/// Appends a fixed suffix to the application directory.
fn app_sub_path(suffix: &str) -> (r: Result<String, Error>)
    ensures
        r is Ok ==> exists|h: Seq<char>| r->Ok_0@ == app_dir_of(h) + suffix@,
        r is Err ==> (r->Err_0 is HomeDir || r->Err_0 is Conversion),
{
    match get_app_directory() {
        Ok(dir) => {
            proof {
                let h = choose|h: Seq<char>| dir@ == app_dir_of(h);
                assert(dir@ + suffix@ == app_dir_of(h) + suffix@);
            }
            Ok(dir.concat(suffix))
        },
        Err(e) => Err(e),
    }
}

/// Returns the path of the networked record store's table store.
pub fn get_veilid_table_store_path() -> (r: Result<String, Error>)
    ensures
        r is Ok ==> exists|h: Seq<char>| r->Ok_0@ == app_dir_of(h) + "/table_store"@,
        r is Err ==> (r->Err_0 is HomeDir || r->Err_0 is Conversion),
{
    app_sub_path("/table_store")
}

/// Returns the path of the networked record store's protected store.
pub fn get_veilid_protected_store_path() -> (r: Result<String, Error>)
    ensures
        r is Ok ==> exists|h: Seq<char>| r->Ok_0@ == app_dir_of(h) + "/protected_store"@,
        r is Err ==> (r->Err_0 is HomeDir || r->Err_0 is Conversion),
{
    app_sub_path("/protected_store")
}

/// Returns the path of the networked record store's block store.
pub fn get_veilid_block_store_path() -> (r: Result<String, Error>)
    ensures
        r is Ok ==> exists|h: Seq<char>| r->Ok_0@ == app_dir_of(h) + "/block_store"@,
        r is Err ==> (r->Err_0 is HomeDir || r->Err_0 is Conversion),
{
    app_sub_path("/block_store")
}

/// Returns the path of the certificate file used for the network connection.
pub fn get_veilid_certfile_path() -> (r: Result<String, Error>)
    ensures
        r is Ok ==> exists|h: Seq<char>| r->Ok_0@ == app_dir_of(h) + "/certfile"@,
        r is Err ==> (r->Err_0 is HomeDir || r->Err_0 is Conversion),
{
    app_sub_path("/certfile")
}

/// Returns the path of the private key file used for the network connection.
pub fn get_veilid_keyfile_path() -> (r: Result<String, Error>)
    ensures
        r is Ok ==> exists|h: Seq<char>| r->Ok_0@ == app_dir_of(h) + "/keyfile"@,
        r is Err ==> (r->Err_0 is HomeDir || r->Err_0 is Conversion),
{
    app_sub_path("/keyfile")
}

/// Returns the path of the cache directory.
pub fn get_cache_directory() -> (r: Result<String, Error>)
    ensures
        r is Ok ==> exists|h: Seq<char>| r->Ok_0@ == app_dir_of(h) + "/.cache"@,
        r is Err ==> (r->Err_0 is HomeDir || r->Err_0 is Conversion),
{
    app_sub_path("/.cache")
}

} // verus!
