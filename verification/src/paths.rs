//! Path arithmetic: from the user's home directory to the application
//! directory, the database file beneath it, and the driver URL for that file.

use vstd::prelude::*;
use vstd::string::StringExecFns;

verus! {

/// The application directory: the hidden child `.act` of the home directory.
pub open spec fn app_dir_of(home: Seq<char>) -> Seq<char> {
    home + "/.act"@
}

/// The database file `act.db` inside the application directory.
pub open spec fn db_file_of(home: Seq<char>) -> Seq<char> {
    app_dir_of(home) + "/act.db"@
}

/// The driver URL naming that file: the `sqlite:` scheme before its path.
pub open spec fn db_url_of(home: Seq<char>) -> Seq<char> {
    "sqlite:"@ + db_file_of(home)
}

/// The application directory's path under the given home directory.
pub fn app_dir_path(home: &str) -> (r: String)
    ensures
        r@ == app_dir_of(home@),
{
    let mut s = home.to_owned();
    s.append("/.act");
    s
}

/// The database file's path under the given home directory.
pub fn db_file_path(home: &str) -> (r: String)
    ensures
        r@ == db_file_of(home@),
{
    let mut s = app_dir_path(home);
    s.append("/act.db");
    s
}

/// The database URL handed to the SQL driver for the given home directory.
pub fn db_url(home: &str) -> (r: String)
    ensures
        r@ == db_url_of(home@),
{
    let mut s = "sqlite:".to_owned();
    let file = db_file_path(home);
    s.append(file.as_str());
    s
}

} // verus!
