//! Where the store and the template are found: at the path that a variable
//! of the environment names, or at a default. The caller reads the
//! variables.

use vstd::prelude::*;
use vstd::string::StringExecFns;

verus! {

/// The variable that names the store.
pub const CSV_PATH_VARIABLE: &'static str = "VENT_TXT_CSV";

/// Where the store is found while the variable names no other place.
pub const DEFAULT_CSV_PATH: &'static str = "vent.csv";

/// The variable that names the template.
pub const TEMPLATE_PATH_VARIABLE: &'static str = "VENT_TXT_HBS";

/// Where the template is found while the variable names no other place.
pub const DEFAULT_TEMPLATE_PATH: &'static str = "template/vent.hbs";

/// The path of the store, given what its variable holds, if it is set.
pub fn get_csv_path(variable: Option<String>) -> (r: String)
    ensures
        r@ == match variable {
            Some(path) => path@,
            None => DEFAULT_CSV_PATH@,
        },
{
    match variable {
        Some(path) => path,
        None => String::from_str(DEFAULT_CSV_PATH),
    }
}

/// The path of the template, given what its variable holds, if it is set.
pub fn get_template_path(variable: Option<String>) -> (r: String)
    ensures
        r@ == match variable {
            Some(path) => path@,
            None => DEFAULT_TEMPLATE_PATH@,
        },
{
    match variable {
        Some(path) => path,
        None => String::from_str(DEFAULT_TEMPLATE_PATH),
    }
}

} // verus!
