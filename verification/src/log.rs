//! Where the program keeps its log.
use vstd::prelude::*;

verus! {

/// The directory for the program's data: the one that the environment
/// names, else the one that the platform gives to the program, else `.data`
/// in the working directory.
pub open spec fn data_dir_of(from_env: Option<Seq<char>>, from_platform: Option<Seq<char>>) -> Seq<
    char,
> {
    match from_env {
        Some(dir) => dir,
        None => match from_platform {
            Some(dir) => dir,
            None => "./.data"@,
        },
    }
}

/// The directory for the program's data. `from_env` is what the
/// environment names for it, `from_platform` what the platform gives to the
/// program.
pub fn get_data_dir(from_env: Option<String>, from_platform: Option<String>) -> (r: String)
    ensures
        r@ == data_dir_of(
            match from_env {
                Some(d) => Some(d@),
                None => None,
            },
            match from_platform {
                Some(d) => Some(d@),
                None => None,
            },
        ),
{
    match from_env {
        Some(dir) => dir,
        None => match from_platform {
            Some(dir) => dir,
            None => "./.data".to_owned(),
        },
    }
}

} // verus!
