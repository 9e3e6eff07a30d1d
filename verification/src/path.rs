//! Where the dataset lives on disk, as plain path text; callers that open
//! files turn these into their platform's path values.

use vstd::prelude::*;

verus! {

/// The path of the data directory from the project root.
pub const DATADIR_PATH: &'static str = "data";

/// The file name of the tifu training data JSON file in the data directory.
pub const TIFU_TRAINING_DATA_PATH: &'static str = "tifu_all_tokenized_and_filtered.json";

/// The path of the data directory.
pub fn data_dir_path() -> (r: &'static str)
    ensures
        r@ == DATADIR_PATH@,
{
    DATADIR_PATH
}

/// The path of the tifu training data file: the data directory, a separator,
/// and the file name.
pub fn tifu_training_data_path() -> (r: &'static str)
    ensures
        r@ == DATADIR_PATH@ + "/"@ + TIFU_TRAINING_DATA_PATH@,
{
    let r = "data/tifu_all_tokenized_and_filtered.json";
    proof {
        reveal_strlit("data");
        reveal_strlit("/");
        reveal_strlit("tifu_all_tokenized_and_filtered.json");
        reveal_strlit("data/tifu_all_tokenized_and_filtered.json");
        assert(r@ =~= DATADIR_PATH@ + "/"@ + TIFU_TRAINING_DATA_PATH@);
    }
    r
}

} // verus!
