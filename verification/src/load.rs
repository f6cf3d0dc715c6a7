//! Where the files are found, and what is said when one cannot be loaded.

use vstd::prelude::*;

verus! {

/// The step at which loading a file failed.
#[derive(Clone, Copy, Debug, PartialEq, Eq)]
pub enum LoadStage {
    Opening,
    Mapping,
    Parsing,
}

/// The verb that names a step in a message.
pub open spec fn stage_verb(stage: LoadStage) -> Seq<char> {
    match stage {
        LoadStage::Opening => "open"@,
        LoadStage::Mapping => "map"@,
        LoadStage::Parsing => "parse"@,
    }
}

/// The message for a file that could not be loaded.
pub open spec fn load_failure_text(stage: LoadStage, path: Seq<char>, detail: Seq<char>) -> Seq<
    char,
> {
    "Failed to "@ + stage_verb(stage) + " file '"@ + path + "': "@ + detail
}

/// Says which step of loading `path` failed, followed by the cause as the
/// failing step reported it.
pub fn load_failure(stage: LoadStage, path: &str, detail: &str) -> (message: String)
    ensures
        message@ == load_failure_text(stage, path@, detail@),
{
    let mut message = String::new();
    message.append("Failed to ");
    match stage {
        LoadStage::Opening => message.append("open"),
        LoadStage::Mapping => message.append("map"),
        LoadStage::Parsing => message.append("parse"),
    }
    message.append(" file '");
    message.append(path);
    message.append("': ");
    message.append(detail);
    assert(message@ =~= load_failure_text(stage, path@, detail@));
    message
}

/// The path at which the package of a module is looked for: the module's
/// own path with `.dwp` behind it.
pub fn package_path(path: &str) -> (r: String)
    ensures
        r@ == path@ + ".dwp"@,
{
    let mut r = String::new();
    r.append(path);
    r.append(".dwp");
    assert(r@ =~= path@ + ".dwp"@);
    r
}

} // verus!
