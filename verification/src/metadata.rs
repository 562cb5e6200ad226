//! The metadata levels of the shader compiler and their command-line names.

use vstd::prelude::*;

verus! {

/// How much naming and debug information the compiled shader keeps.
#[derive(Clone, Copy, Debug, PartialEq, Eq, Structural)]
pub enum SpirvMetadata {
    /// All names and other debug information are stripped.
    Stripped,
    /// Names are kept for the variables of the public interface only.
    NameVariables,
    /// Names are kept for everything, together with line information.
    Full,
}

/// A value that names no metadata level.
#[derive(Clone, Copy, Debug, PartialEq, Eq, Structural)]
pub struct InvalidValue;

/// The metadata level that `name` stands for on the command line. Names are
/// matched exactly, case included; every other text is invalid.
pub open spec fn metadata_named(name: Seq<char>) -> Result<SpirvMetadata, InvalidValue> {
    if name == "none"@ {
        Ok(SpirvMetadata::Stripped)
    } else if name == "name-variables"@ {
        Ok(SpirvMetadata::NameVariables)
    } else if name == "full"@ {
        Ok(SpirvMetadata::Full)
    } else {
        Err(InvalidValue)
    }
}

/// Whether two strings hold the same text.
fn same_text(left: &str, right: &str) -> (same: bool)
    ensures
        same <==> left@ == right@,
{
    left.to_owned() == right.to_owned()
}

/// Parses the command-line name of a metadata level.
pub fn spirv_metadata(s: &str) -> (parsed: Result<SpirvMetadata, InvalidValue>)
    ensures
        parsed == metadata_named(s@),
{
    if same_text(s, "none") {
        Ok(SpirvMetadata::Stripped)
    } else if same_text(s, "name-variables") {
        Ok(SpirvMetadata::NameVariables)
    } else if same_text(s, "full") {
        Ok(SpirvMetadata::Full)
    } else {
        Err(InvalidValue)
    }
}

} // verus!
