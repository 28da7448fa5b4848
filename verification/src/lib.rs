//! Providers for a status-line host: small read-only queries about a
//! version-controlled working directory, together with the argument
//! marshalling and result encoding used at the host boundary.

pub mod args;
pub mod encoding;
pub mod git;
pub mod status;

use vstd::prelude::*;
use crate::args::MethodArguments;
use crate::args::RawMethodArguments;
use crate::args::describe_arguments;
use crate::args::describe_spec;
use crate::args::marshal_spec;
use crate::encoding::NamespaceResult;
use crate::encoding::build_return_value;

verus! {

/// The space-delimited listing of the provider names this library exports.
/// The host reads it once to build its dispatch table.
pub fn index() -> (r: &'static str)
    ensures
        r@ == "branch modified_count staged_count ahead_count behind_count"@,
{
    "branch modified_count staged_count ahead_count behind_count"
}

/// The demonstration provider: consumes its argument record and returns a
/// present result describing the typed value the record marshalled to.
pub fn test(arguments: RawMethodArguments) -> (r: NamespaceResult)
    ensures
        r.wf(),
        r.exists,
        r.data.unwrap()@ == describe_spec(marshal_spec(arguments)),
{
    let typed = MethodArguments::from(arguments);
    let described = describe_arguments(&typed);
    build_return_value(described)
}

} // verus!
