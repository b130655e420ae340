//! Resolution of a context server's identifier to its launch description.
//!
//! One server is known. Its identifier resolves to a fixed command line;
//! every other identifier is answered with a message that names it.

use crate::launch::{LaunchSpec, LaunchSpecView};
use crate::text::str_equal;
use vstd::prelude::*;
use vstd::string::StringExecFns;

verus! {

/// Identifier of the one context server that is known.
pub const FILESYSTEM_SERVER_ID: &'static str = "filesystem-mcp";

/// Package runner that starts the server.
pub const RUNNER: &'static str = "uv";

/// Subcommand by which the runner starts a package.
pub const RUN_SUBCOMMAND: &'static str = "run";

/// What the message for an unknown identifier begins with.
pub const UNKNOWN_SERVER_PREFIX: &'static str = "Unknown server: ";

/// The launch description of the known server: the runner, asked to run the
/// server's package, with no environment overrides.
pub open spec fn filesystem_launch() -> LaunchSpecView {
    LaunchSpecView {
        command: RUNNER@,
        args: seq![RUN_SUBCOMMAND@, FILESYSTEM_SERVER_ID@],
        env: Seq::empty(),
    }
}

/// The message given for an identifier that is not known: the prefix,
/// followed by the identifier as it was given.
pub open spec fn unknown_server_text(id: Seq<char>) -> Seq<char> {
    UNKNOWN_SERVER_PREFIX@ + id
}

/// What an identifier resolves to. The comparison is exact: case matters,
/// and nothing is trimmed.
pub open spec fn resolution(id: Seq<char>) -> Result<LaunchSpecView, Seq<char>> {
    if id == FILESYSTEM_SERVER_ID@ {
        Ok(filesystem_launch())
    } else {
        Err(unknown_server_text(id))
    }
}

/// An outcome of resolution as plain sequences of characters.
pub open spec fn outcome_view(outcome: Result<LaunchSpec, String>) -> Result<
    LaunchSpecView,
    Seq<char>,
> {
    match outcome {
        Ok(spec) => Ok(spec@),
        Err(message) => Err(message@),
    }
}

/// Whether `id` names the known server.
pub fn is_known_server(id: &str) -> (known: bool)
    ensures
        known == (id@ == FILESYSTEM_SERVER_ID@),
        known == resolution(id@).is_ok(),
{
    str_equal(id, FILESYSTEM_SERVER_ID)
}

/// The launch description of the known server.
pub fn filesystem_server_launch() -> (spec: LaunchSpec)
    ensures
        spec@ == filesystem_launch(),
{
    let mut args: Vec<String> = Vec::new();
    args.push(String::from_str(RUN_SUBCOMMAND));
    args.push(String::from_str(FILESYSTEM_SERVER_ID));
    let spec = LaunchSpec::new(String::from_str(RUNNER), args);
    assert(spec@.args =~= filesystem_launch().args);
    spec
}

/// The message that reports `id` as unknown.
pub fn unknown_server_message(id: &str) -> (message: String)
    ensures
        message@ == unknown_server_text(id@),
{
    String::from_str(UNKNOWN_SERVER_PREFIX).concat(id)
}

/// Resolves the identifier of a context server.
///
/// The known identifier gives the server's launch description. Any other
/// string, the empty one included, gives the message that names it.
pub fn resolve(id: &str) -> (outcome: Result<LaunchSpec, String>)
    ensures
        outcome_view(outcome) == resolution(id@),
        outcome.is_ok() <==> id@ == FILESYSTEM_SERVER_ID@,
{
    if is_known_server(id) {
        Ok(filesystem_server_launch())
    } else {
        Err(unknown_server_message(id))
    }
}

/// Resolution depends on the identifier alone: two outcomes that both
/// answer the same identifier are the same outcome.
pub proof fn resolution_is_deterministic(
    id: Seq<char>,
    first: Result<LaunchSpec, String>,
    second: Result<LaunchSpec, String>,
)
    requires
        outcome_view(first) == resolution(id),
        outcome_view(second) == resolution(id),
    ensures
        outcome_view(first) == outcome_view(second),
        first.is_ok() == second.is_ok(),
{
}

/// The message for an unknown identifier carries the identifier whole: what
/// follows the prefix is the identifier, so different identifiers are
/// reported by different messages.
pub proof fn unknown_server_text_names_identifier(id: Seq<char>, other: Seq<char>)
    ensures
        unknown_server_text(id).skip(UNKNOWN_SERVER_PREFIX@.len() as int) == id,
        unknown_server_text(id) == unknown_server_text(other) ==> id == other,
{
    let prefix = UNKNOWN_SERVER_PREFIX@;
    assert(unknown_server_text(id).skip(prefix.len() as int) =~= id);
    assert(unknown_server_text(other).skip(prefix.len() as int) =~= other);
}

} // verus!
