//! The extension adapter: given the worktree's answer to a search-path
//! lookup, decide how the HyperQL language server is launched.

use vstd::prelude::*;
use crate::command::LaunchCommand;
use zed_extension_api::LanguageServerId;
use zed_extension_api::Worktree;

verus! {

/// The name of the language-server binary the extension resolves: always
/// `hyperql-lsp`, never a variant or platform-suffixed form.
pub open spec fn server_binary_name_spec() -> Seq<char> {
    "hyperql-lsp"@
}

/// The message reported when the server binary is not on the search path.
pub open spec fn missing_server_message_spec() -> Seq<char> {
    "hyperql-lsp not found in PATH. Please install the HyperQL LSP server."@
}

/// The decision made once the worktree lookup has answered: launch the
/// resolved path (`Ok`), or report the missing binary (`Err`). The language
/// server identifier is accepted but never consulted: the extension
/// registers exactly one server and does not multiplex.
pub open spec fn launch_outcome(server_id: Seq<char>, which_result: Option<Seq<char>>) -> Result<
    Seq<char>,
    Seq<char>,
> {
    match which_result {
        Option::Some(path) => Result::Ok(path),
        Option::None => Result::Err(missing_server_message_spec()),
    }
}

/// The launch outcome depends only on the worktree's lookup answer, never on
/// the language-server identifier the host supplies.
pub proof fn lemma_server_id_independent(
    id_a: Seq<char>,
    id_b: Seq<char>,
    which_result: Option<Seq<char>>,
)
    ensures
        launch_outcome(id_a, which_result) == launch_outcome(id_b, which_result),
{
}

/// The missing-binary message names the expected binary: it begins with the
/// exact binary name.
pub proof fn lemma_missing_message_names_binary()
    ensures
        server_binary_name_spec().len() <= missing_server_message_spec().len(),
        missing_server_message_spec().subrange(
            0,
            server_binary_name_spec().len() as int,
        ) == server_binary_name_spec(),
{
    reveal_strlit("hyperql-lsp");
    reveal_strlit("hyperql-lsp not found in PATH. Please install the HyperQL LSP server.");
    assert(missing_server_message_spec().subrange(0, server_binary_name_spec().len() as int)
        =~= server_binary_name_spec());
}

/// The name of the language-server binary, as asked of the worktree.
pub fn server_binary_name() -> (r: &'static str)
    ensures
        r@ == server_binary_name_spec(),
{
    "hyperql-lsp"
}

/// The error message reported when the server binary is missing.
pub fn missing_server_message() -> (r: String)
    ensures
        r@ == missing_server_message_spec(),
{
    String::from_str("hyperql-lsp not found in PATH. Please install the HyperQL LSP server.")
}

/// Decides the launch command from the worktree's lookup answer: the
/// resolved path with no arguments and no environment overrides, or the
/// missing-binary error. The result is exactly `launch_outcome` for the
/// given identifier, which it never consults.
pub fn resolve_launch_command(server_id: &str, which_result: Option<String>) -> (r: Result<
    LaunchCommand,
    String,
>)
    ensures
        (r matches Ok(c) ==> c.args@ == Seq::<String>::empty() && c.env@ == Seq::<(
            String,
            String,
        )>::empty()),
        match launch_outcome(server_id@, which_result.deep_view()) {
            Result::Ok(path) => r matches Ok(c) && c.command@ == path,
            Result::Err(msg) => r matches Err(e) && e@ == msg,
        },
{
    match which_result {
        Option::Some(path) => Result::Ok(LaunchCommand::bare(path)),
        Option::None => Result::Err(missing_server_message()),
    }
}

/// The extension adapter. It carries no state: each call resolves the
/// server binary afresh against the worktree it is handed.
#[derive(PartialEq, Eq, Structural)]
pub struct HyperqlExtension;

impl HyperqlExtension {
    /// Builds a fresh adapter. Construction cannot fail and touches no
    /// external resource.
    pub fn new() -> (r: Self)
        ensures
            r == (HyperqlExtension {}),
    {
        HyperqlExtension {}
    }

    /// Resolves the launch command for the HyperQL language server: asks the
    /// worktree for the `hyperql-lsp` binary and returns its path with empty
    /// arguments and environment, or the missing-binary error. The adapter
    /// itself is left unchanged, and the identifier has no bearing on the
    /// result.
    pub fn language_server_command(
        &mut self,
        language_server_id: &LanguageServerId,
        worktree: &Worktree,
    ) -> (r: Result<LaunchCommand, String>)
        ensures
            *final(self) == *old(self),
            (r matches Ok(c) ==> c.args@ == Seq::<String>::empty() && c.env@ == Seq::<(
                String,
                String,
            )>::empty()),
            (r matches Err(e) ==> e@ == missing_server_message_spec()),
    {
        let which_result = crate::host::worktree_which(worktree, server_binary_name());
        resolve_launch_command(crate::host::server_id_text(language_server_id), which_result)
    }
}

} // verus!
