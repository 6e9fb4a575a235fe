//! Trusted bindings to the host editor's extension interface.
//!
//! The worktree handle and the language-server identifier are capabilities
//! the host hands in; both are opaque here. Each binding makes one host
//! call, and no contract promises more than the host interface does.

use vstd::prelude::*;

verus! {

#[verifier::external_type_specification]
#[verifier::external_body]
pub struct ExWorktree(zed_extension_api::Worktree);

#[verifier::external_type_specification]
#[verifier::external_body]
pub struct ExLanguageServerId(zed_extension_api::LanguageServerId);

/// Relies on `zed_extension_api::Worktree::which`: resolves an executable
/// name against the worktree's effective search path, returning its path if
/// one is present. The answer depends on the worktree's environment, so
/// nothing is promised of it; callers handle every outcome.
#[verifier::external_body]
pub(crate) fn worktree_which(
    worktree: &zed_extension_api::Worktree,
    binary_name: &str,
) -> Option<String> {
    worktree.which(binary_name)
}

/// Relies on `AsRef<str> for zed_extension_api::LanguageServerId`: hands out
/// the identifier's text. The identifier is opaque, so nothing is promised
/// of the text; callers treat it as arbitrary.
#[verifier::external_body]
pub(crate) fn server_id_text(id: &zed_extension_api::LanguageServerId) -> &str {
    id.as_ref()
}

} // verus!
