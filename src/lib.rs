//! Lists the contents of a caller's sandboxed vault directory.
//!
//! The library resolves an untrusted path against the vault reserved for one
//! call context, builds the arguments for the `ls` binary, and folds the
//! binary's raw output into a uniform [`ListResult`].

mod error;
mod text;
mod vault;

pub use error::ListError;
pub use text::entry_names;
pub use vault::{contains_parent_segment, resolve, CallContext};
mod result;

pub use result::ListResult;
mod binary;

pub use binary::{failure_message, ls_arguments, ls_output, BinaryOutput, SUCCESS_CODE};
mod effector;

pub use effector::{list_vault_finish, list_vault_step, ListStep};
mod laws;

pub use laws::{
    lemma_empty_vault_lists_nothing, lemma_failed_call_reports_error,
    lemma_listing_ignores_other_vault, lemma_listing_repeatable, lemma_listing_stays_in_vault,
    lemma_parent_segment_refused, lemma_vault_roots_distinct, lemma_vaults_disjoint,
};
