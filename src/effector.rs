use vstd::prelude::*;

use crate::binary::{ls_args, ls_arguments, ls_outcome, ls_output, BinaryOutput};
use crate::error::ListError;
use crate::result::{failed, succeeded, ListResult, ListResultView};
use crate::text::{entry_names, lines_of};
use crate::vault::{resolve, resolve_outcome, CallContext};

verus! {

/// What a listing asks of its caller next: run `ls` with `args` on the
/// resolved `path`, or nothing, because the answer is already known.
#[derive(Clone, Debug)]
pub enum ListStep {
    Invoke { path: String, args: Vec<String> },
    Done(ListResult),
}

/// The answer to a listing of `path` once `ls` has handed back `out`.
pub open spec fn response_view(path: Seq<char>, out: BinaryOutput) -> ListResultView {
    match ls_outcome(path, out) {
        Ok(text) => succeeded(lines_of(text)),
        Err(m) => failed(m),
    }
}

/// The answer to a listing of `requested` for the context `(id, token)`, where
/// `out` is what `ls` hands back when it is run on the resolved path.
pub open spec fn list_vault_view(
    id: Seq<char>,
    token: Seq<char>,
    requested: Seq<char>,
    out: BinaryOutput,
) -> ListResultView {
    match resolve_outcome(id, token, requested) {
        Ok(p) => response_view(p, out),
        Err(e) => failed(e.message_spec()),
    }
}

/// Two outputs of `ls` that hold the same values.
pub open spec fn same_output(a: BinaryOutput, b: BinaryOutput) -> bool {
    &&& a.ret_code == b.ret_code
    &&& a.error@ == b.error@
    &&& a.stdout@ == b.stdout@
    &&& a.stderr@ == b.stderr@
}

/// The answer to a listing of `requested` for the context `(id, token)` on a
/// filesystem where running `ls` on a path `p` hands back `ls(p)`.
pub open spec fn list_vault_on(
    id: Seq<char>,
    token: Seq<char>,
    requested: Seq<char>,
    ls: spec_fn(Seq<char>) -> BinaryOutput,
) -> ListResultView {
    match resolve_outcome(id, token, requested) {
        Ok(p) => response_view(p, ls(p)),
        Err(e) => failed(e.message_spec()),
    }
}

/// Starts a listing of `vault_path` for `ctx`: resolves the path inside the
/// caller's vault and asks for `ls -1` on it, or answers with the failure.
pub fn list_vault_step(ctx: &CallContext, vault_path: &String) -> (r: ListStep)
    ensures
        match resolve_outcome(ctx.id@, ctx.token@, vault_path@) {
            Ok(p) => r matches ListStep::Invoke { path, args } && path@ == p && args.deep_view()
                == ls_args(p),
            Err(e) => r matches ListStep::Done(res) && res@ == failed(e.message_spec()),
        },
{
    match resolve(ctx, vault_path) {
        Ok(path) => {
            let args = ls_arguments(&path);
            ListStep::Invoke { path, args }
        },
        Err(e) => ListStep::Done(ListResult::from_result(Err(e))),
    }
}

/// Finishes a listing of `path` with what `ls` handed back: the printed lines
/// as entry names, in the order printed, or the failure.
pub fn list_vault_finish(path: &String, out: BinaryOutput) -> (r: ListResult)
    ensures
        r@ == response_view(path@, out),
{
    let res: Result<Vec<String>, ListError> = match ls_output(path, out) {
        Ok(text) => Ok(entry_names(&text)),
        Err(e) => Err(e),
    };
    ListResult::from_result(res)
}

} // verus!
