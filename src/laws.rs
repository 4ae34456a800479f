use vstd::prelude::*;
use vstd::utf8::{decode_utf8, valid_utf8};

use crate::binary::{BinaryOutput, SUCCESS_CODE};
use crate::error::ListError;
use crate::effector::{list_vault_on, list_vault_view, same_output};
use crate::result::succeeded;
use crate::text::lines_of;
use crate::vault::{
    has_parent_segment, in_vault_of, inside, parent_at, resolve_outcome, resolved, root_of, valid_context,
    vault_base, vault_dir_name,
};

verus! {

/// The name of a valid context's vault directory holds no `'/'`.
proof fn lemma_dir_name_has_no_slash(id: Seq<char>, token: Seq<char>)
    requires
        valid_context(id, token),
    ensures
        !vault_dir_name(id, token).contains('/'),
{
    let s = vault_dir_name(id, token);
    assert forall|j: int| 0 <= j < s.len() implies s[j] != '/' by {
        if j < id.len() {
            assert(s[j] == id[j]);
        } else if j > id.len() {
            assert(s[j] == token[j - id.len() - 1]);
        }
    }
}

/// Two valid contexts with the same vault directory name are the same context.
proof fn lemma_dir_name_injective(id1: Seq<char>, t1: Seq<char>, id2: Seq<char>, t2: Seq<char>)
    requires
        valid_context(id1, t1),
        valid_context(id2, t2),
        vault_dir_name(id1, t1) == vault_dir_name(id2, t2),
    ensures
        id1 == id2,
        t1 == t2,
{
    let s = vault_dir_name(id1, t1);
    let n = s.len();
    if t1.len() < t2.len() {
        let k = n - t1.len() - 1;
        assert(s[k] == '-');
        assert(vault_dir_name(id2, t2)[k] == t2[k - id2.len() - 1]);
    } else if t2.len() < t1.len() {
        let k = n - t2.len() - 1;
        assert(vault_dir_name(id2, t2)[k] == '-');
        assert(s[k] == t1[k - id1.len() - 1]);
    }
    assert(id1 =~= s.subrange(0, id1.len() as int));
    assert(id2 =~= vault_dir_name(id2, t2).subrange(0, id2.len() as int));
    assert(t1 =~= s.subrange(id1.len() as int + 1, n as int));
    assert(t2 =~= vault_dir_name(id2, t2).subrange(id2.len() as int + 1, n as int));
}

/// A path that resolves for a valid context is its vault or lies below it,
/// reached without a `..` segment; when `ls` run there succeeds with valid
/// text, the listing succeeds with exactly the lines `ls` printed, in order.
pub proof fn lemma_listing_stays_in_vault(
    id: Seq<char>,
    token: Seq<char>,
    requested: Seq<char>,
    out: BinaryOutput,
)
    requires
        valid_context(id, token),
        resolved(id, token, requested) is Some,
    ensures
        ({
            let p = resolved(id, token, requested)->0;
            let root = root_of(id, token);
            &&& resolve_outcome(id, token, requested) == Ok::<Seq<char>, crate::error::ListError>(p)
            &&& inside(p, root)
            &&& p == root || !has_parent_segment(p.skip(root.len() as int + 1))
        }),
        out.ret_code == SUCCESS_CODE && valid_utf8(out.stdout@) ==> list_vault_view(
            id,
            token,
            requested,
            out,
        ) == succeeded(lines_of(decode_utf8(out.stdout@))),
{
    let root = root_of(id, token);
    let rn = root.len() as int;
    let p = resolved(id, token, requested)->0;
    if !(requested.len() == 0 || requested == root) {
        let rel = if requested[0] == '/' {
            requested.skip(rn + 1)
        } else {
            requested
        };
        if rel.len() > 0 {
            assert(p == root.push('/') + rel);
            assert(p.subrange(0, rn + 1) =~= root.push('/'));
            assert(p.skip(rn + 1) =~= rel);
            if requested[0] == '/' {
                assert forall|i: int| !parent_at(rel, i) by {
                    if parent_at(rel, i) {
                        assert(requested.subrange(0, rn + 1) == root.push('/'));
                        assert(requested[rn as int] == requested.subrange(0, rn + 1)[rn as int]);
                        assert(parent_at(requested, i + rn + 1));
                    }
                }
            }
        }
    }
}

/// A requested path that holds a `..` segment is refused before `ls` runs,
/// whatever the context and whatever `ls` would hand back.
pub proof fn lemma_parent_segment_refused(
    id: Seq<char>,
    token: Seq<char>,
    requested: Seq<char>,
    out: BinaryOutput,
)
    requires
        has_parent_segment(requested),
    ensures
        resolve_outcome(id, token, requested) == Err::<Seq<char>, ListError>(ListError::InvalidPath),
        !list_vault_view(id, token, requested, out).success,
{
}

/// Two listings of the same path for the same context, on which `ls` hands
/// back the same output, give the same answer.
pub proof fn lemma_listing_repeatable(
    id: Seq<char>,
    token: Seq<char>,
    requested: Seq<char>,
    out1: BinaryOutput,
    out2: BinaryOutput,
)
    requires
        same_output(out1, out2),
    ensures
        list_vault_view(id, token, requested, out1) == list_vault_view(id, token, requested, out2),
{
}

/// An empty vault, on which `ls` succeeds and prints nothing, lists as a
/// success with no entries.
pub proof fn lemma_empty_vault_lists_nothing(
    id: Seq<char>,
    token: Seq<char>,
    requested: Seq<char>,
    out: BinaryOutput,
)
    requires
        valid_context(id, token),
        resolved(id, token, requested) is Some,
        out.ret_code == SUCCESS_CODE,
        out.stdout@.len() == 0,
    ensures
        list_vault_view(id, token, requested, out) == succeeded(Seq::empty()),
{
    assert(valid_utf8(out.stdout@));
    assert(decode_utf8(out.stdout@) =~= Seq::<char>::empty());
    assert(lines_of(Seq::<char>::empty()) =~= Seq::<Seq<char>>::empty());
    lemma_listing_stays_in_vault(id, token, requested, out);
}

/// When `ls` fails, the listing fails with a nonempty error and no entries.
pub proof fn lemma_failed_call_reports_error(
    id: Seq<char>,
    token: Seq<char>,
    requested: Seq<char>,
    out: BinaryOutput,
)
    requires
        out.ret_code != SUCCESS_CODE,
    ensures
        ({
            let r = list_vault_view(id, token, requested, out);
            &&& !r.success
            &&& r.error.len() > 0
            &&& r.result.len() == 0
        }),
{
    reveal_strlit("call parameters name no vault");
    reveal_strlit("path does not resolve inside the vault");
    reveal_strlit("non-decodable output");
    reveal_strlit("ls call failed \n");
}

/// Distinct valid contexts have distinct vaults.
pub proof fn lemma_vault_roots_distinct(id1: Seq<char>, t1: Seq<char>, id2: Seq<char>, t2: Seq<char>)
    requires
        valid_context(id1, t1),
        valid_context(id2, t2),
        id1 != id2 || t1 != t2,
    ensures
        root_of(id1, t1) != root_of(id2, t2),
{
    let b = vault_base().len() as int + 1;
    if root_of(id1, t1) == root_of(id2, t2) {
        assert(vault_dir_name(id1, t1) =~= root_of(id1, t1).skip(b));
        assert(vault_dir_name(id2, t2) =~= root_of(id2, t2).skip(b));
        lemma_dir_name_injective(id1, t1, id2, t2);
    }
}

/// A path that resolves for one valid context lies outside the vault of
/// another valid context.
proof fn lemma_path_outside_other_vault(
    id1: Seq<char>,
    t1: Seq<char>,
    id2: Seq<char>,
    t2: Seq<char>,
    requested: Seq<char>,
)
    requires
        valid_context(id1, t1),
        valid_context(id2, t2),
        id1 != id2 || t1 != t2,
        resolved(id1, t1, requested) is Some,
    ensures
        !inside(resolved(id1, t1, requested)->0, root_of(id2, t2)),
{
    let p = resolved(id1, t1, requested)->0;
    lemma_listing_stays_in_vault(id1, t1, requested, arbitrary());
    let r1 = root_of(id1, t1);
    let r2 = root_of(id2, t2);
    let b = vault_base().len() as int + 1;
    let s1 = vault_dir_name(id1, t1);
    let s2 = vault_dir_name(id2, t2);
    lemma_dir_name_has_no_slash(id1, t1);
    lemma_dir_name_has_no_slash(id2, t2);
    lemma_vault_roots_distinct(id1, t1, id2, t2);
    if inside(p, r2) {
        // Every index below a root's length reads the same in `p` and in that root.
        assert forall|k: int| 0 <= k < r1.len() implies p[k] == r1[k] by {
            if p != r1 {
                assert(p[k] == p.subrange(0, r1.len() as int + 1)[k]);
            }
        }
        assert forall|k: int| 0 <= k < r2.len() implies p[k] == r2[k] by {
            if p != r2 {
                assert(p[k] == p.subrange(0, r2.len() as int + 1)[k]);
            }
        }
        if r1.len() < r2.len() {
            let k = r1.len() as int;
            assert(p != r1);
            assert(p[k] == p.subrange(0, r1.len() as int + 1)[k]);
            assert(r2[k] == s2[k - b]);
        } else if r2.len() < r1.len() {
            let k = r2.len() as int;
            assert(p != r2);
            assert(p[k] == p.subrange(0, r2.len() as int + 1)[k]);
            assert(r1[k] == s1[k - b]);
        } else {
            assert(r1 =~= r2);
        }
    }
}

/// Distinct contexts never list each other's entries: a path that resolves
/// for one context lies outside the other's vault, whichever the two requested
/// paths are.
pub proof fn lemma_vaults_disjoint(
    id1: Seq<char>,
    t1: Seq<char>,
    id2: Seq<char>,
    t2: Seq<char>,
    requested1: Seq<char>,
    requested2: Seq<char>,
)
    requires
        id1 != id2 || t1 != t2,
    ensures
        resolve_outcome(id1, t1, requested1) is Ok ==> !in_vault_of(
            resolve_outcome(id1, t1, requested1)->Ok_0,
            id2,
            t2,
        ),
        resolve_outcome(id2, t2, requested2) is Ok ==> !in_vault_of(
            resolve_outcome(id2, t2, requested2)->Ok_0,
            id1,
            t1,
        ),
{
    if resolve_outcome(id1, t1, requested1) is Ok && valid_context(id2, t2) {
        lemma_path_outside_other_vault(id1, t1, id2, t2, requested1);
    }
    if resolve_outcome(id2, t2, requested2) is Ok && valid_context(id1, t1) {
        lemma_path_outside_other_vault(id2, t2, id1, t1, requested2);
    }
}

/// What one context's listing answers does not depend on what another
/// context's vault holds: on two filesystems where `ls` hands back the same
/// output for every path outside that vault, the answer is the same.
pub proof fn lemma_listing_ignores_other_vault(
    id1: Seq<char>,
    t1: Seq<char>,
    id2: Seq<char>,
    t2: Seq<char>,
    requested: Seq<char>,
    ls1: spec_fn(Seq<char>) -> BinaryOutput,
    ls2: spec_fn(Seq<char>) -> BinaryOutput,
)
    requires
        id1 != id2 || t1 != t2,
        forall|p: Seq<char>|
            !in_vault_of(p, id2, t2) ==> #[trigger] same_output(ls1(p), ls2(p)),
    ensures
        list_vault_on(id1, t1, requested, ls1) == list_vault_on(id1, t1, requested, ls2),
{
    if resolve_outcome(id1, t1, requested) is Ok {
        let p = resolve_outcome(id1, t1, requested)->Ok_0;
        lemma_vaults_disjoint(id1, t1, id2, t2, requested, requested);
        assert(same_output(ls1(p), ls2(p)));
    }
}

} // verus!
