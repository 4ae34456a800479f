use vstd::prelude::*;

use crate::error::ListError;

verus! {

/// The directory under which every vault lies.
pub open spec fn vault_base() -> Seq<char> {
    "/tmp/vault"@
}

/// The identity of one call: a session identifier and its access token.
#[derive(Clone, Debug)]
pub struct CallContext {
    pub id: String,
    pub token: String,
}

/// A context names a vault of its own: both parts are nonempty, neither holds a
/// `'/'`, and the token holds no `'-'`, so that `id-token` determines both parts.
pub open spec fn valid_context(id: Seq<char>, token: Seq<char>) -> bool {
    &&& id.len() > 0
    &&& token.len() > 0
    &&& !id.contains('/')
    &&& !token.contains('/')
    &&& !token.contains('-')
}

/// The name of a vault directory: `id-token`.
pub open spec fn vault_dir_name(id: Seq<char>, token: Seq<char>) -> Seq<char> {
    id + seq!['-'] + token
}

/// The vault of a context: `/tmp/vault/id-token`.
pub open spec fn root_of(id: Seq<char>, token: Seq<char>) -> Seq<char> {
    vault_base() + seq!['/'] + vault_dir_name(id, token)
}

/// `p` lies in the vault of the context `(id, token)`; a context that names no
/// vault of its own has none, and no path lies in it.
pub open spec fn in_vault_of(p: Seq<char>, id: Seq<char>, token: Seq<char>) -> bool {
    valid_context(id, token) && inside(p, root_of(id, token))
}

/// `p` is `dir` itself or lies below it.
pub open spec fn inside(p: Seq<char>, dir: Seq<char>) -> bool {
    p == dir || (p.len() > dir.len() && p.subrange(0, dir.len() + 1 as int) == dir.push('/'))
}

/// A `..` segment starts at index `i` of `p`.
pub open spec fn parent_at(p: Seq<char>, i: int) -> bool {
    &&& 0 <= i
    &&& i + 2 <= p.len()
    &&& p[i] == '.'
    &&& p[i + 1] == '.'
    &&& (i == 0 || p[i - 1] == '/')
    &&& (i + 2 == p.len() || p[i + 2] == '/')
}

/// `p` holds a parent-directory segment.
pub open spec fn has_parent_segment(p: Seq<char>) -> bool {
    exists|i: int| parent_at(p, i)
}

/// The part of `requested` that names a place inside the vault `root`: an empty
/// path and the vault itself name the vault; an absolute path must lie in the
/// vault; a relative path is taken from the vault.
pub open spec fn relative_part(root: Seq<char>, requested: Seq<char>) -> Option<Seq<char>> {
    if requested.len() == 0 || requested == root {
        Some(Seq::<char>::empty())
    } else if requested[0] == '/' {
        if inside(requested, root) {
            Some(requested.skip(root.len() + 1 as int))
        } else {
            None
        }
    } else {
        Some(requested)
    }
}

/// `rel` appended to `root`, with the empty `rel` naming `root` itself.
pub open spec fn join(root: Seq<char>, rel: Seq<char>) -> Seq<char> {
    if rel.len() == 0 {
        root
    } else {
        root.push('/') + rel
    }
}

/// The absolute path that `requested` names inside the vault of a valid
/// context, if it names one.
pub open spec fn resolved(id: Seq<char>, token: Seq<char>, requested: Seq<char>) -> Option<
    Seq<char>,
> {
    if has_parent_segment(requested) {
        None
    } else {
        match relative_part(root_of(id, token), requested) {
            Some(rel) => Some(join(root_of(id, token), rel)),
            None => None,
        }
    }
}

/// What resolving `requested` for a context gives: the path, or why there is none.
pub open spec fn resolve_outcome(id: Seq<char>, token: Seq<char>, requested: Seq<char>) -> Result<
    Seq<char>,
    ListError,
> {
    if has_parent_segment(requested) {
        Err(ListError::InvalidPath)
    } else if !valid_context(id, token) {
        Err(ListError::InvalidContext)
    } else {
        match resolved(id, token, requested) {
            Some(p) => Ok(p),
            None => Err(ListError::InvalidPath),
        }
    }
}

fn contains_char(s: &str, c: char) -> (r: bool)
    ensures
        r == s@.contains(c),
{
    let n: usize = s.unicode_len();
    let mut i: usize = 0;
    while i < n
        invariant
            n == s@.len(),
            i <= n,
            forall|j: int| 0 <= j < i ==> s@[j] != c,
        decreases n - i,
    {
        if s.get_char(i) == c {
            return true;
        }
        i = i + 1;
    }
    false
}

/// Whether `s` begins with `p`.
fn starts_with(s: &str, p: &str) -> (r: bool)
    ensures
        r == (p@.len() <= s@.len() && s@.subrange(0, p@.len() as int) == p@),
{
    let n: usize = s.unicode_len();
    let m: usize = p.unicode_len();
    if m > n {
        return false;
    }
    let mut i: usize = 0;
    while i < m
        invariant
            n == s@.len(),
            m == p@.len(),
            m <= n,
            i <= m,
            forall|j: int| 0 <= j < i ==> s@[j] == p@[j],
        decreases m - i,
    {
        if s.get_char(i) != p.get_char(i) {
            assert(s@.subrange(0, m as int)[i as int] != p@[i as int]);
            return false;
        }
        i = i + 1;
    }
    assert(s@.subrange(0, m as int) =~= p@);
    true
}

/// Whether `s` holds a `..` segment.
pub fn contains_parent_segment(s: &str) -> (r: bool)
    ensures
        r == has_parent_segment(s@),
{
    let n: usize = s.unicode_len();
    let mut i: usize = 0;
    while i < n && n - i >= 2
        invariant
            n == s@.len(),
            i <= n,
            forall|j: int| 0 <= j < i ==> !parent_at(s@, j),
        decreases n - i,
    {
        if s.get_char(i) == '.' && s.get_char(i + 1) == '.' && (i == 0 || s.get_char(i - 1)
            == '/') && (i + 2 == n || s.get_char(i + 2) == '/') {
            assert(parent_at(s@, i as int));
            return true;
        }
        i = i + 1;
    }
    assert forall|j: int| !parent_at(s@, j) by {
        if 0 <= j && j + 2 <= s@.len() {
            assert(j < i);
        }
    }
    false
}

impl CallContext {
    /// Whether this context names a vault of its own.
    pub fn is_valid(&self) -> (r: bool)
        ensures
            r == valid_context(self.id@, self.token@),
    {
        self.id.as_str().unicode_len() > 0 && self.token.as_str().unicode_len() > 0
            && !contains_char(self.id.as_str(), '/') && !contains_char(self.token.as_str(), '/')
            && !contains_char(self.token.as_str(), '-')
    }

    /// The vault directory of this context.
    pub fn vault_root(&self) -> (r: String)
        ensures
            r@ == root_of(self.id@, self.token@),
    {
        let mut r = String::new();
        r.append("/tmp/vault");
        r.append("/");
        r.append(self.id.as_str());
        r.append("-");
        r.append(self.token.as_str());
        proof {
            reveal_strlit("/");
            reveal_strlit("-");
            assert(r@ =~= root_of(self.id@, self.token@));
        }
        r
    }
}

/// Resolves a requested path to an absolute path inside the caller's vault,
/// refusing any `..` segment, a context that names no vault of its own, and an
/// absolute path outside the vault.
pub fn resolve(ctx: &CallContext, requested: &String) -> (r: Result<String, ListError>)
    ensures
        match resolve_outcome(ctx.id@, ctx.token@, requested@) {
            Ok(p) => r is Ok && r->Ok_0@ == p,
            Err(e) => r == Err::<String, ListError>(e),
        },
{
    let req: &str = requested.as_str();
    if contains_parent_segment(req) {
        return Err(ListError::InvalidPath);
    }
    if !ctx.is_valid() {
        return Err(ListError::InvalidContext);
    }
    let root = ctx.vault_root();
    let n: usize = req.unicode_len();
    let rn: usize = root.as_str().unicode_len();
    let at_root = n == rn && starts_with(req, root.as_str());
    proof {
        if n == rn && req@.subrange(0, rn as int) == root@ {
            assert(req@ =~= root@);
        }
        if req@ == root@ {
            assert(req@.subrange(0, rn as int) =~= root@);
        }
    }
    if n == 0 || at_root {
        return Ok(root);
    }
    let rel: &str;
    if req.get_char(0) == '/' {
        if n > rn && starts_with(req, root.as_str()) && req.get_char(rn) == '/' {
            proof {
                assert(req@.subrange(0, rn + 1) =~= root@.push('/'));
            }
            rel = req.substring_char(rn + 1, n);
        } else {
            proof {
                if inside(req@, root@) {
                    assert(req@ != root@);
                    let pre = req@.subrange(0, rn + 1);
                    assert(pre == root@.push('/'));
                    assert(req@.subrange(0, rn as int) =~= pre.subrange(0, rn as int));
                    assert(root@.push('/').subrange(0, rn as int) =~= root@);
                    assert(req@[rn as int] == pre[rn as int]);
                }
            }
            return Err(ListError::InvalidPath);
        }
    } else {
        rel = req;
    }
    if rel.unicode_len() == 0 {
        return Ok(root);
    }
    let mut p = root;
    p.append("/");
    p.append(rel);
    proof {
        reveal_strlit("/");
        assert(p@ =~= root@.push('/') + rel@);
    }
    Ok(p)
}

} // verus!
