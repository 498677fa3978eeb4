use vstd::prelude::*;
use vstd::string::*;
use crate::message::{Request, Uri};
use crate::outcome::Outcome;

verus! {

/// A mount prefix as it is matched: it starts with `/`.
pub open spec fn normalized(p: Seq<char>) -> Seq<char> {
    if p.len() > 0 && p[0] == '/' {
        p
    } else {
        seq!['/'] + p
    }
}

/// Whether `path` starts with `prefix` (compared character by character, case-sensitive).
pub open spec fn has_prefix(path: Seq<char>, prefix: Seq<char>) -> bool {
    prefix.len() <= path.len() && path.subrange(0, prefix.len() as int) == prefix
}

/// The path a mounted middleware sees: what follows the prefix, or `/` if nothing does.
pub open spec fn stripped(path: Seq<char>, prefix: Seq<char>) -> Seq<char> {
    if path.len() == prefix.len() {
        seq!['/']
    } else {
        path.subrange(prefix.len() as int, path.len() as int)
    }
}

/// A middleware active only under a path prefix, which it strips from the
/// request's path while the wrapped middleware runs.
pub struct MountMiddleware<M> {
    path: String,
    middleware: M,
}

/// What a mount does with a request.
pub enum MountEntry {
    /// The path is not under the prefix: the request goes on unchanged and the
    /// wrapped middleware is not invoked.
    Bypass(Request),
    /// Invoke the wrapped middleware with this rewritten request; the target
    /// is put back before the chain goes on past the mount.
    Enter(Request, Uri),
}

/// `req` is `orig` with its path replaced by `path`.
pub open spec fn with_path(req: Request, orig: Request, path: Seq<char>) -> bool {
    &&& req.method == orig.method
    &&& req.headers == orig.headers
    &&& req.body == orig.body
    &&& req.uri.scheme == orig.uri.scheme
    &&& req.uri.authority == orig.uri.authority
    &&& req.uri.query == orig.uri.query
    &&& req.uri.path@ == path
}

/// What a mount with prefix `prefix` does with `req`.
pub open spec fn enters(prefix: Seq<char>, req: Request, e: MountEntry) -> bool {
    if has_prefix(req.uri.path@, prefix) {
        e matches MountEntry::Enter(inner, orig) && orig == req.uri && with_path(
            inner,
            req,
            stripped(req.uri.path@, prefix),
        )
    } else {
        e == MountEntry::Bypass(req)
    }
}

/// What leaving a mount does to the wrapped middleware's outcome: a request
/// handed on gets its original target back; anything else is untouched.
pub open spec fn restores<S>(original: Uri, before: Outcome<S>, after: Outcome<S>) -> bool {
    match before {
        Outcome::Continue(req, res, state) => after matches Outcome::Continue(r, res2, state2)
            && r.uri == original && r.method == req.method && r.headers == req.headers
            && r.body == req.body && res2 == res && state2 == state,
        _ => after == before,
    }
}

fn clone_opt(s: &Option<String>) -> (r: Option<String>)
    ensures
        r == *s,
{
    match s {
        Some(t) => Some(t.clone()),
        None => None,
    }
}

/// Mounts `mw` under `path`, which is taken to start with `/` (one is put in
/// front of it if it does not).
pub fn mount<M>(path: &str, mw: M) -> (m: MountMiddleware<M>)
    ensures
        m.prefix() == normalized(path@),
        m.wrapped() == mw,
{
    let prefix = if path.unicode_len() > 0 && path.get_char(0) == '/' {
        String::from_str(path)
    } else {
        String::from_str("/").concat(path)
    };
    proof {
        reveal_strlit("/");
        assert("/"@ =~= seq!['/']);
    }
    MountMiddleware { path: prefix, middleware: mw }
}

impl<M> MountMiddleware<M> {
    /// The prefix this mount matches.
    pub closed spec fn prefix(&self) -> Seq<char> {
        self.path@
    }

    /// The middleware this mount wraps.
    pub closed spec fn wrapped(&self) -> M {
        self.middleware
    }

    /// The prefix this mount matches.
    pub fn path(&self) -> (p: &str)
        ensures
            p@ == self.prefix(),
    {
        self.path.as_str()
    }

    /// The middleware this mount wraps.
    pub fn middleware(&self) -> (m: &M)
        ensures
            *m == self.wrapped(),
    {
        &self.middleware
    }

    /// Whether `path` lies under this mount.
    pub fn matches(&self, path: &str) -> (r: bool)
        ensures
            r == has_prefix(path@, self.prefix()),
    {
        let plen = self.path.as_str().unicode_len();
        let len = path.unicode_len();
        if plen > len {
            return false;
        }
        let head = String::from_str(path.substring_char(0, plen));
        head == self.path
    }

    /// Decides what happens to `req` at this mount, and rewrites it if the
    /// wrapped middleware is to see it.
    pub fn enter(&self, req: Request) -> (e: MountEntry)
        ensures
            enters(self.prefix(), req, e),
    {
        if !self.matches(req.uri.path.as_str()) {
            return MountEntry::Bypass(req);
        }
        let plen = self.path.as_str().unicode_len();
        let len = req.uri.path.as_str().unicode_len();
        let rest = req.uri.path.as_str().substring_char(plen, len);
        let new_path = if rest.is_empty() {
            String::from_str("/")
        } else {
            String::from_str(rest)
        };
        proof {
            reveal_strlit("/");
            assert("/"@ =~= seq!['/']);
        }
        assert(new_path@ == stripped(req.uri.path@, self.prefix()));
        let new_uri = Uri {
            scheme: clone_opt(&req.uri.scheme),
            authority: clone_opt(&req.uri.authority),
            path: new_path,
            query: clone_opt(&req.uri.query),
        };
        let Request { method, uri, headers, body } = req;
        MountEntry::Enter(Request { method, uri: new_uri, headers, body }, uri)
    }
}

/// Leaves a mount: a request that the wrapped middleware hands on gets back
/// `original`, its target before the mount rewrote it.
pub fn leave<S>(original: Uri, outcome: Outcome<S>) -> (r: Outcome<S>)
    ensures
        restores(original, outcome, r),
{
    match outcome {
        Outcome::Continue(req, res, state) => {
            let Request { method, uri: _, headers, body } = req;
            Outcome::Continue(Request { method, uri: original, headers, body }, res, state)
        },
        other => other,
    }
}

/// A mount shows the wrapped middleware the path with the prefix stripped
/// (or `/`), and the chain past the mount sees the original target again
/// whenever the wrapped middleware hands the request on.
pub proof fn lemma_mount_rewrite_restores<S>(
    prefix: Seq<char>,
    req: Request,
    e: MountEntry,
    inner_out: Outcome<S>,
    after: Outcome<S>,
)
    requires
        has_prefix(req.uri.path@, prefix),
        enters(prefix, req, e),
        e matches MountEntry::Enter(_, orig) && restores(orig, inner_out, after),
        inner_out is Continue,
    ensures
        e matches MountEntry::Enter(inner, _) && inner.uri.path@ == (if req.uri.path@.len()
            == prefix.len() {
            seq!['/']
        } else {
            req.uri.path@.subrange(prefix.len() as int, req.uri.path@.len() as int)
        }),
        after matches Outcome::Continue(r, _, _) && r.uri == req.uri,
{
}

/// A mount leaves a request whose path is not under its prefix as it is, and
/// never hands it to the wrapped middleware.
pub proof fn lemma_mount_bypass(prefix: Seq<char>, req: Request, e: MountEntry)
    requires
        !has_prefix(req.uri.path@, prefix),
        enters(prefix, req, e),
    ensures
        e == MountEntry::Bypass(req),
        !(e is Enter),
{
}

} // verus!
