//! Somewhere to keep a login that is not a plaintext file in a repo.
//!
//! Preference is the operating system's own credential store via `keyring`.
//! Where none is reachable it falls back to a 0600 file under the state
//! directory, and says so rather than pretending.
use vstd::prelude::*;

use crate::netkit::paths::{join, join_path};
use crate::text;
use crate::text::{chars_of, string_of, trim_str};

verus! {

/// A name reduced to one path segment that cannot escape it: every
/// character but an ASCII letter or digit becomes `_`.
pub open spec fn safe_name(name: Seq<char>) -> Seq<char> {
    name.map_values(|c: char| if text::is_ascii_alnum(c) { c } else { '_' })
}

/// Reduce a name to something that is one path segment and cannot escape it.
pub fn safe(name: &str) -> (r: String)
    ensures
        r@ == safe_name(name@),
{
    let v = chars_of(name);
    let mut out: Vec<char> = Vec::new();
    let n = v.len();
    let mut i: usize = 0;
    while i < n
        invariant
            n == v.len(),
            i <= n,
            out@ == safe_name(v@.take(i as int)),
        decreases n - i,
    {
        let c = v[i];
        let keep = ('a' <= c && c <= 'z') || ('A' <= c && c <= 'Z') || ('0' <= c && c <= '9');
        out.push(if keep { c } else { '_' });
        assert(v@.take(i + 1) =~= v@.take(i as int).push(c));
        assert(safe_name(v@.take(i + 1)) =~= safe_name(v@.take(i as int)).push(
            if text::is_ascii_alnum(c) { c } else { '_' },
        ));
        i += 1;
    }
    assert(v@.take(n as int) =~= v@);
    string_of(&out)
}

#[derive(Clone, Copy, PartialEq, Eq, Structural, Debug)]
pub enum Backend {
    /// The platform credential store.
    Keyring,
    /// A 0600 file, for platforms without one.
    File,
}

/// `keyring::Entry::store_status().is_ok()`: whether this platform's
/// credential store came up. It depends on the machine, so nothing is stated
/// of it.
#[verifier::external_body]
fn store_reachable() -> bool {
    keyring::Entry::store_status().is_ok()
}

impl Backend {
    /// What this platform offers. The caller decides whether to override it --
    /// tests always do, to stay off the developer's real credential store.
    pub fn detect() -> (b: Backend)
        ensures
            exists|reachable: bool| b == #[trigger] Backend::for_store_spec(reachable),
    {
        Backend::for_store(store_reachable())
    }

    pub open spec fn for_store_spec(reachable: bool) -> Backend {
        if reachable {
            Backend::Keyring
        } else {
            Backend::File
        }
    }

    /// The backend for a platform whose credential store did, or did not,
    /// come up: the store where there is one, else the file.
    pub fn for_store(reachable: bool) -> (b: Backend)
        ensures
            b == Backend::for_store_spec(reachable),
    {
        if reachable {
            Backend::Keyring
        } else {
            Backend::File
        }
    }

    pub fn describe(self) -> (r: &'static str)
        ensures
            r@ == (match self {
                Backend::Keyring => "the system credential store"@,
                Backend::File => "a 0600 file in the state directory (no system credential store)"@,
            }),
    {
        match self {
            Backend::Keyring => "the system credential store",
            Backend::File => "a 0600 file in the state directory (no system credential store)",
        }
    }
}

/// `Clone` because a client that can re-authenticate has to carry one.
#[derive(Clone, Debug)]
pub struct Secrets {
    service: String,
    backend: Backend,
    dir: String,
}

impl Secrets {
    pub closed spec fn service_spec(&self) -> Seq<char> {
        self.service@
    }

    pub closed spec fn backend_spec(&self) -> Backend {
        self.backend
    }

    pub closed spec fn dir_spec(&self) -> Seq<char> {
        self.dir@
    }

    /// `service` names the tool in the credential store, and is why two CLIs
    /// on one machine do not read each other's logins.
    pub fn new(service: String, backend: Backend, state_dir: &str) -> (s: Secrets)
        ensures
            s.service_spec() == service@,
            s.backend_spec() == backend,
            s.dir_spec() == join(state_dir@, "secrets"@),
    {
        Secrets { service, backend, dir: join_path(state_dir, "secrets") }
    }

    pub fn backend(&self) -> (b: Backend)
        ensures
            b == self.backend_spec(),
    {
        self.backend
    }

    pub fn service(&self) -> (r: &str)
        ensures
            r@ == self.service_spec(),
    {
        self.service.as_str()
    }

    /// Where the file backend keeps `account`'s secret. Both names reach the
    /// filesystem, so both are reduced to something that cannot climb out of
    /// the directory; the service is part of the path so that two tools
    /// pointed at one state directory cannot read each other's secrets.
    pub fn path(&self, account: &str) -> (r: String)
        ensures
            r@ == join(join(self.dir_spec(), safe_name(self.service_spec())), safe_name(account@)),
    {
        let service = safe(self.service.as_str());
        let inner = join_path(self.dir.as_str(), service.as_str());
        let acct = safe(account);
        join_path(inner.as_str(), acct.as_str())
    }

    /// The directory the file backend keeps this service's secrets in.
    pub fn service_dir(&self) -> (r: String)
        ensures
            r@ == join(self.dir_spec(), safe_name(self.service_spec())),
    {
        let service = safe(self.service.as_str());
        join_path(self.dir.as_str(), service.as_str())
    }
}

/// No reduced name holds a path separator.
proof fn lemma_safe_has_no_slash(name: Seq<char>)
    ensures
        forall|i: int| 0 <= i < safe_name(name).len() ==> safe_name(name)[i] != '/',
{
}

/// The secrets directory under a state directory is a non-empty path that
/// does not end in a separator.
proof fn lemma_secrets_dir(state_dir: Seq<char>)
    ensures
        join(state_dir, "secrets"@).len() > 0,
        join(state_dir, "secrets"@).last() == 's',
{
    reveal_strlit("secrets");
    reveal_strlit("/");
}

/// Where a segment without separators lands under a non-empty directory that
/// does not end in one.
proof fn lemma_join_plain(dir: Seq<char>, segment: Seq<char>)
    requires
        dir.len() > 0,
        dir.last() != '/',
        forall|i: int| 0 <= i < segment.len() ==> segment[i] != '/',
    ensures
        join(dir, segment) == dir + seq!['/'] + segment,
{
    reveal_strlit("/");
    assert(segment.len() > 0 ==> segment.subrange(0, 1) != "/"@) by {
        if segment.len() > 0 {
            assert(segment.subrange(0, 1)[0] == segment[0]);
        }
    }
    assert(dir.subrange(dir.len() - 1, dir.len() as int)[0] == dir.last());
    assert("/"@ =~= seq!['/']);
}

/// Where the file backend keeps a secret, as a path below the secrets
/// directory: the service's reduced name and then the account's, or the
/// account's alone for a service that reduces to nothing.
proof fn lemma_file_below(d: Seq<char>, service: Seq<char>, account: Seq<char>)
    requires
        d.len() > 0,
        d.last() != '/',
    ensures
        join(join(d, safe_name(service)), safe_name(account)) == d + seq!['/'] + (
            if safe_name(service).len() == 0 {
                safe_name(account)
            } else {
                safe_name(service) + seq!['/'] + safe_name(account)
            }
        ),
{
    let sv = safe_name(service);
    let ac = safe_name(account);
    lemma_safe_has_no_slash(service);
    lemma_safe_has_no_slash(account);
    lemma_join_plain(d, sv);
    let p = d + seq!['/'] + sv;
    if sv.len() == 0 {
        assert(p =~= d + seq!['/']);
        reveal_strlit("/");
        assert(text::ends_with(p, "/"@)) by {
            assert(p.subrange(p.len() - 1, p.len() as int) =~= "/"@);
        }
        assert(ac.len() > 0 ==> ac.subrange(0, 1) != "/"@) by {
            if ac.len() > 0 {
                assert(ac.subrange(0, 1)[0] == ac[0]);
            }
        }
        assert(join(p, ac) == p + ac);
        assert(p + ac =~= d + seq!['/'] + ac);
    } else {
        assert(p.last() == sv.last());
        lemma_join_plain(p, ac);
        assert(p + seq!['/'] + ac =~= d + seq!['/'] + (sv + seq!['/'] + ac));
    }
}

/// An account's secret file sits directly in its service's directory,
/// whatever the account is called: the path is that directory, a separator
/// where it does not already end in one, and the account's reduced name,
/// which holds no separator to climb out with.
pub proof fn lemma_account_stays_inside(s: Secrets, state_dir: Seq<char>, account: Seq<char>)
    requires
        s.dir_spec() == join(state_dir, "secrets"@),
    ensures
        ({
            let sd = join(s.dir_spec(), safe_name(s.service_spec()));
            join(sd, safe_name(account)) == (if text::ends_with(sd, "/"@) {
                sd
            } else {
                sd + seq!['/']
            }) + safe_name(account)
        }),
        forall|i: int| 0 <= i < safe_name(account).len() ==> safe_name(account)[i] != '/',
{
    let d = s.dir_spec();
    let sv = safe_name(s.service_spec());
    let sd = join(d, sv);
    lemma_secrets_dir(state_dir);
    lemma_safe_has_no_slash(s.service_spec());
    lemma_safe_has_no_slash(account);
    lemma_join_plain(d, sv);
    lemma_file_below(d, s.service_spec(), account);
    reveal_strlit("/");
    if sv.len() == 0 {
        assert(sd =~= d + seq!['/']);
        assert(sd.subrange(sd.len() - 1, sd.len() as int) =~= "/"@);
    } else {
        assert(sd.subrange(sd.len() - 1, sd.len() as int)[0] == sv.last());
        assert(d + seq!['/'] + (sv + seq!['/'] + safe_name(account))
            =~= d + seq!['/'] + sv + seq!['/'] + safe_name(account));
    }
}

/// Two tools pointed at one state directory cannot read each other's
/// secrets: where their services reduce to different names, no account of
/// one is kept at the path of any account of the other.
pub proof fn lemma_services_apart(s: Secrets, t: Secrets, state_dir: Seq<char>, a: Seq<char>, b: Seq<char>)
    requires
        s.dir_spec() == join(state_dir, "secrets"@),
        t.dir_spec() == join(state_dir, "secrets"@),
        safe_name(s.service_spec()) != safe_name(t.service_spec()),
    ensures
        join(join(s.dir_spec(), safe_name(s.service_spec())), safe_name(a))
            != join(join(t.dir_spec(), safe_name(t.service_spec())), safe_name(b)),
{
    let d = s.dir_spec();
    let s1 = safe_name(s.service_spec());
    let s2 = safe_name(t.service_spec());
    let a1 = safe_name(a);
    let a2 = safe_name(b);
    lemma_secrets_dir(state_dir);
    lemma_safe_has_no_slash(s.service_spec());
    lemma_safe_has_no_slash(t.service_spec());
    lemma_safe_has_no_slash(a);
    lemma_safe_has_no_slash(b);
    lemma_file_below(d, s.service_spec(), a);
    lemma_file_below(d, t.service_spec(), b);
    let x = if s1.len() == 0 { a1 } else { s1 + seq!['/'] + a1 };
    let y = if s2.len() == 0 { a2 } else { s2 + seq!['/'] + a2 };
    let p = d + seq!['/'];
    if p + x == p + y {
        assert(x =~= (p + x).subrange(p.len() as int, (p + x).len() as int));
        assert(y =~= (p + y).subrange(p.len() as int, (p + y).len() as int));
        assert(x == y);
        if s1.len() == 0 {
            assert(s2.len() > 0) by {
                if s2.len() == 0 {
                    assert(s1 =~= s2);
                }
            }
            assert(y[s2.len() as int] == '/');
            assert(x[s2.len() as int] != '/');
        } else if s2.len() == 0 {
            assert(x[s1.len() as int] == '/');
            assert(y[s1.len() as int] != '/');
        } else if s1.len() < s2.len() {
            assert(x[s1.len() as int] == '/');
            assert(y[s1.len() as int] == s2[s1.len() as int]);
        } else if s2.len() < s1.len() {
            assert(y[s2.len() as int] == '/');
            assert(x[s2.len() as int] == s1[s2.len() as int]);
        } else {
            assert(!(s1 =~= s2));
            let i = choose|i: int| 0 <= i < s1.len() && s1[i] != s2[i];
            assert(x[i] == s1[i]);
            assert(y[i] == s2[i]);
        }
    }
}

/// What a credential store's answer counts as: a blank secret is none.
pub fn from_store(secret: String) -> (r: Option<String>)
    ensures
        match r {
            Some(s) => s@ == secret@ && text::trim(secret@).len() > 0,
            None => text::trim(secret@).len() == 0,
        },
{
    let t = trim_str(secret.as_str());
    if t.as_str().is_empty() {
        None
    } else {
        Some(secret)
    }
}

/// What a stored file counts as: its trimmed text, and none when that is
/// empty.
pub fn from_file(text: &str) -> (r: Option<String>)
    ensures
        match r {
            Some(s) => s@ == text::trim(text@) && s@.len() > 0,
            None => text::trim(text@).len() == 0,
        },
{
    let t = trim_str(text);
    if t.as_str().is_empty() {
        None
    } else {
        Some(t)
    }
}

} // verus!
