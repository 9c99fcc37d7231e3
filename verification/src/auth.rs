//! Scopes, the authorizer that checks them, and the parser of scope lists.
use vstd::prelude::*;

use crate::error::DockerMcpError;
use crate::text::chars_of;

verus! {

/// Scope required to invoke a Docker MCP tool.
#[derive(Debug, Clone, Copy, PartialEq, Eq, Hash, Structural)]
pub enum ToolScope {
    Read,
    Write,
    Compose,
}

/// The name under which a scope is configured and audited.
pub open spec fn scope_name(s: ToolScope) -> Seq<char> {
    match s {
        ToolScope::Read => "docker:read"@,
        ToolScope::Write => "docker:write"@,
        ToolScope::Compose => "docker:compose"@,
    }
}

impl ToolScope {
    /// The configuration name of the scope.
    pub fn as_str(self) -> (s: &'static str)
        ensures
            s@ == scope_name(self),
    {
        match self {
            ToolScope::Read => "docker:read",
            ToolScope::Write => "docker:write",
            ToolScope::Compose => "docker:compose",
        }
    }
}

/// Whether `v` holds `s`.
fn contains_scope(v: &Vec<ToolScope>, s: ToolScope) -> (b: bool)
    ensures
        b == v@.contains(s),
{
    let mut j: usize = 0;
    while j < v.len()
        invariant
            j <= v@.len(),
            forall|k: int| 0 <= k < j ==> v@[k] != s,
        decreases v@.len() - j,
    {
        if v[j] == s {
            return true;
        }
        j = j + 1;
    }
    false
}

/// Decides which scopes a server instance may use.
#[derive(Debug)]
pub struct Authorizer {
    allowed: Vec<ToolScope>,
    deny_all: bool,
}

/// The message of the error that a missing scope gives.
pub open spec fn missing_scope_message(s: ToolScope) -> Seq<char> {
    "missing required scope "@ + scope_name(s)
}

impl Clone for Authorizer {
    fn clone(&self) -> (r: Self)
        ensures
            r.granted() == self.granted(),
            r.denies_all() == self.denies_all(),
    {
        proof {
            use_type_invariant(self);
        }
        let mut allowed: Vec<ToolScope> = Vec::new();
        let mut i: usize = 0;
        while i < self.allowed.len()
            invariant
                i <= self.allowed@.len(),
                allowed@ == self.allowed@.take(i as int),
            decreases self.allowed@.len() - i,
        {
            allowed.push(self.allowed[i]);
            proof {
                assert(self.allowed@.take(i + 1) =~= self.allowed@.take(i as int).push(self.allowed@[i as int]));
            }
            i = i + 1;
        }
        proof {
            assert(allowed@ =~= self.allowed@);
        }
        Authorizer { allowed, deny_all: self.deny_all }
    }
}

impl Authorizer {
    /// Each granted scope is held once.
    #[verifier::type_invariant]
    spec fn wf(self) -> bool {
        self.allowed@.no_duplicates()
    }

    /// The scopes that were granted.
    pub closed spec fn granted(self) -> Set<ToolScope> {
        self.allowed@.to_set()
    }

    /// Whether the authorizer refuses every scope whatever was granted.
    pub closed spec fn denies_all(self) -> bool {
        self.deny_all
    }

    /// Whether `authorize` lets a tool of scope `s` through.
    pub open spec fn permits(self, s: ToolScope) -> bool {
        !self.denies_all() && self.granted().contains(s)
    }

    /// An authorizer that grants exactly the given scopes.
    pub fn from_scopes(scopes: &[ToolScope]) -> (a: Self)
        ensures
            a.granted() == scopes@.to_set(),
            !a.denies_all(),
    {
        let mut allowed: Vec<ToolScope> = Vec::new();
        let mut i: usize = 0;
        while i < scopes.len()
            invariant
                i <= scopes@.len(),
                allowed@.no_duplicates(),
                forall|x: ToolScope| allowed@.contains(x) <==> scopes@.take(i as int).contains(x),
            decreases scopes@.len() - i,
        {
            let s = scopes[i];
            let present = contains_scope(&allowed, s);
            let ghost before = allowed@;
            if !present {
                allowed.push(s);
                proof {
                    assert forall|a: int, b: int|
                        0 <= a < allowed@.len() && 0 <= b < allowed@.len() && a != b implies allowed@[a]
                        != allowed@[b] by {
                        if a == before.len() {
                            assert(before[b] == allowed@[b]);
                            if before[b] == s {
                                assert(before.contains(s));
                            }
                        } else if b == before.len() {
                            assert(before[a] == allowed@[a]);
                            if before[a] == s {
                                assert(before.contains(s));
                            }
                        } else {
                            assert(before[a] == allowed@[a] && before[b] == allowed@[b]);
                        }
                    }
                }
            }
            proof {
                let t = scopes@.take(i + 1);
                assert(t =~= scopes@.take(i as int).push(s));
                assert forall|x: ToolScope| allowed@.contains(x) <==> t.contains(x) by {
                    if x == s {
                        assert(t[i as int] == s);
                        if !present {
                            assert(allowed@[before.len() as int] == s);
                        }
                    } else {
                        if allowed@.contains(x) {
                            let k = choose|k: int| 0 <= k < allowed@.len() && allowed@[k] == x;
                            assert(before[k] == x);
                            assert(before.contains(x));
                            assert(scopes@.take(i as int).contains(x));
                            let m = choose|m: int| 0 <= m < i && scopes@.take(i as int)[m] == x;
                            assert(t[m] == x);
                        }
                        if t.contains(x) {
                            let m = choose|m: int| 0 <= m < t.len() && t[m] == x;
                            assert(scopes@.take(i as int)[m] == x);
                            assert(before.contains(x));
                            let k = choose|k: int| 0 <= k < before.len() && before[k] == x;
                            assert(allowed@[k] == x);
                        }
                    }
                }
            }
            i = i + 1;
        }
        proof {
            assert(scopes@.take(scopes@.len() as int) =~= scopes@);
            assert(allowed@.to_set() =~= scopes@.to_set());
        }
        Authorizer { allowed, deny_all: false }
    }

    /// An authorizer that refuses every scope.
    pub fn deny_all() -> (a: Self)
        ensures
            a.granted() == Set::<ToolScope>::empty(),
            a.denies_all(),
    {
        let a = Authorizer { allowed: Vec::new(), deny_all: true };
        proof {
            assert(a.allowed@.to_set() =~= Set::<ToolScope>::empty());
        }
        a
    }

    /// An authorizer that grants the read, write and compose scopes.
    pub fn all() -> (a: Self)
        ensures
            a.granted() == set![ToolScope::Read, ToolScope::Write, ToolScope::Compose],
            !a.denies_all(),
    {
        let scopes = [ToolScope::Read, ToolScope::Write, ToolScope::Compose];
        let a = Self::from_scopes(&scopes);
        proof {
            assert(scopes@ =~= seq![ToolScope::Read, ToolScope::Write, ToolScope::Compose]);
            assert(scopes@.to_set() =~= set![ToolScope::Read, ToolScope::Write, ToolScope::Compose])
                by {
                assert(scopes@[0] == ToolScope::Read);
                assert(scopes@[1] == ToolScope::Write);
                assert(scopes@[2] == ToolScope::Compose);
            }
        }
        a
    }

    /// Lets a tool of the given scope through, or refuses it with an
    /// authorization error that names the missing scope.
    pub fn authorize(&self, scope: ToolScope) -> (r: Result<(), DockerMcpError>)
        ensures
            r is Ok <==> self.permits(scope),
            r matches Err(e) ==> e is Authorization && e.detail() == missing_scope_message(scope),
    {
        let present = contains_scope(&self.allowed, scope);
        if self.deny_all || !present {
            let mut msg = String::from_str("missing required scope ");
            msg.append(scope.as_str());
            return Err(DockerMcpError::Authorization(msg));
        }
        Ok(())
    }
}

/// Characters that `str::trim` removes (Unicode `White_Space`).
pub open spec fn is_whitespace(c: char) -> bool {
    ||| c == ' '
    ||| ('\u{9}' <= c && c <= '\u{d}')
    ||| c == '\u{85}'
    ||| c == '\u{a0}'
    ||| c == '\u{1680}'
    ||| ('\u{2000}' <= c && c <= '\u{200a}')
    ||| c == '\u{2028}'
    ||| c == '\u{2029}'
    ||| c == '\u{202f}'
    ||| c == '\u{205f}'
    ||| c == '\u{3000}'
}

/// `s` without its leading whitespace.
pub open spec fn trim_start(s: Seq<char>) -> Seq<char>
    decreases s.len(),
{
    if s.len() > 0 && is_whitespace(s[0]) {
        trim_start(s.drop_first())
    } else {
        s
    }
}

/// `s` without its trailing whitespace.
pub open spec fn trim_end(s: Seq<char>) -> Seq<char>
    decreases s.len(),
{
    if s.len() > 0 && is_whitespace(s.last()) {
        trim_end(s.drop_last())
    } else {
        s
    }
}

/// `s` without leading and trailing whitespace (`str::trim`).
pub open spec fn trim(s: Seq<char>) -> Seq<char> {
    trim_end(trim_start(s))
}

/// The pieces of `s` between occurrences of `sep` (`str::split` with a
/// character): one more piece than there are separators.
pub open spec fn split_on(s: Seq<char>, sep: char) -> Seq<Seq<char>>
    decreases s.len(),
{
    if s.len() == 0 {
        seq![Seq::<char>::empty()]
    } else {
        let p = split_on(s.drop_last(), sep);
        if s.last() == sep {
            p.push(Seq::<char>::empty())
        } else {
            p.update(p.len() - 1, p.last().push(s.last()))
        }
    }
}

/// The scope that a trimmed piece names, if any.
pub open spec fn scope_named(t: Seq<char>) -> Option<ToolScope> {
    if t == scope_name(ToolScope::Read) {
        Some(ToolScope::Read)
    } else if t == scope_name(ToolScope::Write) {
        Some(ToolScope::Write)
    } else if t == scope_name(ToolScope::Compose) {
        Some(ToolScope::Compose)
    } else {
        None
    }
}

/// The scopes named by the pieces, in order, skipping the others.
pub open spec fn scopes_of(pieces: Seq<Seq<char>>) -> Seq<ToolScope>
    decreases pieces.len(),
{
    if pieces.len() == 0 {
        seq![]
    } else {
        let r = scopes_of(pieces.drop_last());
        match scope_named(trim(pieces.last())) {
            Some(s) => r.push(s),
            None => r,
        }
    }
}

/// What `parse_scopes` returns for `raw`.
pub open spec fn parsed_scopes(raw: Seq<char>) -> Seq<ToolScope> {
    scopes_of(split_on(raw, ','))
}

pub proof fn lemma_split_nonempty(s: Seq<char>, sep: char)
    ensures
        split_on(s, sep).len() >= 1,
    decreases s.len(),
{
    if s.len() > 0 {
        lemma_split_nonempty(s.drop_last(), sep);
    }
}

pub proof fn lemma_trim_start_at(s: Seq<char>, k: int)
    requires
        0 <= k <= s.len(),
        forall|i: int| 0 <= i < k ==> is_whitespace(#[trigger] s[i]),
        k == s.len() || !is_whitespace(s[k]),
    ensures
        trim_start(s) == s.subrange(k, s.len() as int),
    decreases k,
{
    if k == 0 {
        assert(s.subrange(0, s.len() as int) =~= s);
    } else {
        let t = s.drop_first();
        assert forall|i: int| 0 <= i < k - 1 implies is_whitespace(#[trigger] t[i]) by {
            assert(t[i] == s[i + 1]);
        }
        lemma_trim_start_at(t, k - 1);
        assert(t.subrange(k - 1, t.len() as int) =~= s.subrange(k, s.len() as int));
    }
}

pub proof fn lemma_trim_end_at(s: Seq<char>, k: int)
    requires
        0 <= k <= s.len(),
        forall|i: int| k <= i < s.len() ==> is_whitespace(#[trigger] s[i]),
        k == 0 || !is_whitespace(s[k - 1]),
    ensures
        trim_end(s) == s.subrange(0, k),
    decreases s.len() - k,
{
    if k == s.len() {
        assert(s.subrange(0, k) =~= s);
    } else {
        let t = s.drop_last();
        assert forall|i: int| k <= i < t.len() implies is_whitespace(#[trigger] t[i]) by {
            assert(t[i] == s[i]);
        }
        lemma_trim_end_at(t, k);
        assert(t.subrange(0, k) =~= s.subrange(0, k));
    }
}

/// Whether `c` is Unicode whitespace.
fn char_is_whitespace(c: char) -> (b: bool)
    ensures
        b == is_whitespace(c),
{
    c == ' ' || ('\u{9}' <= c && c <= '\u{d}') || c == '\u{85}' || c == '\u{a0}' || c == '\u{1680}'
        || ('\u{2000}' <= c && c <= '\u{200a}') || c == '\u{2028}' || c == '\u{2029}' || c
        == '\u{202f}' || c == '\u{205f}' || c == '\u{3000}'
}

/// Whether `v` holds exactly the characters of `lit`.
fn chars_equal(v: &Vec<char>, lit: &Vec<char>) -> (b: bool)
    ensures
        b == (v@ == lit@),
{
    if v.len() != lit.len() {
        return false;
    }
    let mut i: usize = 0;
    while i < v.len()
        invariant
            i <= v@.len(),
            v@.len() == lit@.len(),
            forall|k: int| 0 <= k < i ==> v@[k] == lit@[k],
        decreases v@.len() - i,
    {
        if v[i] != lit[i] {
            return false;
        }
        i = i + 1;
    }
    assert(v@ =~= lit@);
    true
}

/// The trimmed piece, and the scope that it names.
fn scope_of_piece(piece: &Vec<char>) -> (r: Option<ToolScope>)
    ensures
        r == scope_named(trim(piece@)),
{
    let n = piece.len();
    let mut a: usize = 0;
    while a < n && char_is_whitespace(piece[a])
        invariant
            a <= n,
            n == piece@.len(),
            forall|i: int| 0 <= i < a ==> is_whitespace(#[trigger] piece@[i]),
        decreases n - a,
    {
        a = a + 1;
    }
    let mut b: usize = n;
    while b > a && char_is_whitespace(piece[b - 1])
        invariant
            a <= b <= n,
            n == piece@.len(),
            forall|i: int| b <= i < n ==> is_whitespace(#[trigger] piece@[i]),
        decreases b,
    {
        b = b - 1;
    }
    let mut t: Vec<char> = Vec::new();
    let mut k: usize = a;
    while k < b
        invariant
            a <= k <= b <= n,
            n == piece@.len(),
            t@ == piece@.subrange(a as int, k as int),
        decreases b - k,
    {
        t.push(piece[k]);
        proof {
            assert(piece@.subrange(a as int, k + 1) =~= piece@.subrange(a as int, k as int).push(
                piece@[k as int],
            ));
        }
        k = k + 1;
    }
    proof {
        lemma_trim_start_at(piece@, a as int);
        let s = piece@.subrange(a as int, n as int);
        assert forall|i: int| b - a <= i < s.len() implies is_whitespace(#[trigger] s[i]) by {
            assert(s[i] == piece@[a + i]);
        }
        if b > a {
            assert(s[b - a - 1] == piece@[b - 1]);
        }
        lemma_trim_end_at(s, b - a);
        assert(s.subrange(0, b - a) =~= piece@.subrange(a as int, b as int));
    }
    let read = chars_of("docker:read");
    let write = chars_of("docker:write");
    let compose = chars_of("docker:compose");
    if chars_equal(&t, &read) {
        Some(ToolScope::Read)
    } else if chars_equal(&t, &write) {
        Some(ToolScope::Write)
    } else if chars_equal(&t, &compose) {
        Some(ToolScope::Compose)
    } else {
        None
    }
}

/// Parses a comma separated list of scope names; pieces are trimmed and
/// unknown names are skipped.
pub fn parse_scopes(raw: &str) -> (r: Vec<ToolScope>)
    ensures
        r@ == parsed_scopes(raw@),
{
    let cs = chars_of(raw);
    let mut out: Vec<ToolScope> = Vec::new();
    let mut cur: Vec<char> = Vec::new();
    let mut i: usize = 0;
    proof {
        assert(cs@.take(0) =~= Seq::<char>::empty());
    }
    while i < cs.len()
        invariant
            i <= cs@.len(),
            cs@ == raw@,
            split_on(cs@.take(i as int), ',').len() >= 1,
            cur@ == split_on(cs@.take(i as int), ',').last(),
            out@ == scopes_of(split_on(cs@.take(i as int), ',').drop_last()),
        decreases cs@.len() - i,
    {
        let c = cs[i];
        let ghost p = split_on(cs@.take(i as int), ',');
        proof {
            let t = cs@.take(i + 1);
            assert(t.drop_last() =~= cs@.take(i as int));
            assert(t.last() == c);
        }
        if c == ',' {
            let s = scope_of_piece(&cur);
            if let Some(sc) = s {
                out.push(sc);
            }
            cur = Vec::new();
            proof {
                let q = split_on(cs@.take(i + 1), ',');
                assert(q == p.push(Seq::<char>::empty()));
                assert(q.drop_last() =~= p);
                assert(q.last() =~= Seq::<char>::empty());
                assert(p.drop_last().push(p.last()) =~= p);
                assert(scopes_of(p) == (match scope_named(trim(p.last())) {
                    Some(s) => scopes_of(p.drop_last()).push(s),
                    None => scopes_of(p.drop_last()),
                }));
            }
        } else {
            cur.push(c);
            proof {
                let q = split_on(cs@.take(i + 1), ',');
                assert(q == p.update(p.len() - 1, p.last().push(c)));
                assert(q.drop_last() =~= p.drop_last());
            }
        }
        i = i + 1;
    }
    let ghost p = split_on(cs@.take(i as int), ',');
    let s = scope_of_piece(&cur);
    if let Some(sc) = s {
        out.push(sc);
    }
    proof {
        assert(cs@.take(cs@.len() as int) =~= cs@);
        assert(p.drop_last().push(p.last()) =~= p);
    }
    out
}

} // verus!
