//! AT Protocol OAuth scope grammar.
//!
//! Scopes follow the format:
//!   `atproto`                 — the base ATProto access scope
//!   `transition:generic`      — legacy transition scope
//!   `transition:chat.bsky`    — legacy Bluesky chat transition scope
//!
//! Granular per-NSID scopes are represented as `com.atproto.repo.createRecord`.
//!
//! A `ScopeSet` is an ordered, deduplicated set of scopes that can be
//! serialized to and from the space-separated OAuth scope string format.

pub mod known;

use vstd::prelude::*;
use crate::text::{
    lemma_seq_lt_irreflexive, lemma_seq_lt_total, lemma_seq_lt_transitive, chars_eq, chars_lt, chars_of, contains_whitespace, debug_quoted, debug_str, has_prefix, has_ws, is_whitespace, is_ws, push_char,
    seq_lt, str_eq, str_starts_with, string_from_chars, to_string,
};

verus! {

broadcast use vstd::string::group_string_axioms;

/// Errors from parsing a scope token.
#[derive(Debug)]
pub enum ScopeError {
    /// The token was empty.
    Empty,
    /// The token held white space; carries the token.
    ContainsWhitespace(String),
    /// The token was otherwise invalid; carries the token.
    Invalid(String),
}

impl ScopeError {
    /// The error's message, as the error type displays it.
    pub fn message(&self) -> (r: String)
        ensures
            r@ == match self {
                ScopeError::Empty => "scope token must not be empty"@,
                ScopeError::ContainsWhitespace(t) => "scope token must not contain whitespace: "@
                    + debug_quoted(t@),
                ScopeError::Invalid(t) => "invalid scope: "@ + t@,
            },
    {
        match self {
            ScopeError::Empty => to_string("scope token must not be empty"),
            ScopeError::ContainsWhitespace(s) => {
                let mut m = to_string("scope token must not contain whitespace: ");
                let quoted = debug_str(s.as_str());
                m.append(quoted.as_str());
                m
            },
            ScopeError::Invalid(s) => {
                let mut m = to_string("invalid scope: ");
                m.append(s.as_str());
                m
            },
        }
    }
}

/// A well-formed scope token: non-empty and free of white space (RFC 6749 §3.3).
pub open spec fn valid_scope(s: Seq<char>) -> bool {
    s.len() > 0 && !has_ws(s)
}

/// A single OAuth scope token.
#[derive(Debug)]
pub struct OAuthScope(String);

impl View for OAuthScope {
    type V = Seq<char>;

    closed spec fn view(&self) -> Seq<char> {
        self.0@
    }
}

impl OAuthScope {
    #[verifier::type_invariant]
    spec fn well_formed(self) -> bool {
        valid_scope(self.0@)
    }

    /// The scope token.
    pub fn as_str(&self) -> (r: &str)
        ensures
            r@ == self@,
            valid_scope(r@),
    {
        proof {
            use_type_invariant(self);
        }
        self.0.as_str()
    }

    /// Returns `true` if this scope is the base AT Protocol scope.
    pub fn is_atproto(&self) -> (r: bool)
        ensures
            r == (self@ == "atproto"@),
    {
        str_eq(self.0.as_str(), "atproto")
    }

    /// Returns `true` if this scope is a transition scope.
    pub fn is_transition(&self) -> (r: bool)
        ensures
            r == has_prefix(self@, "transition:"@),
    {
        str_starts_with(self.0.as_str(), "transition:")
    }

    /// Parses a single scope token.
    pub fn from_str(s: &str) -> (r: Result<OAuthScope, ScopeError>)
        ensures
            r matches Ok(sc) ==> sc@ == s@,
            r is Ok <==> valid_scope(s@),
            r matches Err(ScopeError::Empty) <==> s@.len() == 0,
            r matches Err(ScopeError::ContainsWhitespace(t)) <==> s@.len() > 0 && has_ws(s@),
            r matches Err(ScopeError::ContainsWhitespace(t)) ==> t@ == s@,
            !(r matches Err(ScopeError::Invalid(_))),
    {
        let cs = chars_of(s);
        if cs.len() == 0 {
            return Err(ScopeError::Empty);
        }
        if contains_whitespace(&cs) {
            return Err(ScopeError::ContainsWhitespace(to_string(s)));
        }
        Ok(OAuthScope(to_string(s)))
    }

    /// A scope from characters already known to form a valid token.
    fn from_chars(cs: &[char]) -> (r: OAuthScope)
        requires
            valid_scope(cs@),
        ensures
            r@ == cs@,
    {
        OAuthScope(string_from_chars(cs))
    }
}


/// The white-space separated tokens of `s`, in order (`str::split_whitespace`).
pub open spec fn split_ws(s: Seq<char>) -> Seq<Seq<char>>
    decreases s.len(),
{
    if s.len() == 0 {
        seq![]
    } else {
        let rest = split_ws(s.drop_last());
        let c = s.last();
        if is_ws(c) {
            rest
        } else if s.len() >= 2 && !is_ws(s[s.len() - 2]) {
            rest.drop_last().push(rest.last().push(c))
        } else {
            rest.push(seq![c])
        }
    }
}

/// The tokens joined with single spaces.
pub open spec fn join_space(v: Seq<Seq<char>>) -> Seq<char>
    decreases v.len(),
{
    if v.len() == 0 {
        seq![]
    } else if v.len() == 1 {
        v[0]
    } else {
        join_space(v.drop_last()) + seq![' '] + v.last()
    }
}

/// Strictly increasing in code point order, hence free of duplicates.
pub open spec fn sorted_distinct(v: Seq<Seq<char>>) -> bool {
    forall|i: int, j: int| 0 <= i < j < v.len() ==> seq_lt(#[trigger] v[i], #[trigger] v[j])
}

/// What a `ScopeSet` holds: valid tokens in strictly increasing order.
pub open spec fn scopes_ok(v: Seq<Seq<char>>) -> bool {
    &&& sorted_distinct(v)
    &&& forall|i: int| 0 <= i < v.len() ==> valid_scope(#[trigger] v[i])
}

/// Every token of `split_ws(s)` is a valid scope.
pub proof fn lemma_split_ws_tokens(s: Seq<char>)
    ensures
        forall|i: int| 0 <= i < split_ws(s).len() ==> valid_scope(#[trigger] split_ws(s)[i]),
        s.len() > 0 && !is_ws(s.last()) ==> split_ws(s).len() > 0,
    decreases s.len(),
{
    if s.len() > 0 {
        let p = s.drop_last();
        lemma_split_ws_tokens(p);
        let rest = split_ws(p);
        let c = s.last();
        if !is_ws(c) {
            if s.len() >= 2 && !is_ws(s[s.len() - 2]) {
                assert(p.last() == s[s.len() - 2]);
                let t = rest.last().push(c);
                assert(valid_scope(rest.last()));
                assert forall|k: int| 0 <= k < t.len() implies !is_ws(#[trigger] t[k]) by {
                    if k < t.len() - 1 {
                        assert(t[k] == rest.last()[k]);
                    }
                }
                assert forall|i: int| 0 <= i < split_ws(s).len() implies valid_scope(
                    #[trigger] split_ws(s)[i],
                ) by {
                    if i < rest.len() - 1 {
                        assert(split_ws(s)[i] == rest[i]);
                    }
                }
            } else {
                assert forall|i: int| 0 <= i < split_ws(s).len() implies valid_scope(
                    #[trigger] split_ws(s)[i],
                ) by {
                    if i < rest.len() {
                        assert(split_ws(s)[i] == rest[i]);
                    } else {
                        let t = seq![c];
                        assert(!has_ws(t)) by {
                            assert forall|k: int| 0 <= k < t.len() implies !is_ws(
                                #[trigger] t[k],
                            ) by {}
                        }
                    }
                }
            }
        }
    }
}

/// A trailing space adds no token.
proof fn lemma_split_ws_space(a: Seq<char>)
    ensures
        split_ws(a + seq![' ']) == split_ws(a),
{
    let s = a + seq![' '];
    assert(s.drop_last() =~= a);
    assert(s.last() == ' ');
}

/// A token written after white space (or at the start) is one more token.
proof fn lemma_split_ws_append(a: Seq<char>, t: Seq<char>)
    requires
        a.len() == 0 || is_ws(a.last()),
        valid_scope(t),
    ensures
        split_ws(a + t) == split_ws(a).push(t),
    decreases t.len(),
{
    let s = a + t;
    let c = t.last();
    assert(!is_ws(c)) by {
        assert(!is_ws(t[t.len() - 1]));
    }
    assert(s.drop_last() =~= a + t.drop_last());
    assert(s.last() == c);
    if t.len() == 1 {
        assert(s.drop_last() =~= a);
        if s.len() >= 2 {
            assert(s[s.len() - 2] == a.last());
        }
        assert(t =~= seq![c]);
    } else {
        let tp = t.drop_last();
        assert(valid_scope(tp)) by {
            assert forall|k: int| 0 <= k < tp.len() implies !is_ws(#[trigger] tp[k]) by {
                assert(tp[k] == t[k]);
            }
        }
        lemma_split_ws_append(a, tp);
        assert(s[s.len() - 2] == t[t.len() - 2]);
        assert(!is_ws(t[t.len() - 2]));
        assert(tp.push(c) =~= t);
        assert(split_ws(a).push(tp).drop_last() =~= split_ws(a));
    }
}

/// Splitting the joined string gives back the tokens.
pub proof fn lemma_split_join(v: Seq<Seq<char>>)
    requires
        forall|i: int| 0 <= i < v.len() ==> valid_scope(#[trigger] v[i]),
    ensures
        split_ws(join_space(v)) == v,
    decreases v.len(),
{
    if v.len() == 0 {
    } else if v.len() == 1 {
        assert(valid_scope(v[0]));
        lemma_split_ws_append(seq![], v[0]);
        assert(Seq::<char>::empty() + v[0] =~= v[0]);
        assert(Seq::<Seq<char>>::empty().push(v[0]) =~= v);
    } else {
        let p = v.drop_last();
        assert forall|i: int| 0 <= i < p.len() implies valid_scope(#[trigger] p[i]) by {
            assert(p[i] == v[i]);
        }
        lemma_split_join(p);
        let a = join_space(p) + seq![' '];
        lemma_split_ws_space(join_space(p));
        assert(valid_scope(v.last())) by {
            assert(valid_scope(v[v.len() - 1]));
        }
        lemma_split_ws_append(a, v.last());
        assert(a.last() == ' ');
        assert(p.push(v.last()) =~= v);
    }
}

/// A sorted, duplicate-free sequence is fixed by its set of elements.
pub proof fn lemma_sorted_unique(v: Seq<Seq<char>>, w: Seq<Seq<char>>)
    requires
        sorted_distinct(v),
        sorted_distinct(w),
        v.to_set() == w.to_set(),
    ensures
        v == w,
    decreases v.len(),
{
    if v.len() == 0 {
        if w.len() > 0 {
            assert(w.to_set().contains(w[0]));
        }
        assert(v =~= w);
    } else {
        assert(v.to_set().contains(v[0]));
        assert(w.len() > 0);
        assert(w.to_set().contains(w[0]));
        // the least elements agree
        assert(v[0] == w[0]) by {
            let i = choose|i: int| 0 <= i < w.len() && w[i] == v[0];
            let j = choose|j: int| 0 <= j < v.len() && v[j] == w[0];
            if v[0] != w[0] {
                assert(i > 0);
                assert(j > 0);
                assert(seq_lt(w[0], w[i]));
                assert(seq_lt(v[0], v[j]));
                lemma_seq_lt_total(v[0], w[0]);
            }
        }
        let v1 = v.drop_first();
        let w1 = w.drop_first();
        assert(sorted_distinct(v1)) by {
            assert forall|i: int, j: int| 0 <= i < j < v1.len() implies seq_lt(
                #[trigger] v1[i],
                #[trigger] v1[j],
            ) by {
                assert(v1[i] == v[i + 1] && v1[j] == v[j + 1]);
            }
        }
        assert(sorted_distinct(w1)) by {
            assert forall|i: int, j: int| 0 <= i < j < w1.len() implies seq_lt(
                #[trigger] w1[i],
                #[trigger] w1[j],
            ) by {
                assert(w1[i] == w[i + 1] && w1[j] == w[j + 1]);
            }
        }
        assert(v1.to_set() =~= w1.to_set()) by {
            assert forall|x: Seq<char>| v1.to_set().contains(x) implies w1.to_set().contains(
                x,
            ) by {
                let i = choose|i: int| 0 <= i < v1.len() && v1[i] == x;
                assert(v[i + 1] == x);
                assert(seq_lt(v[0], v[i + 1]));
                lemma_seq_lt_irreflexive(x);
                assert(w.to_set().contains(x));
                let k = choose|k: int| 0 <= k < w.len() && w[k] == x;
                assert(k != 0);
                assert(w1[k - 1] == x);
            }
            assert forall|x: Seq<char>| w1.to_set().contains(x) implies v1.to_set().contains(
                x,
            ) by {
                let i = choose|i: int| 0 <= i < w1.len() && w1[i] == x;
                assert(w[i + 1] == x);
                assert(seq_lt(w[0], w[i + 1]));
                lemma_seq_lt_irreflexive(x);
                assert(v.to_set().contains(x));
                let k = choose|k: int| 0 <= k < v.len() && v[k] == x;
                assert(k != 0);
                assert(v1[k - 1] == x);
            }
        }
        lemma_sorted_unique(v1, w1);
        assert(v =~= seq![v[0]] + v1);
        assert(w =~= seq![w[0]] + w1);
    }
}


/// The tokens of a list of scopes.
pub open spec fn tokens_of(v: Seq<OAuthScope>) -> Seq<Seq<char>> {
    v.map_values(|sc: OAuthScope| sc@)
}

/// A deduplicated, ordered set of OAuth scopes.
#[derive(Debug)]
pub struct ScopeSet(Vec<OAuthScope>);

impl View for ScopeSet {
    type V = Seq<Seq<char>>;

    /// The tokens, in increasing code point order.
    closed spec fn view(&self) -> Seq<Seq<char>> {
        tokens_of(self.0@)
    }
}

impl ScopeSet {
    #[verifier::type_invariant]
    spec fn well_formed(self) -> bool {
        scopes_ok(tokens_of(self.0@))
    }

    /// An empty set.
    pub fn new() -> (r: ScopeSet)
        ensures
            r@ == Seq::<Seq<char>>::empty(),
    {
        let r = ScopeSet(Vec::new());
        proof {
            assert(tokens_of(r.0@) =~= Seq::<Seq<char>>::empty());
        }
        r
    }

    /// Position of the first token not below `t` in `v`.
    fn lower_bound(v: &Vec<OAuthScope>, t: &[char]) -> (r: usize)
        requires
            scopes_ok(tokens_of(v@)),
        ensures
            r <= v@.len(),
            forall|j: int| 0 <= j < r ==> seq_lt(#[trigger] tokens_of(v@)[j], t@),
            forall|j: int| r <= j < v@.len() ==> !seq_lt(#[trigger] tokens_of(v@)[j], t@),
    {
        let ghost tv = tokens_of(v@);
        let mut i: usize = 0;
        while i < v.len()
            invariant
                i <= v@.len(),
                tv == tokens_of(v@),
                scopes_ok(tv),
                forall|j: int| 0 <= j < i ==> seq_lt(#[trigger] tv[j], t@),
            decreases v@.len() - i,
        {
            let cs = chars_of(v[i].as_str());
            assert(cs@ == tv[i as int]);
            if !chars_lt(&cs, t) {
                proof {
                    assert forall|j: int| i <= j < v@.len() implies !seq_lt(
                        #[trigger] tv[j],
                        t@,
                    ) by {
                        if j > i && seq_lt(tv[j], t@) {
                            assert(seq_lt(tv[i as int], tv[j]));
                            lemma_seq_lt_transitive(tv[i as int], tv[j], t@);
                        }
                    }
                }
                return i;
            }
            i = i + 1;
        }
        i
    }

    /// Adds `scope`; returns `true` when it was not there before.
    pub fn insert(&mut self, scope: OAuthScope) -> (r: bool)
        ensures
            r == !old(self)@.contains(scope@),
            final(self)@.to_set() == old(self)@.to_set().insert(scope@),
            scopes_ok(final(self)@),
            final(self)@.len() == old(self)@.len() + (if r { 1int } else { 0int }),
    {
        proof {
            use_type_invariant(&*self);
            use_type_invariant(&scope);
        }
        let mut v: Vec<OAuthScope> = Vec::new();
        std::mem::swap(&mut v, &mut self.0);
        let ghost old_v = v@;
        let ghost tv = tokens_of(v@);
        let t = chars_of(scope.as_str());
        let pos = Self::lower_bound(&v, &t);
        let found = if pos < v.len() {
            let cs = chars_of(v[pos].as_str());
            chars_eq(&cs, &t)
        } else {
            false
        };
        if found {
            proof {
                assert(tv.contains(scope@)) by {
                    assert(tv[pos as int] == scope@);
                }
            }
            std::mem::swap(&mut v, &mut self.0);
            return false;
        }
        proof {
            assert(!tv.contains(scope@)) by {
                if tv.contains(scope@) {
                    let k = choose|k: int| 0 <= k < tv.len() && tv[k] == scope@;
                    lemma_seq_lt_irreflexive(scope@);
                    if k > pos {
                        assert(!seq_lt(tv[pos as int], scope@));
                        assert(seq_lt(tv[pos as int], tv[k]));
                        lemma_seq_lt_total(tv[pos as int], scope@);
                    }
                }
            }
        }
        v.insert(pos, scope);
        let ghost nv = tokens_of(v@);
        proof {
            assert(nv =~= tv.insert(pos as int, t@));
            assert forall|i: int, j: int| 0 <= i < j < nv.len() implies seq_lt(
                #[trigger] nv[i],
                #[trigger] nv[j],
            ) by {
                if j < pos {
                } else if i > pos {
                    assert(nv[i] == tv[i - 1] && nv[j] == tv[j - 1]);
                } else if i == pos {
                    assert(nv[j] == tv[j - 1]);
                    assert(!seq_lt(tv[j - 1], t@));
                    lemma_seq_lt_total(tv[j - 1], t@);
                    if tv[j - 1] == t@ {
                        assert(tv.contains(scope@));
                    }
                } else if j == pos {
                } else {
                    assert(i < pos < j);
                    assert(nv[j] == tv[j - 1]);
                    assert(seq_lt(tv[i], t@));
                    assert(!seq_lt(tv[j - 1], t@));
                    lemma_seq_lt_total(tv[j - 1], t@);
                    if tv[j - 1] == t@ {
                        assert(tv.contains(scope@));
                    } else {
                        lemma_seq_lt_transitive(tv[i], t@, tv[j - 1]);
                    }
                }
            }
            assert forall|i: int| 0 <= i < nv.len() implies valid_scope(#[trigger] nv[i]) by {
                if i < pos {
                } else if i > pos {
                    assert(nv[i] == tv[i - 1]);
                }
            }
            assert(nv.to_set() =~= tv.to_set().insert(scope@)) by {
                assert forall|x: Seq<char>| nv.to_set().contains(x) implies tv.to_set().insert(
                    scope@,
                ).contains(x) by {
                    let k = choose|k: int| 0 <= k < nv.len() && nv[k] == x;
                    if k < pos {
                        assert(tv[k] == x);
                    } else if k > pos {
                        assert(tv[k - 1] == x);
                    }
                }
                assert forall|x: Seq<char>| tv.to_set().insert(scope@).contains(x) implies nv.to_set().contains(x) by {
                    if x == scope@ {
                        assert(nv[pos as int] == x);
                    } else {
                        let k = choose|k: int| 0 <= k < tv.len() && tv[k] == x;
                        if k < pos {
                            assert(nv[k] == x);
                        } else {
                            assert(nv[k + 1] == x);
                        }
                    }
                }
            }
        }
        std::mem::swap(&mut v, &mut self.0);
        true
    }
}


impl ScopeSet {
    /// Whether `scope` is in the set.
    pub fn contains(&self, scope: &OAuthScope) -> (r: bool)
        ensures
            r == self@.contains(scope@),
    {
        self.contains_str(scope.as_str())
    }

    /// Whether a scope with token `s` is in the set.
    pub fn contains_str(&self, s: &str) -> (r: bool)
        ensures
            r == self@.contains(s@),
    {
        let ghost tv = self@;
        let mut i: usize = 0;
        while i < self.0.len()
            invariant
                i <= self.0@.len(),
                tv == tokens_of(self.0@),
                forall|j: int| 0 <= j < i ==> tv[j] != s@,
            decreases self.0@.len() - i,
        {
            if str_eq(self.0[i].as_str(), s) {
                proof {
                    assert(tv[i as int] == s@);
                }
                return true;
            }
            i = i + 1;
        }
        false
    }

    /// Whether the set is empty.
    pub fn is_empty(&self) -> (r: bool)
        ensures
            r == (self@.len() == 0),
    {
        self.0.len() == 0
    }

    /// The number of scopes in the set.
    pub fn len(&self) -> (r: usize)
        ensures
            r == self@.len(),
            scopes_ok(self@),
    {
        proof {
            use_type_invariant(self);
        }
        self.0.len()
    }

    /// The scopes, in increasing order.
    pub fn iter(&self) -> (r: &[OAuthScope])
        ensures
            tokens_of(r@) == self@,
    {
        self.0.as_slice()
    }

    /// Parses a space-separated OAuth scope string.
    pub fn parse(s: &str) -> (r: Result<ScopeSet, ScopeError>)
        ensures
            r is Ok,
            r matches Ok(set) ==> set@.to_set() == split_ws(s@).to_set(),
            r matches Ok(set) ==> scopes_ok(set@),
    {
        let cs = chars_of(s);
        let mut set = ScopeSet::new();
        let mut tok: Vec<char> = Vec::new();
        let mut i: usize = 0;
        proof {
            assert(set@.to_set() =~= Set::<Seq<char>>::empty());
            assert(split_ws(cs@.take(0)) =~= Seq::<Seq<char>>::empty());
        }
        while i < cs.len()
            invariant
                i <= cs@.len(),
                cs@ == s@,
                scopes_ok(set@),
                // the tokens finished so far are in the set; `tok` is the one in progress
                tok@.len() == 0 ==> set@.to_set() == split_ws(cs@.take(i as int)).to_set(),
                tok@.len() == 0 ==> (i == 0 || is_ws(cs@[i - 1])),
                tok@.len() > 0 ==> {
                    let w = split_ws(cs@.take(i as int));
                    &&& w.len() > 0
                    &&& w.last() == tok@
                    &&& set@.to_set() == w.drop_last().to_set()
                    &&& valid_scope(tok@)
                    &&& !is_ws(cs@[i - 1])
                },
            decreases cs@.len() - i,
        {
            let c = cs[i];
            let ghost pre = cs@.take(i as int);
            proof {
                assert(cs@.take(i + 1).drop_last() =~= pre);
                assert(cs@.take(i + 1).last() == c);
            }
            if is_whitespace(c) {
                if tok.len() > 0 {
                    let sc = OAuthScope::from_chars(&tok);
                    set.insert(sc);
                    proof {
                        let w = split_ws(pre);
                        assert(w =~= w.drop_last().push(tok@));
                        assert(w.to_set() =~= w.drop_last().to_set().insert(tok@)) by {
                            w.drop_last().lemma_push_to_set_commute(tok@);
                        }
                    }
                    tok = Vec::new();
                }
            } else {
                proof {
                    let w = split_ws(pre);
                    if tok@.len() > 0 {
                        assert(cs@.take(i + 1)[i - 1] == cs@[i - 1]);
                        assert(tok@.push(c) =~= w.last().push(c));
                        let s1 = cs@.take(i + 1);
                        assert(s1[s1.len() - 2] == cs@[i - 1]);
                        assert(split_ws(s1) == w.drop_last().push(w.last().push(c)));
                        assert(split_ws(s1).drop_last() =~= w.drop_last());
                        assert(valid_scope(tok@.push(c))) by {
                            let t2 = tok@.push(c);
                            assert forall|k: int| 0 <= k < t2.len() implies !is_ws(#[trigger] t2[k]) by {
                                if k < tok@.len() {
                                    assert(t2[k] == tok@[k]);
                                }
                            }
                        }
                    } else {
                        if i > 0 {
                            assert(cs@.take(i + 1)[i - 1] == cs@[i - 1]);
                        }
                        assert(valid_scope(seq![c])) by {
                            let t2 = seq![c];
                            assert forall|k: int| 0 <= k < t2.len() implies !is_ws(#[trigger] t2[k]) by {}
                        }
                        assert(w.push(seq![c]).drop_last() =~= w);
                        let s1 = cs@.take(i + 1);
                        if i > 0 {
                            assert(s1[s1.len() - 2] == cs@[i - 1]);
                        }
                        assert(split_ws(s1) == w.push(seq![c]));
                        assert(tok@.push(c) =~= seq![c]);
                    }
                }
                tok.push(c);
            }
            i = i + 1;
        }
        proof {
            assert(cs@.take(cs@.len() as int) =~= cs@);
        }
        if tok.len() > 0 {
            let sc = OAuthScope::from_chars(&tok);
            set.insert(sc);
            proof {
                let w = split_ws(cs@);
                assert(w =~= w.drop_last().push(tok@));
                w.drop_last().lemma_push_to_set_commute(tok@);
            }
        }
        Ok(set)
    }
}


impl ScopeSet {
    /// Serializes to a space-separated OAuth scope string.
    pub fn to_scope_string(&self) -> (r: String)
        ensures
            r@ == join_space(self@),
    {
        let ghost tv = self@;
        let mut out = String::new();
        let mut i: usize = 0;
        proof {
            assert(tv.take(0) =~= Seq::<Seq<char>>::empty());
        }
        while i < self.0.len()
            invariant
                i <= self.0@.len(),
                tv == tokens_of(self.0@),
                out@ == join_space(tv.take(i as int)),
            decreases self.0@.len() - i,
        {
            proof {
                assert(tv.take(i + 1).drop_last() =~= tv.take(i as int));
                assert(tv.take(i + 1).last() == tv[i as int]);
            }
            if i > 0 {
                proof {
                    reveal_strlit(" ");
                }
                out.append(" ");
                assert(out@ == join_space(tv.take(i as int)) + seq![' ']);
            } else {
                proof {
                    assert(tv.take(1)[0] == tv[0]);
                    assert(out@ =~= Seq::<char>::empty());
                }
            }
            out.append(self.0[i].as_str());
            i = i + 1;
        }
        proof {
            assert(tv.take(tv.len() as int) =~= tv);
        }
        out
    }

    /// Whether every scope of `self` is also in `other`.
    pub fn is_subset_of(&self, other: &ScopeSet) -> (r: bool)
        ensures
            r == self@.to_set().subset_of(other@.to_set()),
            scopes_ok(self@),
            scopes_ok(other@),
    {
        proof {
            use_type_invariant(self);
            use_type_invariant(other);
        }
        let ghost tv = self@;
        let mut i: usize = 0;
        while i < self.0.len()
            invariant
                i <= self.0@.len(),
                tv == tokens_of(self.0@),
                forall|j: int| 0 <= j < i ==> other@.contains(#[trigger] tv[j]),
                scopes_ok(self@),
                scopes_ok(other@),
            decreases self.0@.len() - i,
        {
            if !other.contains(&self.0[i]) {
                proof {
                    assert(tv.to_set().contains(tv[i as int]));
                }
                return false;
            }
            i = i + 1;
        }
        proof {
            assert forall|x: Seq<char>| tv.to_set().contains(x) implies other@.to_set().contains(
                x,
            ) by {
                let k = choose|k: int| 0 <= k < tv.len() && tv[k] == x;
                assert(other@.contains(tv[k]));
            }
        }
        true
    }
}

/// Scope permission levels for AT Protocol operations.
#[derive(Clone, Copy, Debug, PartialEq, Eq, Hash, Structural)]
pub enum Permission {
    /// Read-only access.
    Read,
    /// Read-write access.
    Write,
    /// No access (the variant the serialized form calls `none`).
    NoAccess,
}

/// Granted tokens permit an XRPC method: full access through `atproto`, or
/// the method's own NSID scope.
pub open spec fn permits_xrpc(granted: Seq<Seq<char>>, nsid: Seq<char>) -> bool {
    granted.contains("atproto"@) || granted.contains(nsid)
}

/// Checks whether a set of granted scopes permits a specific XRPC call.
///
/// Returns `true` if the granted scopes include either `atproto` (full access)
/// or the specific NSID-level scope for the requested XRPC method.
pub fn scope_permits_xrpc(granted: &ScopeSet, nsid: &str) -> (r: bool)
    ensures
        r == permits_xrpc(granted@, nsid@),
{
    if granted.contains_str(known::ATPROTO) {
        return true;
    }
    granted.contains_str(nsid)
}


/// Serializing a scope set and parsing the string back gives the same set:
/// whatever sorted, duplicate-free token list holds exactly the tokens of
/// `join_space(v)` (the contract of `ScopeSet::parse`) is `v` itself.
pub proof fn law_scope_string_roundtrip(v: Seq<Seq<char>>, w: Seq<Seq<char>>)
    requires
        scopes_ok(v),
        scopes_ok(w),
        w.to_set() == split_ws(join_space(v)).to_set(),
    ensures
        w == v,
{
    lemma_split_join(v);
    lemma_sorted_unique(w, v);
}

/// A sorted, duplicate-free sequence has no repeated element.
proof fn lemma_sorted_no_duplicates(v: Seq<Seq<char>>)
    requires
        sorted_distinct(v),
    ensures
        v.no_duplicates(),
{
    assert forall|i: int, j: int| 0 <= i < v.len() && 0 <= j < v.len() && i != j implies v[i]
        != v[j] by {
        if i < j {
            assert(seq_lt(v[i], v[j]));
        } else {
            assert(seq_lt(v[j], v[i]));
        }
        lemma_seq_lt_irreflexive(v[i]);
    }
}

/// Parsing deduplicates: the parsed set has one entry per distinct token.
pub proof fn law_parse_deduplicates(s: Seq<char>, w: Seq<Seq<char>>)
    requires
        scopes_ok(w),
        w.to_set() == split_ws(s).to_set(),
    ensures
        w.len() == split_ws(s).to_set().len(),
{
    lemma_sorted_no_duplicates(w);
    w.unique_seq_to_set();
}

/// Inserting a scope that is already present changes nothing.
pub proof fn law_insert_present_is_identity(a: Seq<Seq<char>>, b: Seq<Seq<char>>, x: Seq<char>)
    requires
        scopes_ok(a),
        scopes_ok(b),
        a.contains(x),
        b.to_set() == a.to_set().insert(x),
    ensures
        b == a,
{
    assert(a.to_set().insert(x) =~= a.to_set());
    lemma_sorted_unique(b, a);
}

/// Granting more scopes never withdraws a permission.
pub proof fn law_permits_monotone(a: Seq<Seq<char>>, b: Seq<Seq<char>>, nsid: Seq<char>)
    requires
        a.to_set().subset_of(b.to_set()),
        permits_xrpc(a, nsid),
    ensures
        permits_xrpc(b, nsid),
{
    if a.contains("atproto"@) {
        assert(a.to_set().contains("atproto"@));
        assert(b.to_set().contains("atproto"@));
    } else {
        assert(a.to_set().contains(nsid));
        assert(b.to_set().contains(nsid));
    }
}

/// A scope set holds one entry per distinct token: its length is the size
/// of its set of tokens.
proof fn lemma_scope_len(v: Seq<Seq<char>>)
    requires
        scopes_ok(v),
    ensures
        v.len() == v.to_set().len(),
{
    lemma_sorted_no_duplicates(v);
    v.unique_seq_to_set();
}

/// `is_subset_of` orders scope sets: every set is a subset of itself and
/// the empty set of every set; subsets compose; two sets each a subset of
/// the other are the same set; and a subset is no longer than its superset.
pub proof fn law_subset_order(a: Seq<Seq<char>>, b: Seq<Seq<char>>, c: Seq<Seq<char>>)
    requires
        scopes_ok(a),
        scopes_ok(b),
        scopes_ok(c),
    ensures
        a.to_set().subset_of(a.to_set()),
        Seq::<Seq<char>>::empty().to_set().subset_of(b.to_set()),
        a.to_set().subset_of(b.to_set()) && b.to_set().subset_of(c.to_set()) ==> a.to_set().subset_of(
            c.to_set(),
        ),
        a.to_set().subset_of(b.to_set()) && b.to_set().subset_of(a.to_set()) ==> a == b,
        a.to_set().subset_of(b.to_set()) ==> a.len() <= b.len(),
{
    if a.to_set().subset_of(b.to_set()) && b.to_set().subset_of(a.to_set()) {
        assert(a.to_set() =~= b.to_set());
        lemma_sorted_unique(a, b);
    }
    if a.to_set().subset_of(b.to_set()) {
        lemma_scope_len(a);
        lemma_scope_len(b);
        vstd::set_lib::lemma_len_subset(a.to_set(), b.to_set());
    }
}

} // verus!
