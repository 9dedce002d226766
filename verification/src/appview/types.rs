//! Identifier newtypes. `AtUri` splits `at://<did>/<collection>/<rkey>`
//! into its parts without validating them.

use vstd::prelude::*;
use crate::json::JsonValue;
use crate::text::{chars_of, find_char, first_index_of, has_prefix, lemma_first_index, str_starts_with, to_string};

verus! {

broadcast use vstd::string::group_string_axioms;

/// `s` with one leading `at://` removed, if it has one.
pub open spec fn after_scheme_of(s: Seq<char>) -> Seq<char> {
    if has_prefix(s, "at://"@) {
        s.skip(5)
    } else {
        s
    }
}

/// The authority segment: everything before the first `/` after the scheme.
pub open spec fn uri_did(s: Seq<char>) -> Seq<char> {
    let a = after_scheme_of(s);
    a.take(first_index_of(a, '/'))
}

/// The collection segment: between the first and second `/`, or empty when
/// there is no `/`.
pub open spec fn uri_collection(s: Seq<char>) -> Seq<char> {
    let a = after_scheme_of(s);
    let i = first_index_of(a, '/');
    if i == a.len() {
        Seq::empty()
    } else {
        let b = a.skip(i + 1);
        b.take(first_index_of(b, '/'))
    }
}

/// The record key: everything after the second `/`, or empty when there is
/// no second `/`.
pub open spec fn uri_rkey(s: Seq<char>) -> Seq<char> {
    let a = after_scheme_of(s);
    let i = first_index_of(a, '/');
    if i == a.len() {
        Seq::empty()
    } else {
        let b = a.skip(i + 1);
        let j = first_index_of(b, '/');
        if j == b.len() {
            Seq::empty()
        } else {
            b.skip(j + 1)
        }
    }
}

/// A parsed AT Protocol URI: `at://<did>/<collection>/<rkey>`.
#[derive(Debug)]
pub struct AtUri(String);

impl View for AtUri {
    type V = Seq<char>;

    closed spec fn view(&self) -> Seq<char> {
        self.0@
    }
}

impl AtUri {
    /// Constructs an `AtUri` from a raw string without validation.
    pub fn new(s: &str) -> (r: AtUri)
        ensures
            r@ == s@,
    {
        AtUri(to_string(s))
    }

    /// Constructs an `AtUri` that takes ownership of `s`.
    pub fn from_string(s: String) -> (r: AtUri)
        ensures
            r@ == s@,
    {
        AtUri(s)
    }

    /// The whole URI.
    pub fn as_str(&self) -> (r: &str)
        ensures
            r@ == self@,
    {
        self.0.as_str()
    }

    fn after_scheme(&self) -> (r: &str)
        ensures
            r@ == after_scheme_of(self@),
    {
        proof {
            reveal_strlit("at://");
        }
        if str_starts_with(self.0.as_str(), "at://") {
            let n = chars_of(self.0.as_str()).len();
            self.0.as_str().substring_char(5, n)
        } else {
            self.0.as_str()
        }
    }

    /// Returns the DID portion (the authority segment).
    pub fn did(&self) -> (r: &str)
        ensures
            r@ == uri_did(self@),
    {
        let s = self.after_scheme();
        let cs = chars_of(s);
        let i = find_char(&cs, '/');
        s.substring_char(0, i)
    }

    /// Returns the collection NSID portion, or an empty string if absent.
    pub fn collection(&self) -> (r: &str)
        ensures
            r@ == uri_collection(self@),
    {
        let s = self.after_scheme();
        let cs = chars_of(s);
        let i = find_char(&cs, '/');
        if i == cs.len() {
            proof {
                reveal_strlit("");
            }
            return "";
        }
        let after = s.substring_char(i + 1, cs.len());
        let bs = chars_of(after);
        let j = find_char(&bs, '/');
        after.substring_char(0, j)
    }

    /// Returns the rkey portion, or an empty string if absent.
    pub fn rkey(&self) -> (r: &str)
        ensures
            r@ == uri_rkey(self@),
    {
        let s = self.after_scheme();
        let cs = chars_of(s);
        let i = find_char(&cs, '/');
        proof {
            reveal_strlit("");
        }
        if i == cs.len() {
            return "";
        }
        let after = s.substring_char(i + 1, cs.len());
        let bs = chars_of(after);
        let j = find_char(&bs, '/');
        if j == bs.len() {
            return "";
        }
        after.substring_char(j + 1, bs.len())
    }
}


/// The URI `at://<did>/<collection>/<rkey>`.
pub open spec fn at_uri_of(did: Seq<char>, collection: Seq<char>, rkey: Seq<char>) -> Seq<char> {
    "at://"@ + did + seq!['/'] + collection + seq!['/'] + rkey
}

/// Reading the parts of a URI built from parts gives them back, provided the
/// DID and the collection hold no `/` (the record key may).
pub proof fn law_at_uri_parts(did: Seq<char>, collection: Seq<char>, rkey: Seq<char>)
    requires
        !did.contains('/'),
        !collection.contains('/'),
    ensures
        uri_did(at_uri_of(did, collection, rkey)) == did,
        uri_collection(at_uri_of(did, collection, rkey)) == collection,
        uri_rkey(at_uri_of(did, collection, rkey)) == rkey,
{
    reveal_strlit("at://");
    let s = at_uri_of(did, collection, rkey);
    let a = did + seq!['/'] + collection + seq!['/'] + rkey;
    assert(s.take(5) =~= "at://"@);
    assert(s.skip(5) =~= a);
    assert(after_scheme_of(s) == a);
    assert forall|j: int| 0 <= j < did.len() implies a[j] != '/' by {
        assert(a[j] == did[j]);
        if did[j] == '/' {
            assert(did.contains('/'));
        }
    }
    lemma_first_index(a, '/', did.len() as int);
    assert(a.take(did.len() as int) =~= did);
    let b = a.skip(did.len() as int + 1);
    assert(b =~= collection + seq!['/'] + rkey);
    assert forall|j: int| 0 <= j < collection.len() implies b[j] != '/' by {
        assert(b[j] == collection[j]);
        if collection[j] == '/' {
            assert(collection.contains('/'));
        }
    }
    lemma_first_index(b, '/', collection.len() as int);
    assert(b.take(collection.len() as int) =~= collection);
    assert(b.skip(collection.len() as int + 1) =~= rkey);
}

/// A W3C Decentralized Identifier.
#[derive(Debug)]
pub struct Did(String);

impl View for Did {
    type V = Seq<char>;

    closed spec fn view(&self) -> Seq<char> {
        self.0@
    }
}

impl Did {
    /// Wraps `s` without validation.
    pub fn new(s: &str) -> (r: Did)
        ensures
            r@ == s@,
    {
        Did(to_string(s))
    }

    /// The identifier.
    pub fn as_str(&self) -> (r: &str)
        ensures
            r@ == self@,
    {
        self.0.as_str()
    }
}

/// A Content Identifier (CID) string.
#[derive(Debug)]
pub struct Cid(String);

impl View for Cid {
    type V = Seq<char>;

    closed spec fn view(&self) -> Seq<char> {
        self.0@
    }
}

impl Cid {
    /// Wraps `s` without validation.
    pub fn new(s: &str) -> (r: Cid)
        ensures
            r@ == s@,
    {
        Cid(to_string(s))
    }

    /// The CID text.
    pub fn as_str(&self) -> (r: &str)
        ensures
            r@ == self@,
    {
        self.0.as_str()
    }
}

/// An opaque pagination cursor.
#[derive(Debug)]
pub struct Cursor(String);

impl View for Cursor {
    type V = Seq<char>;

    closed spec fn view(&self) -> Seq<char> {
        self.0@
    }
}

impl Cursor {
    /// Wraps `s`.
    pub fn new(s: &str) -> (r: Cursor)
        ensures
            r@ == s@,
    {
        Cursor(to_string(s))
    }

    /// The cursor text.
    pub fn as_str(&self) -> (r: &str)
        ensures
            r@ == self@,
    {
        self.0.as_str()
    }
}


/// The action that triggered a write to the firehose.
#[derive(Clone, Copy, Debug, PartialEq, Eq, Structural)]
pub enum WriteAction {
    Create,
    Update,
    Delete,
}


/// A single indexing operation from the firehose.
#[derive(Debug)]
pub struct IndexOp {
    pub uri: AtUri,
    pub cid: Cid,
    pub author: Did,
    pub record: JsonValue,
    /// When the record was indexed, as an RFC 3339 timestamp.
    pub indexed_at: String,
    pub action: WriteAction,
}

} // verus!
