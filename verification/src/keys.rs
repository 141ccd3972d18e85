//! Derivation of cache keys.
//!
//! A plain key is `{type_id}.{id}`; a scoped key is `scope.{scope}.{type_id}`.
//! Both are pure functions of their parts.

use vstd::prelude::*;
use vstd::string::*;

verus! {

/// The key of a plain entry: the type identifier, a dot, the id.
pub open spec fn plain_key_spec(type_id: Seq<char>, id: Seq<char>) -> Seq<char> {
    type_id + seq!['.'] + id
}

/// The text that every scoped key starts with.
pub open spec fn scope_prefix() -> Seq<char> {
    seq!['s', 'c', 'o', 'p', 'e', '.']
}

/// The key of a scoped entry: `scope.`, the scope, a dot, the type identifier.
pub open spec fn scoped_key_spec(scope: Seq<char>, type_id: Seq<char>) -> Seq<char> {
    scope_prefix() + scope + seq!['.'] + type_id
}

/// A type of values that the cache stores as plain entries.
///
/// The type identifier must be the same in every run of the process, and
/// differ from that of every other type that is cached.
pub trait CacheIdentifier {
    /// The stable identifier of the type.
    spec fn type_id() -> Seq<char>;

    /// The key of the plain entry of this type and `id`: the type identifier,
    /// a dot, and the id as it displays.
    fn cache_key<T: std::fmt::Display>(id: T) -> (key: String)
        ensures
            exists|text: String| #[trigger]
                to_string_from_display_ensures::<T>(&id, text) && key@ == plain_key_spec(
                    Self::type_id(),
                    text@,
                ),
    ;
}

/// Holds of a text without the separator `.`.
pub open spec fn dot_free(s: Seq<char>) -> bool {
    forall|i: int| 0 <= i < s.len() ==> s[i] != '.'
}

/// Builds the key of a plain entry.
pub fn plain_key(type_id: &str, id: &str) -> (key: String)
    ensures
        key@ == plain_key_spec(type_id@, id@),
{
    proof {
        reveal_strlit(".");
        assert("."@ =~= seq!['.']);
    }
    let mut key = String::from_str(type_id);
    key.append(".");
    key.append(id);
    key
}

/// Builds the key of a scoped entry.
pub fn scoped_key(scope: &str, type_id: &str) -> (key: String)
    ensures
        key@ == scoped_key_spec(scope@, type_id@),
{
    proof {
        reveal_strlit("scope.");
        reveal_strlit(".");
        assert("scope."@ =~= scope_prefix());
        assert("."@ =~= seq!['.']);
    }
    let mut key = String::from_str("scope.");
    key.append(scope);
    key.append(".");
    key.append(type_id);
    key
}

/// Two texts joined by a dot determine both parts, once the length of the
/// first part is known.
proof fn lemma_join_same_length(a1: Seq<char>, b1: Seq<char>, a2: Seq<char>, b2: Seq<char>)
    requires
        a1 + seq!['.'] + b1 == a2 + seq!['.'] + b2,
        a1.len() == a2.len(),
    ensures
        a1 == a2,
        b1 == b2,
{
    let k1 = a1 + seq!['.'] + b1;
    let k2 = a2 + seq!['.'] + b2;
    assert(k1.len() == k2.len());
    assert(b1.len() == b2.len());
    assert forall|i: int| 0 <= i < a1.len() implies a1[i] == a2[i] by {
        assert(k1[i] == a1[i]);
        assert(k2[i] == a2[i]);
    }
    assert(a1 =~= a2);
    assert forall|i: int| 0 <= i < b1.len() implies b1[i] == b2[i] by {
        assert(k1[a1.len() + 1 + i] == b1[i]);
        assert(k2[a2.len() + 1 + i] == b2[i]);
    }
    assert(b1 =~= b2);
}

/// Two dot-free texts, each followed by a dot and more text, are equal when
/// the joined texts are: the first dot marks where the first part ends.
proof fn lemma_join_dot_free(a1: Seq<char>, b1: Seq<char>, a2: Seq<char>, b2: Seq<char>)
    requires
        a1 + seq!['.'] + b1 == a2 + seq!['.'] + b2,
        dot_free(a1),
        dot_free(a2),
    ensures
        a1 == a2,
        b1 == b2,
{
    let k1 = a1 + seq!['.'] + b1;
    let k2 = a2 + seq!['.'] + b2;
    if a1.len() < a2.len() {
        assert(k1[a1.len() as int] == '.');
        assert(k2[a1.len() as int] == a2[a1.len() as int]);
        assert(false);
    }
    if a2.len() < a1.len() {
        assert(k2[a2.len() as int] == '.');
        assert(k1[a2.len() as int] == a1[a2.len() as int]);
        assert(false);
    }
    lemma_join_same_length(a1, b1, a2, b2);
}

/// Removing the common prefix of two scoped keys keeps them equal.
proof fn lemma_strip_scope_prefix(x: Seq<char>, y: Seq<char>)
    requires
        scope_prefix() + x == scope_prefix() + y,
    ensures
        x == y,
{
    let p = scope_prefix();
    assert((p + x).len() == p.len() + x.len());
    assert((p + y).len() == p.len() + y.len());
    assert forall|i: int| 0 <= i < x.len() implies x[i] == y[i] by {
        assert((p + x)[p.len() + i] == x[i]);
        assert((p + y)[p.len() + i] == y[i]);
    }
    assert(x =~= y);
}

/// Plain keys of one type collide only for equal ids.
pub proof fn lemma_plain_key_same_type(type_id: Seq<char>, id1: Seq<char>, id2: Seq<char>)
    ensures
        plain_key_spec(type_id, id1) == plain_key_spec(type_id, id2) <==> id1 == id2,
{
    if plain_key_spec(type_id, id1) == plain_key_spec(type_id, id2) {
        lemma_join_same_length(type_id, id1, type_id, id2);
    }
}

/// Plain keys of dot-free type identifiers collide only when both the type
/// identifier and the id are equal.
pub proof fn lemma_plain_key_injective(
    type1: Seq<char>,
    id1: Seq<char>,
    type2: Seq<char>,
    id2: Seq<char>,
)
    requires
        dot_free(type1),
        dot_free(type2),
    ensures
        plain_key_spec(type1, id1) == plain_key_spec(type2, id2) <==> (type1 == type2 && id1
            == id2),
{
    if plain_key_spec(type1, id1) == plain_key_spec(type2, id2) {
        lemma_join_dot_free(type1, id1, type2, id2);
    }
}

/// Scoped keys of one type collide only for equal scopes.
pub proof fn lemma_scoped_key_same_type(scope1: Seq<char>, scope2: Seq<char>, type_id: Seq<char>)
    ensures
        scoped_key_spec(scope1, type_id) == scoped_key_spec(scope2, type_id) <==> scope1
            == scope2,
{
    if scoped_key_spec(scope1, type_id) == scoped_key_spec(scope2, type_id) {
        let x = scope1 + seq!['.'] + type_id;
        let y = scope2 + seq!['.'] + type_id;
        assert(scoped_key_spec(scope1, type_id) =~= scope_prefix() + x);
        assert(scoped_key_spec(scope2, type_id) =~= scope_prefix() + y);
        lemma_strip_scope_prefix(x, y);
        assert(scope1.len() == scope2.len()) by {
            assert(x.len() == scope1.len() + 1 + type_id.len());
            assert(y.len() == scope2.len() + 1 + type_id.len());
        }
        lemma_join_same_length(scope1, type_id, scope2, type_id);
    }
}

/// Scoped keys of dot-free scopes collide only when both the scope and the
/// type identifier are equal.
pub proof fn lemma_scoped_key_injective(
    scope1: Seq<char>,
    type1: Seq<char>,
    scope2: Seq<char>,
    type2: Seq<char>,
)
    requires
        dot_free(scope1),
        dot_free(scope2),
    ensures
        scoped_key_spec(scope1, type1) == scoped_key_spec(scope2, type2) <==> (scope1 == scope2
            && type1 == type2),
{
    if scoped_key_spec(scope1, type1) == scoped_key_spec(scope2, type2) {
        let x = scope1 + seq!['.'] + type1;
        let y = scope2 + seq!['.'] + type2;
        assert(scoped_key_spec(scope1, type1) =~= scope_prefix() + x);
        assert(scoped_key_spec(scope2, type2) =~= scope_prefix() + y);
        lemma_strip_scope_prefix(x, y);
        lemma_join_dot_free(scope1, type1, scope2, type2);
    }
}

/// A plain key never equals a scoped key, unless the plain entry's type
/// identifier is the word `scope` itself or holds a dot.
pub proof fn lemma_plain_and_scoped_keys_differ(
    type_id: Seq<char>,
    id: Seq<char>,
    scope: Seq<char>,
    scoped_type: Seq<char>,
)
    requires
        dot_free(type_id),
        type_id != seq!['s', 'c', 'o', 'p', 'e'],
    ensures
        plain_key_spec(type_id, id) != scoped_key_spec(scope, scoped_type),
{
    let word = seq!['s', 'c', 'o', 'p', 'e'];
    if plain_key_spec(type_id, id) == scoped_key_spec(scope, scoped_type) {
        let rest = scope + seq!['.'] + scoped_type;
        assert(scoped_key_spec(scope, scoped_type) =~= word + seq!['.'] + rest);
        assert(dot_free(word));
        lemma_join_dot_free(type_id, id, word, rest);
    }
}

} // verus!
