//! Identifiers of the form `"<Kind>:<token>"`, and the partition each one names.

use vstd::prelude::*;
use vstd::string::*;

use crate::error::GraphError;

verus! {

/// A character of the base32-hex alphabet that generated tokens are written in.
pub open spec fn is_token_char(c: char) -> bool {
    ('0' <= c && c <= '9') || ('a' <= c && c <= 'v')
}

/// A token as the identifier primitive renders it: twenty characters of `[0-9a-v]`.
pub open spec fn is_generated_token(t: Seq<char>) -> bool {
    &&& t.len() == 20
    &&& forall|i: int| 0 <= i < t.len() ==> is_token_char(#[trigger] t[i])
}

pub open spec fn colon_free(s: Seq<char>) -> bool {
    forall|i: int| 0 <= i < s.len() ==> #[trigger] s[i] != ':'
}

/// The canonical identifier of a record of `kind` with `token`.
pub open spec fn compose(kind: Seq<char>, token: Seq<char>) -> Seq<char> {
    kind + seq![':'] + token
}

/// The partition an identifier names: everything before its first `:`,
/// or `None` where it holds no `:`.
pub open spec fn family_part(s: Seq<char>) -> Option<Seq<char>>
    decreases s.len(),
{
    if s.len() == 0 {
        None
    } else if s[0] == ':' {
        Some(Seq::empty())
    } else {
        match family_part(s.drop_first()) {
            Some(f) => Some(seq![s[0]] + f),
            None => None,
        }
    }
}

pub proof fn lemma_family_part_at(s: Seq<char>, k: int)
    requires
        0 <= k < s.len(),
        s[k] == ':',
        colon_free(s.subrange(0, k)),
    ensures
        family_part(s) == Some(s.subrange(0, k)),
    decreases k,
{
    if k == 0 {
        assert(s.subrange(0, 0) =~= Seq::<char>::empty());
    } else {
        assert(s.subrange(0, k)[0] == s[0]);
        let t = s.drop_first();
        assert(t.subrange(0, k - 1) =~= s.subrange(1, k));
        assert forall|i: int| 0 <= i < k - 1 implies #[trigger] t.subrange(0, k - 1)[i] != ':' by {
            assert(s.subrange(0, k)[i + 1] == s[i + 1]);
        }
        lemma_family_part_at(t, k - 1);
        assert(seq![s[0]] + t.subrange(0, k - 1) =~= s.subrange(0, k));
    }
}

pub proof fn lemma_family_part_none(s: Seq<char>)
    requires
        colon_free(s),
    ensures
        family_part(s) is None,
    decreases s.len(),
{
    if s.len() > 0 {
        let t = s.drop_first();
        assert forall|i: int| 0 <= i < t.len() implies #[trigger] t[i] != ':' by {
            assert(t[i] == s[i + 1]);
        }
        lemma_family_part_none(t);
    }
}

/// The partition of a composed identifier is its kind, whatever the token holds.
pub proof fn lemma_family_of_compose(kind: Seq<char>, token: Seq<char>)
    requires
        colon_free(kind),
    ensures
        family_part(compose(kind, token)) == Some(kind),
{
    let s = compose(kind, token);
    assert(s.subrange(0, kind.len() as int) =~= kind);
    assert(s[kind.len() as int] == ':');
    lemma_family_part_at(s, kind.len() as int);
}

/// Relies on `xid::new` and the `Display` of `xid::Id`: a fresh identifier rendered as
/// twenty characters of `[0-9a-v]` (it panics only where the clock is before 1970).
#[verifier::external_body]
fn fresh_token() -> (r: String)
    ensures
        is_generated_token(r@),
{
    xid::new().to_string()
}

/// `"<kind>:<token>"`.
pub fn compose_id(kind: &str, token: &str) -> (r: String)
    ensures
        r@ == compose(kind@, token@),
{
    let mut r = String::from_str(kind);
    r.append(":");
    r.append(token);
    proof {
        reveal_strlit(":");
    }
    assert(r@ =~= compose(kind@, token@));
    r
}

/// The identifier of a new record of `kind`: `"<kind>:<token>"` with the caller's token,
/// or with a freshly generated one where none is given.
pub fn new_id(kind: &str, token: Option<String>) -> (r: String)
    ensures
        match token {
            Some(t) => r@ == compose(kind@, t@),
            None => exists|g: Seq<char>| is_generated_token(g) && r@ == compose(kind@, g),
        },
{
    match token {
        Some(t) => compose_id(kind, t.as_str()),
        None => {
            let g = fresh_token();
            compose_id(kind, g.as_str())
        },
    }
}

/// The partition that `id` names: the text before its first `:`.
pub fn family_of(id: &str) -> (r: Result<String, GraphError>)
    ensures
        match family_part(id@) {
            Some(f) => r matches Ok(s) && s@ == f,
            None => r == Err::<String, GraphError>(GraphError::IdentifierParseFailed),
        },
{
    let n = id.unicode_len();
    let mut k: usize = 0;
    while k < n
        invariant
            n == id@.len(),
            k <= n,
            colon_free(id@.subrange(0, k as int)),
        decreases n - k,
    {
        let c = id.get_char(k);
        if c == ':' {
            proof {
                lemma_family_part_at(id@, k as int);
            }
            let f = id.substring_char(0, k);
            return Ok(String::from_str(f));
        }
        assert forall|i: int| 0 <= i < k + 1 implies #[trigger] id@.subrange(0, k + 1)[i] != ':' by {
            if i < k {
                assert(id@.subrange(0, k as int)[i] == id@[i]);
            }
        }
        k = k + 1;
    }
    proof {
        assert(id@.subrange(0, n as int) =~= id@);
        lemma_family_part_none(id@);
    }
    Err(GraphError::IdentifierParseFailed)
}

} // verus!
