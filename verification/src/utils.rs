//! Identifier handling: the ledger keys every record by a non-fungible
//! identifier whose characters are letters, digits and underscores. A
//! caller-supplied identifier (typically a UUID) becomes such a key by
//! replacing each hyphen with an underscore, so two identifiers that differ
//! only in hyphens versus underscores name the same record.

use vstd::prelude::*;

verus! {

/// Whether `c` may stand in a stored non-fungible identifier key:
/// an ASCII letter, an ASCII digit, or an underscore.
pub open spec fn valid_key_char(c: char) -> bool {
    ('0' as u32 <= c as u32 && c as u32 <= '9' as u32)
    || ('A' as u32 <= c as u32 && c as u32 <= 'Z' as u32)
    || ('a' as u32 <= c as u32 && c as u32 <= 'z' as u32)
    || c == '_'
}

/// Whether `s` may be handed in as an identifier: one to sixty-four
/// characters, each a valid key character or a hyphen.
pub open spec fn valid_id(s: Seq<char>) -> bool {
    1 <= s.len() <= 64 && forall|i: int|
        0 <= i < s.len() ==> valid_key_char(#[trigger] s[i]) || s[i] == '-'
}

/// One character of the key: a hyphen becomes an underscore, everything
/// else stays.
pub open spec fn key_char(c: char) -> char {
    if c == '-' {
        '_'
    } else {
        c
    }
}

/// The non-fungible key under which an identifier is stored.
pub open spec fn key_of(s: Seq<char>) -> Seq<char> {
    s.map_values(|c: char| key_char(c))
}

/// Builds the non-fungible identifier key of a caller-supplied identifier
/// by replacing each hyphen with an underscore.
pub fn create_non_fungible_id_of_uuid(uuid: &str) -> (r: String)
    requires
        valid_id(uuid@),
    ensures
        r@ == key_of(uuid@),
{
    let len = uuid.unicode_len();
    let mut r = String::new();
    let mut i: usize = 0;
    while i < len
        invariant
            valid_id(uuid@),
            len == uuid@.len(),
            i <= len,
            r@ == key_of(uuid@).take(i as int),
        decreases len - i,
    {
        let c = uuid.get_char(i);
        if c == '-' {
            r.append("_");
            proof {
                reveal_strlit("_");
                assert("_"@ =~= seq!['_']);
            }
        } else {
            let piece = uuid.substring_char(i, i + 1);
            r.append(piece);
        }
        proof {
            assert(r@ =~= key_of(uuid@).take(i + 1));
        }
        i = i + 1;
    }
    proof {
        assert(key_of(uuid@).take(len as int) =~= key_of(uuid@));
    }
    r
}

/// Whether some element of `s` reads `t`.
pub open spec fn contains_id(s: Seq<String>, t: Seq<char>) -> bool {
    exists|i: int| 0 <= i < s.len() && s[i]@ == t
}

/// The elements of `s` as plain character sequences.
pub open spec fn id_views(s: Seq<String>) -> Seq<Seq<char>> {
    s.map_values(|x: String| x@)
}

/// `contains_id` agrees with membership among the views.
pub proof fn lemma_contains_id_views(s: Seq<String>, t: Seq<char>)
    ensures
        contains_id(s, t) <==> id_views(s).contains(t),
{
    if contains_id(s, t) {
        let i = choose|i: int| 0 <= i < s.len() && s[i]@ == t;
        assert(id_views(s)[i] == t);
    }
    if id_views(s).contains(t) {
        let i = choose|i: int| 0 <= i < id_views(s).len() && id_views(s)[i] == t;
        assert(s[i]@ == t);
    }
}

/// The views of an appended pair of sequences are the appended views.
pub proof fn lemma_id_views_add(a: Seq<String>, b: Seq<String>)
    ensures
        id_views(a + b) =~= id_views(a) + id_views(b),
{
    assert forall|i: int| 0 <= i < a.len() + b.len() implies id_views(a + b)[i] == (id_views(a)
        + id_views(b))[i] by {
        if i < a.len() {
            assert((a + b)[i] == a[i]);
        } else {
            assert((a + b)[i] == b[i - a.len()]);
        }
    }
}

/// The views of a sequence with one element appended.
pub proof fn lemma_id_views_push(s: Seq<String>, x: String)
    ensures
        id_views(s.push(x)) =~= id_views(s).push(x@),
{
    assert forall|i: int| 0 <= i < s.len() + 1 implies id_views(s.push(x))[i] == id_views(s).push(
        x@,
    )[i] by {
        if i < s.len() {
            assert(s.push(x)[i] == s[i]);
        } else {
            assert(s.push(x)[i] == x);
        }
    }
}

/// Whether the elements of `s` are pairwise distinct as strings.
pub open spec fn distinct_ids(s: Seq<String>) -> bool {
    forall|i: int, j: int| 0 <= i < j < s.len() ==> s[i]@ != s[j]@
}

/// An exact copy of a vector of strings.
pub fn clone_strings(v: &Vec<String>) -> (r: Vec<String>)
    ensures
        r@ == v@,
{
    let mut r: Vec<String> = Vec::new();
    let mut i: usize = 0;
    while i < v.len()
        invariant
            i <= v@.len(),
            r@ == v@.take(i as int),
        decreases v@.len() - i,
    {
        r.push(v[i].clone());
        proof {
            assert(r@ =~= v@.take(i + 1));
        }
        i = i + 1;
    }
    proof {
        assert(v@.take(v@.len() as int) =~= v@);
    }
    r
}

/// Whether some element of `v` reads the same as `t`.
pub fn contains_string(v: &Vec<String>, t: &String) -> (r: bool)
    ensures
        r == contains_id(v@, t@),
{
    let mut i: usize = 0;
    while i < v.len()
        invariant
            i <= v@.len(),
            forall|j: int| 0 <= j < i ==> v@[j]@ != t@,
        decreases v@.len() - i,
    {
        if v[i].eq(t) {
            return true;
        }
        i = i + 1;
    }
    false
}

} // verus!
