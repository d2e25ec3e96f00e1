//! Call signature strings.
//!
//! A method is named towards the interpreter by a signature string: a name
//! followed by its arity written in parentheses as underscores, such as
//! `calc(_,_)` or `print()`. Signatures are often built at runtime, so a
//! malformed one is reported as a result, never a panic. Only this
//! name-plus-arity form is accepted: the getter, setter and operator
//! spellings of the scripting language are outside the grammar and are
//! refused rather than guessed at.
use vstd::prelude::*;

verus! {

/// Characters allowed in the name part of a signature.
pub open spec fn is_name_char(c: char) -> bool {
    ||| ('a' as u32) <= (c as u32) && (c as u32) <= ('z' as u32)
    ||| ('A' as u32) <= (c as u32) && (c as u32) <= ('Z' as u32)
    ||| ('0' as u32) <= (c as u32) && (c as u32) <= ('9' as u32)
    ||| c == '_'
}

/// The parameter list between the parentheses: empty, or underscores
/// separated by commas.
pub open spec fn valid_params(t: Seq<char>) -> bool {
    t.len() == 0 || (t.len() % 2 == 1 && forall|i: int|
        0 <= i < t.len() ==> t[i] == (if i % 2 == 0 {
            '_'
        } else {
            ','
        }))
}

/// A whole signature: a non-empty name of name characters, then `(`, the
/// parameter list, and a final `)`.
pub open spec fn valid_signature(s: Seq<char>) -> bool {
    exists|p: int|
        {
            &&& 1 <= p < s.len() - 1
            &&& #[trigger] s[p] == '('
            &&& s[s.len() - 1] == ')'
            &&& (forall|i: int| 0 <= i < p ==> is_name_char(s[i]))
            &&& valid_params(s.subrange(p + 1, s.len() - 1))
        }
}

/// Decide whether a signature string is well formed.
pub fn validate_signature(sig: &str) -> (r: bool)
    ensures
        r == valid_signature(sig@),
{
    let n = sig.unicode_len();
    // Scan the name part.
    let mut p: usize = 0;
    let mut scanning = true;
    while scanning && p < n
        invariant
            p <= n,
            n == sig@.len(),
            forall|i: int| 0 <= i < p ==> is_name_char(sig@[i]),
            !scanning ==> p < n && !is_name_char(sig@[p as int]),
        decreases n - p, if scanning { 1int } else { 0int },
    {
        let c = sig.get_char(p);
        let cu = c as u32;
        let isname = (cu >= 'a' as u32 && cu <= 'z' as u32) || (cu >= 'A' as u32 && cu <= 'Z'
            as u32) || (cu >= '0' as u32 && cu <= '9' as u32) || c == '_';
        if isname {
            p += 1;
        } else {
            scanning = false;
        }
    }
    // The name must be non-empty and an open parenthesis must follow, with
    // room for the closing one.
    if p < 1 || n - p < 2 {
        proof {
            // No candidate split point exists: one would have to lie past a
            // non-empty pure name and still leave room for the parentheses,
            // but the scan stopped at p.
            assert forall|q: int|
                1 <= q < sig@.len() - 1 && #[trigger] sig@[q] == '(' && (forall|i: int|
                    0 <= i < q ==> is_name_char(sig@[i])) implies false by {
                assert(!is_name_char('('));
                if q < p {
                    assert(is_name_char(sig@[q]));
                } else if p < n {
                    assert(is_name_char(sig@[p as int]));
                }
            }
        }
        return false;
    }
    if sig.get_char(p) != '(' {
        proof {
            // A candidate split point cannot sit before p (those are name
            // characters) nor at or after p (position p is neither a name
            // character nor an open parenthesis).
            assert(!is_name_char(sig@[p as int]));
            assert forall|q: int|
                1 <= q < sig@.len() - 1 && #[trigger] sig@[q] == '(' && (forall|i: int|
                    0 <= i < q ==> is_name_char(sig@[i])) implies false by {
                assert(!is_name_char('('));
                if q < p {
                    assert(is_name_char(sig@[q]));
                } else {
                    assert(is_name_char(sig@[p as int]));
                }
            }
        }
        return false;
    }
    if sig.get_char(n - 1) != ')' {
        return false;
    }
    // Check the parameter list for the alternating underscore-comma shape.
    let ghost params = sig@.subrange(p + 1, n as int - 1);
    let plen: usize = n - 1 - (p + 1);
    if plen == 0 {
        proof {
            assert(valid_params(params));
            assert(valid_signature(sig@));
        }
        return true;
    }
    if plen % 2 == 0 {
        proof {
            lemma_even_params_defect(sig@, p as int);
        }
        return false;
    }
    let mut j: usize = 0;
    while j < plen
        invariant
            j <= plen,
            n == sig@.len(),
            plen == n - 1 - (p + 1),
            1 <= p,
            p + 2 <= n,
            sig@[p as int] == '(',
            sig@[n - 1] == ')',
            forall|i: int| 0 <= i < p ==> is_name_char(sig@[i]),
            params == sig@.subrange(p + 1 as int, n as int - 1),
            plen == params.len(),
            forall|i: int| 0 <= i < j ==> params[i] == (if i % 2 == 0 {
                '_'
            } else {
                ','
            }),
        decreases plen - j,
    {
        let c = sig.get_char(p + 1 + j);
        proof {
            assert(params[j as int] == sig@[p + 1 + j as int]);
        }
        if j % 2 == 0 {
            if c != '_' {
                proof {
                    assert(!valid_params(params));
                    lemma_sole_split_defect(sig@, p as int);
                }
                return false;
            }
        } else {
            if c != ',' {
                proof {
                    assert(!valid_params(params));
                    lemma_sole_split_defect(sig@, p as int);
                }
                return false;
            }
        }
        j += 1;
    }
    proof {
        assert(valid_params(params));
        assert(valid_signature(sig@));
    }
    true
}

/// Position `p` is the only candidate split point, so a defect in its
/// parameter list defeats every candidate.
proof fn lemma_sole_split_defect(s: Seq<char>, p: int)
    requires
        1 <= p < s.len() - 1,
        s[p] == '(',
        forall|i: int| 0 <= i < p ==> is_name_char(s[i]),
        !valid_params(s.subrange(p + 1, s.len() - 1)),
    ensures
        !valid_signature(s),
{
    assert forall|q: int|
        1 <= q < s.len() - 1 && #[trigger] s[q] == '(' && (forall|i: int|
            0 <= i < q ==> is_name_char(s[i])) && valid_params(
        s.subrange(q + 1, s.len() - 1),
    ) implies false by {
        assert(!is_name_char('('));
        if q < p {
            assert(is_name_char(s[q]));
        } else if q > p {
            assert(is_name_char(s[p]));
        }
    }
}

/// An even, non-zero parameter region defeats every candidate.
proof fn lemma_even_params_defect(s: Seq<char>, p: int)
    requires
        1 <= p < s.len() - 1,
        s[p] == '(',
        forall|i: int| 0 <= i < p ==> is_name_char(s[i]),
        (s.len() - 1 - (p + 1)) % 2 == 0,
        s.len() - 1 - (p + 1) > 0,
    ensures
        !valid_signature(s),
{
    assert(!valid_params(s.subrange(p + 1, s.len() - 1)));
    lemma_sole_split_defect(s, p);
}

} // verus!
