//! Location-code handling: case normalization, splitting of compound codes
//! ("se-sto") into a country part and a city part, and the lexicographic
//! order under which the country table is kept sorted.

use vstd::prelude::*;

verus! {

/// The character sequence that Unicode lower-casing yields for `s`: the
/// result of `str::to_lowercase`, which depends on the input characters
/// alone. Named here, not defined: the library never re-implements the
/// case mapping, it only carries the normalized forms.
pub uninterp spec fn lower_of(s: Seq<char>) -> Seq<char>;

/// Relies on `str::to_lowercase`: Unicode lower-casing of the whole string.
#[verifier::external_body]
pub fn to_lowercase(s: &str) -> (r: String)
    ensures
        r@ == lower_of(s@),
{
    s.to_lowercase()
}

/// What splitting a compound location code yields: the text before the first
/// separator and the text after it, or nothing when no separator occurs.
pub open spec fn spec_split_location_code(s: Seq<char>) -> Option<(Seq<char>, Seq<char>)> {
    match s.index_of_first('-') {
        Some(i) => Some((s.take(i), s.skip(i + 1))),
        None => None,
    }
}

/// Splits a location code such as `se-sto` at its first separator into the
/// country part (`se`) and the city part (`sto`). A code without a separator
/// cannot be resolved and yields `None`.
pub fn split_location_code(location: &str) -> (r: Option<(String, String)>)
    ensures
        r is Some <==> spec_split_location_code(location@) is Some,
        r matches Some(p) ==> Some((p.0@, p.1@)) == spec_split_location_code(location@),
{
    let n = location.unicode_len();
    let mut i: usize = 0;
    while i < n
        invariant
            i <= n,
            n == location@.len(),
            forall|k: int| 0 <= k < i ==> location@[k] != '-',
        decreases n - i,
    {
        if location.get_char(i) == '-' {
            proof {
                location@.index_of_first_ensures('-');
                assert(location@.index_of_first('-') == Some(i as int));
            }
            let country = location.substring_char(0, i);
            let city = location.substring_char(i + 1, n);
            proof {
                assert(country@ =~= location@.take(i as int));
                assert(city@ =~= location@.skip(i as int + 1));
            }
            return Some((String::from_str(country), String::from_str(city)));
        }
        i = i + 1;
    }
    proof {
        location@.index_of_first_ensures('-');
        assert(!location@.contains('-'));
    }
    None
}

// ---------------------------------------------------------------------------
// Lexicographic order on code strings
// ---------------------------------------------------------------------------

/// Strict lexicographic order on the characters from position `i` on,
/// comparing scalar values. On whole strings this is the order in which an
/// ordered map keyed by the codes hands its entries out.
pub open spec fn lex_lt_from(a: Seq<char>, b: Seq<char>, i: int) -> bool
    decreases b.len() - i,
{
    if i >= b.len() {
        false
    } else if i >= a.len() {
        true
    } else if a[i] != b[i] {
        (a[i] as u32) < (b[i] as u32)
    } else {
        lex_lt_from(a, b, i + 1)
    }
}

/// Strict lexicographic order on whole strings.
pub open spec fn lex_lt(a: Seq<char>, b: Seq<char>) -> bool {
    lex_lt_from(a, b, 0)
}

proof fn lemma_lex_from_total(a: Seq<char>, b: Seq<char>, i: int)
    requires
        0 <= i <= a.len(),
        i <= b.len(),
    ensures
        lex_lt_from(a, b, i) || lex_lt_from(b, a, i) || a.skip(i) =~= b.skip(i),
    decreases b.len() - i,
{
    if i < a.len() && i < b.len() && a[i] != b[i] {
        // Distinct characters have distinct scalar values, so one of the
        // two strict comparisons holds.
        vstd::utf8::char_u32_cast(a[i], a[i] as u32);
        vstd::utf8::char_u32_cast(b[i], b[i] as u32);
    }
    if i < a.len() && i < b.len() && a[i] == b[i] {
        lemma_lex_from_total(a, b, i + 1);
        if !lex_lt_from(a, b, i) && !lex_lt_from(b, a, i) {
            assert(a.skip(i + 1) =~= b.skip(i + 1));
            assert forall|k: int| 0 <= k < a.skip(i).len() implies a.skip(i)[k] == b.skip(i)[k] by {
                if k > 0 {
                    assert(a.skip(i)[k] == a.skip(i + 1)[k - 1]);
                    assert(b.skip(i)[k] == b.skip(i + 1)[k - 1]);
                }
            }
        }
    }
}

/// The order is total: two distinct strings compare one way or the other.
pub proof fn lemma_lex_total(a: Seq<char>, b: Seq<char>)
    ensures
        lex_lt(a, b) || lex_lt(b, a) || a == b,
{
    lemma_lex_from_total(a, b, 0);
    if !lex_lt(a, b) && !lex_lt(b, a) {
        assert(a.skip(0) =~= a);
        assert(b.skip(0) =~= b);
    }
}

proof fn lemma_lex_from_trans(a: Seq<char>, b: Seq<char>, c: Seq<char>, i: int)
    requires
        0 <= i,
        lex_lt_from(a, b, i),
        lex_lt_from(b, c, i),
    ensures
        lex_lt_from(a, c, i),
    decreases c.len() - i,
{
    if i < a.len() && i < b.len() && i < c.len() && a[i] == b[i] && b[i] == c[i] {
        lemma_lex_from_trans(a, b, c, i + 1);
    }
}

/// The order is transitive.
pub proof fn lemma_lex_trans(a: Seq<char>, b: Seq<char>, c: Seq<char>)
    requires
        lex_lt(a, b),
        lex_lt(b, c),
    ensures
        lex_lt(a, c),
{
    lemma_lex_from_trans(a, b, c, 0);
}

/// Compares two strings in the lexicographic order.
pub fn str_lt(a: &str, b: &str) -> (r: bool)
    ensures
        r == lex_lt(a@, b@),
{
    let alen = a.unicode_len();
    let blen = b.unicode_len();
    let mut i: usize = 0;
    while i < alen && i < blen
        invariant
            i <= alen,
            i <= blen,
            alen == a@.len(),
            blen == b@.len(),
            lex_lt(a@, b@) == lex_lt_from(a@, b@, i as int),
        decreases alen - i,
    {
        let ca = a.get_char(i);
        let cb = b.get_char(i);
        if ca != cb {
            return (ca as u32) < (cb as u32);
        }
        i = i + 1;
    }
    alen < blen
}

} // verus!
