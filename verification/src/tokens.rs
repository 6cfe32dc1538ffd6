//! Token-identifier extraction: a market record carries its tradable token
//! identifiers as one comma-separated text field. Extraction splits the field
//! on commas and trims surrounding whitespace from each piece. It never
//! fails: an absent field degrades to an empty list elsewhere, and this
//! module gives the exact split-and-trim semantics of a present field.

use vstd::prelude::*;

verus! {

/// Whitespace characters trimmed from the ends of a token identifier: the
/// Unicode white-space set, as `char::is_whitespace` recognizes it.
pub open spec fn is_space_char(c: char) -> bool {
    let u: u32 = c as u32;
    (0x9 <= u && u <= 0xd) || u == 0x20 || u == 0x85 || u == 0xa0 || u == 0x1680 || (0x2000 <= u
        && u <= 0x200a) || u == 0x2028 || u == 0x2029 || u == 0x202f || u == 0x205f || u == 0x3000
}

/// `s` without its leading whitespace.
pub open spec fn drop_leading_spaces(s: Seq<char>) -> Seq<char>
    decreases s.len(),
{
    if s.len() > 0 && is_space_char(s[0]) {
        drop_leading_spaces(s.skip(1))
    } else {
        s
    }
}

/// `s` without its trailing whitespace.
pub open spec fn drop_trailing_spaces(s: Seq<char>) -> Seq<char>
    decreases s.len(),
{
    if s.len() > 0 && is_space_char(s.last()) {
        drop_trailing_spaces(s.drop_last())
    } else {
        s
    }
}

/// `s` without leading and trailing whitespace.
pub open spec fn trim_spaces(s: Seq<char>) -> Seq<char> {
    drop_trailing_spaces(drop_leading_spaces(s))
}

/// `s` split on commas: the pieces between commas, in order, each possibly
/// empty. An input without commas (the empty input included) yields exactly
/// one piece.
pub open spec fn split_commas(s: Seq<char>) -> Seq<Seq<char>>
    decreases s.len(),
{
    if s.len() == 0 {
        seq![Seq::<char>::empty()]
    } else if s[0] == ',' {
        seq![Seq::<char>::empty()] + split_commas(s.skip(1))
    } else {
        let rest = split_commas(s.skip(1));
        seq![seq![s[0]] + rest[0]] + rest.skip(1)
    }
}

/// The token identifiers carried by a comma-separated field: the pieces
/// between commas, each trimmed of surrounding whitespace.
pub open spec fn token_ids_of(s: Seq<char>) -> Seq<Seq<char>> {
    split_commas(s).map_values(|t: Seq<char>| trim_spaces(t))
}

/// An input without commas splits into exactly itself.
pub proof fn lemma_split_commas_no_comma(s: Seq<char>)
    requires
        forall|k: int| 0 <= k < s.len() ==> s[k] != ',',
    ensures
        split_commas(s) == seq![s],
    decreases s.len(),
{
    if s.len() == 0 {
        assert(s =~= Seq::<char>::empty());
        assert(split_commas(s) =~= seq![s]);
    } else {
        lemma_split_commas_no_comma(s.skip(1));
        let rest = split_commas(s.skip(1));
        assert(rest == seq![s.skip(1)]);
        assert(seq![s[0]] + s.skip(1) =~= s);
        assert(rest.skip(1) =~= Seq::<Seq<char>>::empty());
        assert(split_commas(s) =~= seq![s]);
    }
}

/// Splitting at the first comma: the piece before it, then the split of what
/// follows it.
pub proof fn lemma_split_commas_first(s: Seq<char>, i: int)
    requires
        0 <= i < s.len(),
        s[i] == ',',
        forall|k: int| 0 <= k < i ==> s[k] != ',',
    ensures
        split_commas(s) == seq![s.take(i)] + split_commas(s.skip(i + 1)),
    decreases i,
{
    if i == 0 {
        assert(s.take(0) =~= Seq::<char>::empty());
        assert(split_commas(s) =~= seq![s.take(0)] + split_commas(s.skip(1)));
    } else {
        assert(s.skip(1)[i - 1] == ',');
        assert(forall|k: int| 0 <= k < i - 1 ==> s.skip(1)[k] == s[k + 1] && s[k + 1] != ',');
        lemma_split_commas_first(s.skip(1), i - 1);
        let rest = split_commas(s.skip(1));
        assert(s.skip(1).skip(i) =~= s.skip(i + 1));
        assert(rest == seq![s.skip(1).take(i - 1)] + split_commas(s.skip(i + 1)));
        assert(rest[0] == s.skip(1).take(i - 1));
        assert(seq![s[0]] + s.skip(1).take(i - 1) =~= s.take(i));
        assert(rest.skip(1) =~= split_commas(s.skip(i + 1)));
        assert(split_commas(s) =~= seq![s.take(i)] + split_commas(s.skip(i + 1)));
    }
}

/// Dropping leading whitespace is skipping to the first non-whitespace
/// character.
pub proof fn lemma_drop_leading_spaces_at(s: Seq<char>, a: int)
    requires
        0 <= a <= s.len(),
        forall|k: int| 0 <= k < a ==> is_space_char(s[k]),
        a < s.len() ==> !is_space_char(s[a]),
    ensures
        drop_leading_spaces(s) == s.skip(a),
    decreases a,
{
    if a == 0 {
        assert(s.skip(0) =~= s);
    } else {
        assert(forall|k: int| 0 <= k < a - 1 ==> s.skip(1)[k] == s[k + 1] && is_space_char(s[k + 1]));
        lemma_drop_leading_spaces_at(s.skip(1), a - 1);
        assert(s.skip(1).skip(a - 1) =~= s.skip(a));
    }
}

/// Dropping trailing whitespace is taking up to just past the last
/// non-whitespace character.
pub proof fn lemma_drop_trailing_spaces_at(s: Seq<char>, b: int)
    requires
        0 <= b <= s.len(),
        forall|k: int| b <= k < s.len() ==> is_space_char(s[k]),
        b > 0 ==> !is_space_char(s[b - 1]),
    ensures
        drop_trailing_spaces(s) == s.take(b),
    decreases s.len() - b,
{
    if b == s.len() {
        assert(s.take(b) =~= s);
    } else {
        assert(is_space_char(s.last()));
        assert(forall|k: int| b <= k < s.drop_last().len() ==> s.drop_last()[k] == s[k]
            && is_space_char(s[k]));
        lemma_drop_trailing_spaces_at(s.drop_last(), b);
        assert(s.drop_last().take(b) =~= s.take(b));
    }
}

/// Whether `c` counts as whitespace for trimming.
pub fn is_space(c: char) -> (r: bool)
    ensures
        r == is_space_char(c),
{
    let u: u32 = c as u32;
    (0x9 <= u && u <= 0xd) || u == 0x20 || u == 0x85 || u == 0xa0 || u == 0x1680 || (0x2000 <= u
        && u <= 0x200a) || u == 0x2028 || u == 0x2029 || u == 0x202f || u == 0x205f || u == 0x3000
}

/// `s` with leading and trailing whitespace removed.
pub fn trim_spaces_exec(s: &str) -> (r: String)
    ensures
        r@ == trim_spaces(s@),
{
    let n = s.unicode_len();
    let mut a: usize = 0;
    while a < n && is_space(s.get_char(a))
        invariant
            a <= n,
            n == s@.len(),
            forall|k: int| 0 <= k < a ==> is_space_char(s@[k]),
        decreases n - a,
    {
        a += 1;
    }
    let mut b: usize = n;
    while b > a && is_space(s.get_char(b - 1))
        invariant
            a <= b <= n,
            n == s@.len(),
            forall|k: int| b <= k < n ==> is_space_char(s@[k]),
        decreases b,
    {
        b -= 1;
    }
    proof {
        lemma_drop_leading_spaces_at(s@, a as int);
        let t = s@.skip(a as int);
        assert(forall|k: int| b - a <= k < t.len() ==> t[k] == s@[k + a] && is_space_char(
            s@[k + a],
        ));
        lemma_drop_trailing_spaces_at(t, b as int - a as int);
        assert(t.take(b as int - a as int) =~= s@.subrange(a as int, b as int));
    }
    String::from_str(s.substring_char(a, b))
}

/// `s` split on commas, each piece as an owned string.
pub fn split_commas_exec(s: &str) -> (r: Vec<String>)
    ensures
        r.deep_view() == split_commas(s@),
    decreases s@.len(),
{
    let n = s.unicode_len();
    let mut i: usize = 0;
    while i < n && s.get_char(i) != ','
        invariant
            i <= n,
            n == s@.len(),
            forall|k: int| 0 <= k < i ==> s@[k] != ',',
        decreases n - i,
    {
        i += 1;
    }
    if i == n {
        proof {
            lemma_split_commas_no_comma(s@);
        }
        let mut v: Vec<String> = Vec::new();
        v.push(String::from_str(s));
        proof {
            assert(v.deep_view() =~= split_commas(s@));
        }
        v
    } else {
        let head = s.substring_char(0, i);
        let tail = s.substring_char(i + 1, n);
        proof {
            lemma_split_commas_first(s@, i as int);
            assert(head@ == s@.take(i as int));
        }
        let rest = split_commas_exec(tail);
        let mut v: Vec<String> = Vec::new();
        v.push(String::from_str(head));
        let mut j: usize = 0;
        while j < rest.len()
            invariant
                j <= rest.len(),
                rest.deep_view() == split_commas(tail@),
                head@ == s@.take(i as int),
                v.deep_view() == seq![s@.take(i as int)] + rest.deep_view().take(j as int),
            decreases rest.len() - j,
        {
            let ghost prev = v.deep_view();
            let piece = rest[j].clone();
            proof {
                assert(piece.deep_view() == rest.deep_view()[j as int]);
            }
            v.push(piece);
            j += 1;
            proof {
                assert(v.deep_view() =~= prev.push(rest.deep_view()[j - 1]));
                assert(prev.push(rest.deep_view()[j - 1]) =~= seq![s@.take(i as int)]
                    + rest.deep_view().take(j as int));
            }
        }
        proof {
            assert(rest.deep_view().take(rest.len() as int) =~= rest.deep_view());
            assert(v.deep_view() =~= split_commas(s@));
        }
        v
    }
}

/// The token identifiers of a comma-separated field: split on commas, each
/// piece trimmed of surrounding whitespace.
pub fn split_token_ids(s: &str) -> (r: Vec<String>)
    ensures
        r.deep_view() == token_ids_of(s@),
{
    let pieces = split_commas_exec(s);
    let mut v: Vec<String> = Vec::new();
    let mut j: usize = 0;
    while j < pieces.len()
        invariant
            j <= pieces.len(),
            pieces.deep_view() == split_commas(s@),
            v.deep_view() == token_ids_of(s@).take(j as int),
        decreases pieces.len() - j,
    {
        let ghost prev = v.deep_view();
        let t = trim_spaces_exec(pieces[j].as_str());
        proof {
            assert(t.deep_view() == token_ids_of(s@)[j as int]);
        }
        v.push(t);
        j += 1;
        proof {
            assert(v.deep_view() =~= prev.push(token_ids_of(s@)[j - 1]));
            assert(prev.push(token_ids_of(s@)[j - 1]) =~= token_ids_of(s@).take(j as int));
        }
    }
    proof {
        assert(token_ids_of(s@).take(pieces.len() as int) =~= token_ids_of(s@));
    }
    v
}

} // verus!
