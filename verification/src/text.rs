//! Character-sequence utilities: equality, substring search, line
//! splitting, trimming, capitalization and joining, all specified over
//! `Seq<char>`.

use vstd::prelude::*;
use vstd::string::*;

verus! {

/// The lowercase equivalent of a character sequence.
pub uninterp spec fn lower_of(s: Seq<char>) -> Seq<char>;

/// The uppercase expansion of a single character (one or more characters).
pub uninterp spec fn upper_of(c: char) -> Seq<char>;

/// Whether a character has the Unicode `White_Space` property.
pub uninterp spec fn is_white(c: char) -> bool;

/// Relies on `str::to_lowercase`: the result depends on the characters
/// alone, and an empty string stays empty.
#[verifier::external_body]
pub(crate) fn to_lower(s: &str) -> (r: String)
    ensures
        r@ == lower_of(s@),
        s@.len() == 0 ==> r@.len() == 0,
{
    s.to_lowercase()
}

/// Relies on `char::to_uppercase`: the result depends on the character
/// alone and yields at least one character.
#[verifier::external_body]
pub(crate) fn char_upper(c: char) -> (r: String)
    ensures
        r@ == upper_of(c),
        r@.len() >= 1,
{
    c.to_uppercase().collect()
}

/// Relies on `char::is_whitespace`: true exactly for characters with the
/// Unicode `White_Space` property, a function of the character alone.
#[verifier::external_body]
pub(crate) fn is_space_char(c: char) -> (r: bool)
    ensures
        r == is_white(c),
{
    c.is_whitespace()
}

/// Relies on `str::chars`: iterates exactly the characters of the slice,
/// in order.
#[verifier::external_body]
pub(crate) fn chars_vec(s: &str) -> (v: Vec<char>)
    ensures
        v@ == s@,
{
    s.chars().collect()
}

/// Relies on `String`'s `FromIterator` impl through `Iterator::collect`:
/// builds the string holding exactly these characters, in order.
#[verifier::external_body]
pub(crate) fn chars_to_string(v: &Vec<char>) -> (s: String)
    ensures
        s@ == v@,
{
    v.iter().collect()
}

/// True when `a` and `b` hold the same characters.
pub fn str_eq(a: &str, b: &str) -> (r: bool)
    ensures
        r == (a@ == b@),
{
    let na = a.unicode_len();
    let nb = b.unicode_len();
    if na != nb {
        return false;
    }
    let mut i: usize = 0;
    while i < na
        invariant
            na == a@.len(),
            nb == b@.len(),
            na == nb,
            i <= na,
            forall|k: int| 0 <= k < i ==> a@[k] == b@[k],
        decreases na - i,
    {
        if a.get_char(i) != b.get_char(i) {
            return false;
        }
        i += 1;
    }
    proof {
        assert(a@ =~= b@);
    }
    true
}

/// `needle` occurs contiguously somewhere in `hay`.
pub open spec fn has_substring(hay: Seq<char>, needle: Seq<char>) -> bool {
    exists|i: int|
        0 <= i && i + needle.len() <= hay.len() && #[trigger] hay.subrange(
            i,
            i + needle.len(),
        ) == needle
}

/// Substring search over character vectors.
pub fn contains_sub(hay: &Vec<char>, needle: &Vec<char>) -> (r: bool)
    ensures
        r == has_substring(hay@, needle@),
{
    let nh = hay.len();
    let nn = needle.len();
    if nn > nh {
        return false;
    }
    if nn == 0 {
        proof {
            assert(hay@.subrange(0, 0 + needle@.len() as int) =~= needle@);
        }
        return true;
    }
    let mut i: usize = 0;
    while i <= nh - nn
        invariant
            1 <= nn <= nh,
            nh == hay@.len(),
            nn == needle@.len(),
            i <= nh - nn + 1,
            forall|k: int|
                0 <= k < i ==> #[trigger] hay@.subrange(k, k + needle@.len()) != needle@,
        decreases nh - nn + 1 - i,
    {
        let mut j: usize = 0;
        let mut mismatch = false;
        while j < nn
            invariant
                nn <= nh,
                nh == hay@.len(),
                nn == needle@.len(),
                i + nn <= nh,
                j <= nn,
                !mismatch ==> forall|k: int| 0 <= k < j ==> hay@[i + k] == needle@[k],
                mismatch ==> hay@.subrange(i as int, i + needle@.len()) != needle@,
            decreases nn - j,
        {
            if hay[i + j] != needle[j] {
                proof {
                    assert(hay@.subrange(i as int, i + needle@.len())[j as int] == hay@[i + j]);
                }
                mismatch = true;
                j = nn;
            } else {
                j += 1;
            }
        }
        if !mismatch {
            proof {
                assert(hay@.subrange(i as int, i + needle@.len()) =~= needle@);
            }
            return true;
        }
        i += 1;
    }
    proof {
        assert forall|k: int| 0 <= k && k + needle@.len() <= hay@.len() implies #[trigger] hay@
            .subrange(k, k + needle@.len()) != needle@ by {
            assert(k < i);
        }
    }
    false
}

/// True when `s` begins with the characters of `p`.
pub open spec fn starts_with_spec(s: Seq<char>, p: Seq<char>) -> bool {
    p.len() <= s.len() && s.subrange(0, p.len() as int) == p
}

/// Prefix test over string slices.
pub fn str_starts_with(s: &str, p: &str) -> (r: bool)
    ensures
        r == starts_with_spec(s@, p@),
{
    let ns = s.unicode_len();
    let np = p.unicode_len();
    if np > ns {
        return false;
    }
    let mut i: usize = 0;
    while i < np
        invariant
            ns == s@.len(),
            np == p@.len(),
            np <= ns,
            i <= np,
            forall|k: int| 0 <= k < i ==> s@[k] == p@[k],
        decreases np - i,
    {
        if s.get_char(i) != p.get_char(i) {
            proof {
                assert(s@.subrange(0, p@.len() as int)[i as int] == s@[i as int]);
            }
            return false;
        }
        i += 1;
    }
    proof {
        assert(s@.subrange(0, p@.len() as int) =~= p@);
    }
    true
}

/// Copy of `v[a..b]` as a fresh vector.
pub(crate) fn sub_vec(v: &Vec<char>, a: usize, b: usize) -> (r: Vec<char>)
    requires
        a <= b <= v@.len(),
    ensures
        r@ == v@.subrange(a as int, b as int),
{
    let mut r: Vec<char> = Vec::new();
    let mut k: usize = a;
    while k < b
        invariant
            a <= k <= b <= v@.len(),
            r@ == v@.subrange(a as int, k as int),
        decreases b - k,
    {
        r.push(v[k]);
        proof {
            assert(r@ =~= v@.subrange(a as int, k + 1 as int));
        }
        k += 1;
    }
    r
}

/// Index of the first newline in `s`, or `s.len()` when there is none.
pub open spec fn first_nl(s: Seq<char>) -> int
    decreases s.len(),
{
    if s.len() == 0 {
        0
    } else if s[0] == '\n' {
        0
    } else {
        1 + first_nl(s.drop_first())
    }
}

pub proof fn lemma_first_nl_is(s: Seq<char>, i: int)
    requires
        0 <= i <= s.len(),
        i < s.len() ==> s[i] == '\n',
        forall|k: int| 0 <= k < i ==> s[k] != '\n',
    ensures
        first_nl(s) == i,
    decreases s.len(),
{
    if s.len() == 0 {
    } else if s[0] == '\n' {
        assert(i == 0);
    } else {
        assert(i >= 1);
        lemma_first_nl_is(s.drop_first(), i - 1);
    }
}

/// Remove one trailing carriage return, if present.
pub open spec fn strip_cr(s: Seq<char>) -> Seq<char> {
    if s.len() > 0 && s.last() == '\r' {
        s.drop_last()
    } else {
        s
    }
}

/// The lines of `s`, as `str::lines` yields them: segments split at `'\n'`,
/// with a carriage return directly before the newline removed, and no empty
/// final segment when the text ends with a newline.
pub open spec fn lines_spec(s: Seq<char>) -> Seq<Seq<char>>
    decreases s.len(),
{
    if s.len() == 0 {
        Seq::empty()
    } else {
        let i = first_nl(s);
        if 0 <= i < s.len() {
            seq![strip_cr(s.take(i))] + lines_spec(s.skip(i + 1))
        } else {
            seq![s]
        }
    }
}

/// Split `v` into its lines.
pub fn split_lines(v: &Vec<char>) -> (r: Vec<Vec<char>>)
    ensures
        r@.len() == lines_spec(v@).len(),
        forall|i: int| 0 <= i < r@.len() ==> #[trigger] r@[i]@ == lines_spec(v@)[i],
{
    let n = v.len();
    let mut r: Vec<Vec<char>> = Vec::new();
    let mut pos: usize = 0;
    let ghost all = lines_spec(v@);
    proof {
        assert(v@.skip(0) =~= v@);
        assert(r@.map_values(|x: Vec<char>| x@) =~= Seq::<Seq<char>>::empty());
        assert(all =~= r@.map_values(|x: Vec<char>| x@) + lines_spec(v@.skip(0)));
    }
    while pos < n
        invariant
            n == v@.len(),
            pos <= n,
            all == lines_spec(v@),
            all =~= r@.map_values(|x: Vec<char>| x@) + lines_spec(v@.skip(pos as int)),
        decreases n - pos,
    {
        let ghost rest = v@.skip(pos as int);
        let mut k: usize = pos;
        while k < n && v[k] != '\n'
            invariant
                n == v@.len(),
                pos <= k <= n,
                forall|j: int| pos <= j < k ==> v@[j] != '\n',
            decreases n - k,
        {
            k += 1;
        }
        proof {
            assert forall|j: int| 0 <= j < k - pos implies rest[j] != '\n' by {
                assert(rest[j] == v@[pos + j]);
            }
            if k < n {
                assert(rest[k - pos] == v@[k as int]);
            }
            lemma_first_nl_is(rest, k - pos);
        }
        if k == n {
            // final segment without a newline: kept as it stands
            let seg = sub_vec(v, pos, n);
            proof {
                assert(seg@ =~= rest);
                assert(lines_spec(rest) == seq![rest]);
            }
            r.push(seg);
            pos = n;
            proof {
                assert(lines_spec(v@.skip(pos as int)) =~= Seq::<Seq<char>>::empty());
                assert(all =~= r@.map_values(|x: Vec<char>| x@) + lines_spec(
                    v@.skip(pos as int),
                ));
            }
        } else {
            let end = if k > pos && v[k - 1] == '\r' {
                k - 1
            } else {
                k
            };
            let seg = sub_vec(v, pos, end);
            proof {
                assert(rest.take(k - pos) =~= v@.subrange(pos as int, k as int));
                if k > pos && v@[k - 1] == '\r' {
                    assert(rest.take(k - pos).last() == v@[k - 1]);
                    assert(seg@ =~= strip_cr(rest.take(k - pos)));
                } else {
                    if k > pos {
                        assert(rest.take(k - pos).last() == v@[k - 1]);
                    }
                    assert(seg@ =~= strip_cr(rest.take(k - pos)));
                }
                assert(lines_spec(rest) == seq![strip_cr(rest.take(k - pos))] + lines_spec(
                    rest.skip(k - pos + 1),
                ));
                assert(rest.skip(k - pos + 1) =~= v@.skip(k + 1 as int));
            }
            r.push(seg);
            pos = k + 1;
            proof {
                assert(all =~= r@.map_values(|x: Vec<char>| x@) + lines_spec(
                    v@.skip(pos as int),
                ));
            }
        }
    }
    proof {
        assert(lines_spec(v@.skip(pos as int)) =~= Seq::<Seq<char>>::empty());
        assert(r@.map_values(|x: Vec<char>| x@) =~= all);
        assert forall|i: int| 0 <= i < r@.len() implies #[trigger] r@[i]@ == lines_spec(v@)[i] by {
            assert(r@.map_values(|x: Vec<char>| x@)[i] == r@[i]@);
        }
    }
    r
}

/// `s` with leading whitespace removed.
pub open spec fn trim_start_spec(s: Seq<char>) -> Seq<char>
    decreases s.len(),
{
    if s.len() == 0 {
        s
    } else if is_white(s[0]) {
        trim_start_spec(s.drop_first())
    } else {
        s
    }
}

/// `s` with trailing whitespace removed.
pub open spec fn trim_end_spec(s: Seq<char>) -> Seq<char>
    decreases s.len(),
{
    if s.len() == 0 {
        s
    } else if is_white(s.last()) {
        trim_end_spec(s.drop_last())
    } else {
        s
    }
}

/// `s` with whitespace removed from both ends, as `str::trim` leaves it.
pub open spec fn trim_spec(s: Seq<char>) -> Seq<char> {
    trim_end_spec(trim_start_spec(s))
}

proof fn lemma_trim_start_skip(s: Seq<char>, i: int)
    requires
        0 <= i <= s.len(),
        forall|k: int| 0 <= k < i ==> is_white(s[k]),
        i < s.len() ==> !is_white(s[i]),
    ensures
        trim_start_spec(s) =~= s.skip(i),
    decreases i,
{
    if i == 0 {
        if s.len() > 0 {
            assert(!is_white(s[0]));
        }
        assert(s.skip(0) =~= s);
    } else {
        assert(is_white(s[0]));
        lemma_trim_start_skip(s.drop_first(), i - 1);
        assert(s.drop_first().skip(i - 1) =~= s.skip(i));
    }
}

proof fn lemma_trim_end_take(s: Seq<char>, j: int)
    requires
        0 <= j <= s.len(),
        forall|k: int| j <= k < s.len() ==> is_white(s[k]),
        j > 0 ==> !is_white(s[j - 1]),
    ensures
        trim_end_spec(s) =~= s.take(j),
    decreases s.len() - j,
{
    if j == s.len() {
        if j > 0 {
            assert(!is_white(s.last()));
        }
        assert(s.take(j) =~= s);
    } else {
        assert(is_white(s.last()));
        lemma_trim_end_take(s.drop_last(), j);
        assert(s.drop_last().take(j) =~= s.take(j));
    }
}

/// Whitespace trimmed from both ends of `s`.
pub fn trim(s: &str) -> (r: String)
    ensures
        r@ == trim_spec(s@),
{
    let v = chars_vec(s);
    let n = v.len();
    let mut i: usize = 0;
    while i < n && is_space_char(v[i])
        invariant
            n == v@.len(),
            v@ == s@,
            i <= n,
            forall|k: int| 0 <= k < i ==> is_white(v@[k]),
        decreases n - i,
    {
        i += 1;
    }
    let mut j: usize = n;
    while j > i && is_space_char(v[j - 1])
        invariant
            n == v@.len(),
            v@ == s@,
            i <= j <= n,
            forall|k: int| j <= k < n ==> is_white(v@[k]),
        decreases j,
    {
        j -= 1;
    }
    let out = sub_vec(&v, i, j);
    let r = chars_to_string(&out);
    proof {
        lemma_trim_start_skip(s@, i as int);
        let t1 = s@.skip(i as int);
        if j == i {
            // everything from i on was whitespace, so i reached n or j stopped at i
            assert forall|k: int| 0 <= k < t1.len() implies is_white(t1[k]) by {
                assert(t1[k] == s@[i + k]);
            }
            lemma_trim_end_take(t1, 0);
        } else {
            assert(!is_white(v@[j - 1]));
            assert forall|k: int| j - i <= k < t1.len() implies is_white(t1[k]) by {
                assert(t1[k] == s@[i + k]);
            }
            assert(t1[j - i - 1] == s@[j - 1]);
            lemma_trim_end_take(t1, j - i);
        }
        assert(t1.take(j - i) =~= s@.subrange(i as int, j as int));
        assert(r@ == trim_spec(s@));
    }
    r
}

/// `s` with its first character uppercased and the rest unchanged.
pub open spec fn capitalize_spec(s: Seq<char>) -> Seq<char> {
    if s.len() == 0 {
        s
    } else {
        upper_of(s[0]) + s.drop_first()
    }
}

/// First character uppercased, rest unchanged.
pub fn capitalize(s: &str) -> (r: String)
    ensures
        r@ == capitalize_spec(s@),
{
    let n = s.unicode_len();
    if n == 0 {
        let r = String::new();
        proof {
            assert(r@ =~= capitalize_spec(s@));
        }
        r
    } else {
        let first = s.get_char(0);
        let up = char_upper(first);
        let rest = s.substring_char(1, n);
        let r = up.concat(rest);
        proof {
            assert(s@.subrange(1, n as int) =~= s@.drop_first());
        }
        r
    }
}

/// The items joined with single newlines between them.
pub open spec fn join_nl(items: Seq<Seq<char>>) -> Seq<char>
    decreases items.len(),
{
    if items.len() == 0 {
        Seq::empty()
    } else if items.len() == 1 {
        items[0]
    } else {
        join_nl(items.drop_last()) + "\n"@ + items.last()
    }
}

/// Join the items with newlines.
pub fn join_lines(items: &Vec<String>) -> (r: String)
    ensures
        r@ == join_nl(items.deep_view()),
{
    if items.len() == 0 {
        let r = String::new();
        proof {
            assert(r@ =~= join_nl(items.deep_view()));
        }
        return r;
    }
    let mut r: String = items[0].clone();
    let mut i: usize = 1;
    proof {
        assert(items.deep_view().take(1).len() == 1);
        assert(items.deep_view().take(1)[0] == items@[0]@);
    }
    while i < items.len()
        invariant
            1 <= i <= items@.len(),
            items.deep_view().len() == items@.len(),
            r@ == join_nl(items.deep_view().take(i as int)),
        decreases items@.len() - i,
    {
        let ghost pre = items.deep_view().take(i as int);
        let ghost post = items.deep_view().take(i + 1);
        r.append("\n");
        r.append(items[i].as_str());
        proof {
            assert(post.drop_last() =~= pre);
            assert(post.last() == items@[i as int]@);
            assert(r@ == join_nl(post));
        }
        i += 1;
    }
    proof {
        assert(items.deep_view().take(items@.len() as int) =~= items.deep_view());
    }
    r
}

} // verus!
