//! The search engine: case-insensitive substring search across all
//! registered documents, capped at five matching lines per document, and
//! the formatting of the results.

use vstd::prelude::*;
use vstd::string::*;
use crate::store::{ContentStore, StoreView, doc_text};
use crate::text::{
    capitalize, capitalize_spec, chars_to_string, chars_vec, contains_sub, has_substring,
    join_lines, join_nl, lines_spec, lower_of, split_lines, to_lower, trim, trim_spec,
};

verus! {

/// A line matches when its lowercase form contains the (already
/// lowercased) query as a substring.
pub open spec fn line_matches(line: Seq<char>, qlow: Seq<char>) -> bool {
    has_substring(lower_of(line), qlow)
}

/// The first at-most-`k` matching lines, in original order.
pub open spec fn first_matches(lines: Seq<Seq<char>>, qlow: Seq<char>, k: nat) -> Seq<Seq<char>>
    decreases lines.len(),
{
    if lines.len() == 0 || k == 0 {
        Seq::empty()
    } else if line_matches(lines[0], qlow) {
        seq![lines[0]] + first_matches(lines.drop_first(), qlow, (k - 1) as nat)
    } else {
        first_matches(lines.drop_first(), qlow, k)
    }
}

/// Every matching line, in original order, without a cap.
pub open spec fn all_matches(lines: Seq<Seq<char>>, qlow: Seq<char>) -> Seq<Seq<char>>
    decreases lines.len(),
{
    if lines.len() == 0 {
        Seq::empty()
    } else if line_matches(lines[0], qlow) {
        seq![lines[0]] + all_matches(lines.drop_first(), qlow)
    } else {
        all_matches(lines.drop_first(), qlow)
    }
}

/// The capped result is exactly the uncapped one cut off after `k`
/// entries: at most `k` lines per document, the first matches, in their
/// original order.
pub proof fn lemma_first_matches_take(lines: Seq<Seq<char>>, qlow: Seq<char>, k: nat)
    ensures
        first_matches(lines, qlow, k) == if all_matches(lines, qlow).len() <= k {
            all_matches(lines, qlow)
        } else {
            all_matches(lines, qlow).take(k as int)
        },
        first_matches(lines, qlow, k).len() == vstd::math::min(
            k as int,
            all_matches(lines, qlow).len() as int,
        ),
    decreases lines.len(),
{
    if lines.len() == 0 {
    } else if k == 0 {
        assert(all_matches(lines, qlow).take(0) =~= Seq::<Seq<char>>::empty());
    } else if line_matches(lines[0], qlow) {
        lemma_first_matches_take(lines.drop_first(), qlow, (k - 1) as nat);
        let restall = all_matches(lines.drop_first(), qlow);
        if restall.len() > k - 1 {
            assert((seq![lines[0]] + restall).take(k as int) =~= seq![lines[0]] + restall.take(
                k - 1,
            ));
        }
    } else {
        lemma_first_matches_take(lines.drop_first(), qlow, k);
    }
}

/// A document in which no line matches contributes nothing, whatever the
/// cap.
pub proof fn lemma_first_matches_empty(lines: Seq<Seq<char>>, qlow: Seq<char>, k: nat)
    requires
        forall|i: int| 0 <= i < lines.len() ==> !line_matches(#[trigger] lines[i], qlow),
    ensures
        first_matches(lines, qlow, k) == Seq::<Seq<char>>::empty(),
    decreases lines.len(),
{
    if lines.len() == 0 || k == 0 {
    } else {
        assert(!line_matches(lines[0], qlow));
        assert forall|i: int| 0 <= i < lines.drop_first().len() implies !line_matches(
            #[trigger] lines.drop_first()[i],
            qlow,
        ) by {
            assert(lines.drop_first()[i] == lines[i + 1]);
        }
        lemma_first_matches_empty(lines.drop_first(), qlow, k);
    }
}

/// What one document contributes to a search: nothing, or its name with
/// its first at-most-five matching lines.
pub open spec fn doc_entry(name: Seq<char>, text: Seq<char>, qlow: Seq<char>) -> Seq<
    (Seq<char>, Seq<Seq<char>>),
> {
    let m = first_matches(lines_spec(text), qlow, 5);
    if m.len() > 0 {
        seq![(name, m)]
    } else {
        Seq::empty()
    }
}

/// The whole search result: the documents in their declared order, each
/// with its matching lines.
pub open spec fn search_spec(sv: StoreView, qlow: Seq<char>) -> Seq<(Seq<char>, Seq<Seq<char>>)> {
    doc_entry("resume"@, sv.resume, qlow) + doc_entry("bio"@, sv.bio, qlow) + doc_entry(
        "projects"@,
        sv.projects,
        qlow,
    ) + doc_entry("contact"@, sv.contact, qlow) + doc_entry("skills"@, sv.skills, qlow) + doc_entry(
        "work"@,
        sv.work,
        qlow,
    ) + doc_entry("tennis"@, sv.tennis, qlow)
}

/// Search is insensitive to the case of the query: queries with the same
/// lowercase form select the same documents and lines, and when anything
/// matches, the formatted report is the same as well.
pub proof fn lemma_search_case_insensitive(sv: StoreView, q1: Seq<char>, q2: Seq<char>)
    requires
        lower_of(q1) == lower_of(q2),
    ensures
        search_spec(sv, lower_of(q1)) == search_spec(sv, lower_of(q2)),
        search_spec(sv, lower_of(q1)).len() > 0 ==> search_output_spec(sv, q1)
            == search_output_spec(sv, q2),
{
}

/// A query whose lowercase form matches no line of any document yields
/// the "no matches" message, on this call and every other.
pub proof fn lemma_search_no_matches(sv: StoreView, q: Seq<char>)
    requires
        forall|j: int, i: int|
            0 <= j < 7 && 0 <= i < lines_spec(doc_text(sv, j)).len() ==> !line_matches(
                #[trigger] lines_spec(doc_text(sv, j))[i],
                lower_of(q),
            ),
    ensures
        search_spec(sv, lower_of(q)) == Seq::<(Seq<char>, Seq<Seq<char>>)>::empty(),
        search_output_spec(sv, q) == no_matches_msg(q),
{
    assert forall|j: int| 0 <= j < 7 implies first_matches(
        lines_spec(doc_text(sv, j)),
        lower_of(q),
        5,
    ) == Seq::<Seq<char>>::empty() by {
        lemma_first_matches_empty(lines_spec(doc_text(sv, j)), lower_of(q), 5);
    }
    assert(doc_text(sv, 0) == sv.resume);
    assert(doc_text(sv, 1) == sv.bio);
    assert(doc_text(sv, 2) == sv.projects);
    assert(doc_text(sv, 3) == sv.contact);
    assert(doc_text(sv, 4) == sv.skills);
    assert(doc_text(sv, 5) == sv.work);
    assert(doc_text(sv, 6) == sv.tennis);
    assert(search_spec(sv, lower_of(q)) =~= Seq::<(Seq<char>, Seq<Seq<char>>)>::empty());
}

/// The first at-most-five matching lines of one document.
fn doc_matches(text: &str, qlow: &Vec<char>) -> (m: Vec<String>)
    ensures
        m.deep_view() == first_matches(lines_spec(text@), qlow@, 5),
{
    let tv = chars_vec(text);
    let lines = split_lines(&tv);
    let ghost ls = lines_spec(text@);
    let mut out: Vec<String> = Vec::new();
    let mut i: usize = 0;
    proof {
        assert(ls.skip(0) =~= ls);
        assert(out.deep_view() =~= Seq::<Seq<char>>::empty());
        assert(first_matches(ls, qlow@, 5) =~= out.deep_view() + first_matches(
            ls.skip(0),
            qlow@,
            5,
        ));
    }
    while i < lines.len() && out.len() < 5
        invariant
            lines@.len() == ls.len(),
            forall|j: int| 0 <= j < lines@.len() ==> #[trigger] lines@[j]@ == ls[j],
            i <= lines@.len(),
            out.deep_view().len() == out@.len() <= 5,
            first_matches(ls, qlow@, 5) == out.deep_view() + first_matches(
                ls.skip(i as int),
                qlow@,
                (5 - out@.len()) as nat,
            ),
        decreases lines@.len() - i,
    {
        let ghost rest = ls.skip(i as int);
        let ghost k = (5 - out@.len()) as nat;
        let line_str = chars_to_string(&lines[i]);
        let low = to_lower(line_str.as_str());
        let lowv = chars_vec(low.as_str());
        let matched = contains_sub(&lowv, qlow);
        proof {
            assert(rest[0] == ls[i as int]);
            assert(rest.drop_first() =~= ls.skip(i + 1));
            assert(matched == line_matches(ls[i as int], qlow@));
        }
        if matched {
            let ghost old_deep = out.deep_view();
            out.push(line_str);
            proof {
                assert(out.deep_view() =~= old_deep.push(ls[i as int]));
                assert(first_matches(rest, qlow@, k) == seq![rest[0]] + first_matches(
                    rest.drop_first(),
                    qlow@,
                    (k - 1) as nat,
                ));
                assert(out.deep_view() + first_matches(ls.skip(i + 1), qlow@, (5
                    - out@.len()) as nat) =~= old_deep + first_matches(rest, qlow@, k));
            }
        } else {
            proof {
                assert(first_matches(rest, qlow@, k) == first_matches(
                    rest.drop_first(),
                    qlow@,
                    k,
                ));
            }
        }
        i += 1;
    }
    proof {
        let rest = ls.skip(i as int);
        let k = (5 - out@.len()) as nat;
        if out@.len() == 5 {
            assert(first_matches(rest, qlow@, k) == Seq::<Seq<char>>::empty());
        } else {
            assert(i == lines@.len());
            assert(rest =~= Seq::<Seq<char>>::empty());
            assert(first_matches(rest, qlow@, k) == Seq::<Seq<char>>::empty());
        }
        assert(out.deep_view() =~= out.deep_view() + first_matches(rest, qlow@, k));
    }
    out
}

/// Append one document's contribution to the running results.
fn push_doc(
    r: &mut Vec<(String, Vec<String>)>,
    name: &str,
    text: &str,
    qlow: &Vec<char>,
)
    ensures
        final(r).deep_view() == old(r).deep_view() + doc_entry(name@, text@, qlow@),
{
    let ghost before = r.deep_view();
    let m = doc_matches(text, qlow);
    if m.len() > 0 {
        proof {
            assert(m.deep_view().len() == m@.len());
        }
        r.push((String::from_str(name), m));
        proof {
            assert(r.deep_view() =~= before + doc_entry(name@, text@, qlow@));
        }
    } else {
        proof {
            assert(m.deep_view().len() == m@.len());
            assert(r.deep_view() =~= before + doc_entry(name@, text@, qlow@));
        }
    }
}

impl ContentStore {
    /// Search every registered document for the query, case-insensitively,
    /// and keep at most the first five matching lines per document. An
    /// empty query matches every line, since the empty string is a
    /// substring of everything: the result then lists every document that
    /// has at least one line.
    pub fn search_resources(&self, query: &str) -> (r: Vec<(String, Vec<String>)>)
        ensures
            r.deep_view() == search_spec(self@, lower_of(query@)),
    {
        let qs = to_lower(query);
        let qlow = chars_vec(qs.as_str());
        let mut r: Vec<(String, Vec<String>)> = Vec::new();
        proof {
            assert(r.deep_view() =~= Seq::<(Seq<char>, Seq<Seq<char>>)>::empty());
        }
        push_doc(&mut r, "resume", self.resume().as_str(), &qlow);
        push_doc(&mut r, "bio", self.bio().as_str(), &qlow);
        push_doc(&mut r, "projects", self.projects().as_str(), &qlow);
        push_doc(&mut r, "contact", self.contact().as_str(), &qlow);
        push_doc(&mut r, "skills", self.skills().as_str(), &qlow);
        push_doc(&mut r, "work", self.work().as_str(), &qlow);
        push_doc(&mut r, "tennis", self.tennis().as_str(), &qlow);
        proof {
            assert(r.deep_view() =~= search_spec(self@, lower_of(query@)));
        }
        r
    }
}

/// The bullet items for one document's matching lines: each line trimmed,
/// behind an indented dash.
pub open spec fn bullets(lines: Seq<Seq<char>>) -> Seq<Seq<char>>
    decreases lines.len(),
{
    if lines.len() == 0 {
        Seq::empty()
    } else {
        bullets(lines.drop_last()).push("  - "@ + trim_spec(lines.last()))
    }
}

/// The output items for one document: a heading with the capitalized
/// name, then one bullet per matching line.
pub open spec fn doc_items(name: Seq<char>, lines: Seq<Seq<char>>) -> Seq<Seq<char>> {
    seq!["## "@ + capitalize_spec(name)] + bullets(lines)
}

/// The output items of the whole result list, in order.
pub open spec fn all_items(results: Seq<(Seq<char>, Seq<Seq<char>>)>) -> Seq<Seq<char>>
    decreases results.len(),
{
    if results.len() == 0 {
        Seq::empty()
    } else {
        all_items(results.drop_last()) + doc_items(results.last().0, results.last().1)
    }
}

/// The message reported when nothing matched.
pub open spec fn no_matches_msg(q: Seq<char>) -> Seq<char> {
    "No matches found for '"@ + q + "'"@
}

/// The formatted search report for a result list.
pub open spec fn format_spec(results: Seq<(Seq<char>, Seq<Seq<char>>)>, q: Seq<char>) -> Seq<
    char,
> {
    if results.len() == 0 {
        no_matches_msg(q)
    } else {
        join_nl(all_items(results))
    }
}

/// The full output of a search for `q`: search, then format.
pub open spec fn search_output_spec(sv: StoreView, q: Seq<char>) -> Seq<char> {
    format_spec(search_spec(sv, lower_of(q)), q)
}

/// Format a search result list as the user-facing report.
pub fn format_results(results: &Vec<(String, Vec<String>)>, query: &str) -> (r: String)
    ensures
        r@ == format_spec(results.deep_view(), query@),
{
    if results.len() == 0 {
        let mut msg = String::from_str("No matches found for '");
        msg.append(query);
        msg.append("'");
        return msg;
    }
    let ghost rs = results.deep_view();
    let mut items: Vec<String> = Vec::new();
    let mut i: usize = 0;
    proof {
        assert(rs.take(0) =~= Seq::<(Seq<char>, Seq<Seq<char>>)>::empty());
        assert(items.deep_view() =~= all_items(rs.take(0)));
    }
    while i < results.len()
        invariant
            rs == results.deep_view(),
            rs.len() == results@.len(),
            i <= results@.len(),
            items.deep_view() == all_items(rs.take(i as int)),
        decreases results@.len() - i,
    {
        let name = &results[i].0;
        let lines = &results[i].1;
        let ghost entry = rs[i as int];
        proof {
            assert(entry.0 == name@);
            assert(entry.1 == lines.deep_view());
        }
        let mut heading = String::from_str("## ");
        let cap = capitalize(name.as_str());
        heading.append(cap.as_str());
        let ghost before = items.deep_view();
        items.push(heading);
        proof {
            assert(entry.1.take(0) =~= Seq::<Seq<char>>::empty());
            assert(items.deep_view() =~= before + seq!["## "@ + capitalize_spec(entry.0)]
                + bullets(entry.1.take(0)));
        }
        let mut j: usize = 0;
        while j < lines.len()
            invariant
                rs == results.deep_view(),
                rs.len() == results@.len(),
                i < results@.len(),
                entry == rs[i as int],
                entry.1 == lines.deep_view(),
                lines.deep_view().len() == lines@.len(),
                j <= lines@.len(),
                before == all_items(rs.take(i as int)),
                items.deep_view() == before + seq!["## "@ + capitalize_spec(entry.0)] + bullets(
                    entry.1.take(j as int),
                ),
            decreases lines@.len() - j,
        {
            let mut b = String::from_str("  - ");
            let t = trim(lines[j].as_str());
            b.append(t.as_str());
            let ghost ideep = items.deep_view();
            let ghost bview = b@;
            items.push(b);
            proof {
                assert(entry.1.take(j + 1).drop_last() =~= entry.1.take(j as int));
                assert(entry.1.take(j + 1).last() == lines@[j as int]@);
                assert(bullets(entry.1.take(j + 1)) == bullets(entry.1.take(j as int)).push(
                    "  - "@ + trim_spec(lines@[j as int]@),
                ));
                assert(items.deep_view() =~= ideep.push(bview));
                assert(ideep.push(bview) =~= before + seq!["## "@ + capitalize_spec(entry.0)]
                    + bullets(entry.1.take(j + 1)));
            }
            j += 1;
        }
        proof {
            assert(entry.1.take(lines@.len() as int) =~= entry.1);
            assert(rs.take(i + 1).drop_last() =~= rs.take(i as int));
            assert(rs.take(i + 1).last() == entry);
            assert(all_items(rs.take(i + 1)) == all_items(rs.take(i as int)) + doc_items(
                entry.0,
                entry.1,
            ));
            assert(items.deep_view() =~= all_items(rs.take(i + 1)));
        }
        i += 1;
    }
    proof {
        assert(rs.take(results@.len() as int) =~= rs);
    }
    join_lines(&items)
}

} // verus!
