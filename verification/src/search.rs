use vstd::prelude::*;
use crate::item::Item;

verus! {

/// Whether `raw`, wrapped in one capture group, compiles as a
/// case-insensitive pattern. Names the success of
/// `regex::RegexBuilder::build`, a function of the pattern text alone.
pub uninterp spec fn pattern_ok(raw: Seq<char>) -> bool;

/// Whether the case-insensitive pattern compiled from `raw` matches
/// somewhere inside `text`. Names the result of `regex::Regex::is_match`,
/// a function of pattern text and haystack alone.
pub uninterp spec fn pattern_matches(raw: Seq<char>, text: Seq<char>) -> bool;

#[verifier::external_type_specification]
#[verifier::external_body]
pub struct ExRegex(regex::Regex);

/// A compiled search pattern: the raw text the user typed, kept beside the
/// case-insensitive matcher compiled from it.
///
/// The fields are private: a `Query` can only be made by [`compile_query`],
/// which guarantees that the matcher really was compiled from the text the
/// view reports.
pub struct Query {
    raw: String,
    pattern: regex::Regex,
}

impl View for Query {
    type V = Seq<char>;

    closed spec fn view(&self) -> Seq<char> {
        self.raw@
    }
}

impl Query {
    /// The raw text this query was compiled from.
    pub fn text(&self) -> (s: &String)
        ensures
            s@ == self@,
    {
        &self.raw
    }
}

/// Compile `raw` as a case-insensitive pattern, grouped as `(raw)` so the
/// whole query highlights as one match. Returns `None` exactly when the
/// text is not a well-formed pattern.
///
/// Relies on `regex::RegexBuilder::build` with `case_insensitive(true)`:
/// compilation is deterministic in the pattern text, and the built matcher
/// is stored beside the text it came from.
#[verifier::external_body]
pub fn compile_query(raw: &str) -> (r: Option<Query>)
    ensures
        r is Some <==> pattern_ok(raw@),
        r matches Some(q) ==> q@ == raw@,
{
    let grouped = format!("({})", raw);
    match regex::RegexBuilder::new(&grouped).case_insensitive(true).build() {
        Ok(pattern) => Some(Query { raw: raw.to_string(), pattern }),
        Err(_) => None,
    }
}

/// Whether the committed pattern matches anywhere in `text`.
///
/// Relies on `regex::Regex::is_match`: the answer is a function of the
/// pattern text and the haystack alone.
#[verifier::external_body]
pub fn query_matches(q: &Query, text: &str) -> (r: bool)
    ensures
        r == pattern_matches(q@, text@),
{
    q.pattern.is_match(text)
}

/// Whether an item's title matches the pattern text `raw`: items without a
/// title never match.
pub open spec fn title_matches(raw: Seq<char>, it: Item) -> bool {
    match it.title {
        Some(t) => pattern_matches(raw, t@),
        None => false,
    }
}

/// The match positions of `q` over the titles of `items`: every index whose
/// item's title matches, in ascending order.
pub fn search_titles(q: &Query, items: &Vec<Item>) -> (r: Vec<usize>)
    ensures
        forall|a: int, b: int| 0 <= a < b < r@.len() ==> r@[a] < r@[b],
        forall|j: int| 0 <= j < items@.len()
            ==> (r@.contains(j as usize) <==> title_matches(q@, items@[j])),
        forall|a: int| 0 <= a < r@.len() ==> r@[a] < items@.len(),
    {
    let mut r: Vec<usize> = Vec::new();
    let mut i: usize = 0;
    while i < items.len()
        invariant
            i <= items@.len(),
            forall|a: int, b: int| 0 <= a < b < r@.len() ==> r@[a] < r@[b],
            forall|a: int| 0 <= a < r@.len() ==> r@[a] < i,
            forall|j: int| 0 <= j < i
                ==> (r@.contains(j as usize) <==> title_matches(q@, items@[j])),
        decreases items@.len() - i,
    {
        let hit: bool = match &items[i].title {
            Some(t) => query_matches(q, t.as_str()),
            None => false,
        };
        let ghost prev = r@;
        if hit {
            r.push(i);
        }
        proof {
            assert forall|j: int| 0 <= j <= i implies
                (r@.contains(j as usize) <==> title_matches(q@, items@[j])) by {
                if prev.contains(j as usize) {
                    let k = choose|k: int| 0 <= k < prev.len() && prev[k] == j as usize;
                    assert(r@[k] == j as usize);
                    assert(r@.contains(j as usize));
                }
                if r@.contains(j as usize) && j < i {
                    let k = choose|k: int| 0 <= k < r@.len() && r@[k] == j as usize;
                    assert(k < prev.len());
                    assert(prev.contains(j as usize));
                }
                if hit && j == i {
                    assert(r@[r@.len() - 1] == i as usize);
                    assert(r@.contains(i as usize));
                }
                if !hit && j == i {
                    assert(!r@.contains(i as usize)) by {
                        if r@.contains(i as usize) {
                            let k = choose|k: int| 0 <= k < r@.len() && r@[k] == i as usize;
                            assert(r@[k] < i);
                        }
                    }
                }
            }
        }
        i = i + 1;
    }
    r
}

/// The sequence is strictly increasing left to right.
pub open spec fn strictly_ascending(s: Seq<usize>) -> bool {
    forall|a: int, b: int| 0 <= a < b < s.len() ==> s[a] < s[b]
}

/// The first entry of `results` strictly greater than `cur`; meaningful
/// only when one exists.
pub open spec fn first_above(results: Seq<usize>, cur: usize) -> usize
    decreases results.len(),
{
    if results.len() == 0 {
        0usize
    } else if results[0] > cur {
        results[0]
    } else {
        first_above(results.drop_first(), cur)
    }
}

/// The last entry of `results` strictly less than `cur`; meaningful only
/// when one exists.
pub open spec fn last_below(results: Seq<usize>, cur: usize) -> usize
    decreases results.len(),
{
    if results.len() == 0 {
        0usize
    } else if results[results.len() - 1] < cur {
        results[results.len() - 1]
    } else {
        last_below(results.drop_last(), cur)
    }
}

/// Where a forward jump through the match positions lands: the first match
/// after the current selection, wrapping to the first match from the last
/// one or from no selection at all.
pub open spec fn next_target(results: Seq<usize>, sel: Option<usize>) -> usize
    recommends
        results.len() > 0,
{
    match sel {
        Some(i) => if i >= results[results.len() - 1] {
            results[0]
        } else {
            first_above(results, i)
        },
        None => results[0],
    }
}

/// Where a backward jump through the match positions lands: the last match
/// before the current selection, wrapping to the last match from the first
/// one; with no selection it lands on the first match.
pub open spec fn prev_target(results: Seq<usize>, sel: Option<usize>) -> usize
    recommends
        results.len() > 0,
{
    match sel {
        Some(i) => if i <= results[0] {
            results[results.len() - 1]
        } else {
            last_below(results, i)
        },
        None => results[0],
    }
}

/// `first_above` picks the entry at `k` when everything before `k` is at or
/// below `cur` and the entry at `k` is above it.
pub proof fn lemma_first_above_at(results: Seq<usize>, cur: usize, k: int)
    requires
        0 <= k < results.len(),
        results[k] > cur,
        forall|m: int| 0 <= m < k ==> results[m] <= cur,
    ensures
        first_above(results, cur) == results[k],
    decreases k,
{
    if k == 0 {
    } else {
        assert(results[0] <= cur);
        assert(forall|m: int| 0 <= m < k - 1 ==> results.drop_first()[m] == results[m + 1]);
        lemma_first_above_at(results.drop_first(), cur, k - 1);
        assert(results.drop_first()[k - 1] == results[k]);
    }
}

/// `last_below` picks the entry at `k` when everything after `k` is at or
/// above `cur` and the entry at `k` is below it.
pub proof fn lemma_last_below_at(results: Seq<usize>, cur: usize, k: int)
    requires
        0 <= k < results.len(),
        results[k] < cur,
        forall|m: int| k < m < results.len() ==> results[m] >= cur,
    ensures
        last_below(results, cur) == results[k],
    decreases results.len(),
{
    let n = results.len() as int;
    if k == n - 1 {
    } else {
        assert(results[n - 1] >= cur);
        assert(forall|m: int| 0 <= m < n - 1 ==> results.drop_last()[m] == results[m]);
        lemma_last_below_at(results.drop_last(), cur, k);
    }
}

/// The two jump targets are mutually inverse up to wraparound: starting
/// from any committed match position, jumping to the next match and then
/// to the previous one — or the other way round — returns to the start.
pub proof fn lemma_jump_round_trip(results: Seq<usize>, i: usize)
    requires
        results.len() >= 2,
        strictly_ascending(results),
        results.contains(i),
    ensures
        prev_target(results, Some(next_target(results, Some(i)))) == i,
        next_target(results, Some(prev_target(results, Some(i)))) == i,
{
    let n = results.len() as int;
    let idx = choose|idx: int| 0 <= idx < n && results[idx] == i;

    // next, then previous
    if idx == n - 1 {
        assert(next_target(results, Some(i)) == results[0]);
        assert(prev_target(results, Some(results[0])) == results[n - 1]);
    } else {
        assert(results[idx] < results[n - 1]);
        lemma_first_above_at(results, i, idx + 1);
        let nx = results[idx + 1];
        assert(next_target(results, Some(i)) == nx);
        assert(results[0] < nx);
        lemma_last_below_at(results, nx, idx);
        assert(prev_target(results, Some(nx)) == i);
    }

    // previous, then next
    if idx == 0 {
        assert(prev_target(results, Some(i)) == results[n - 1]);
        assert(next_target(results, Some(results[n - 1])) == results[0]);
    } else {
        assert(results[0] < results[idx]);
        lemma_last_below_at(results, i, idx - 1);
        let pv = results[idx - 1];
        assert(prev_target(results, Some(i)) == pv);
        assert(pv < results[n - 1]);
        lemma_first_above_at(results, pv, idx);
        assert(next_target(results, Some(pv)) == i);
    }
}

} // verus!
