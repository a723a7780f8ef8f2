//! What holds of the header resolver for every pair of header rows and every
//! query.

use vstd::prelude::*;
use crate::resolve::{
    ascending, column_matches, folded, header_matches, matches_in_order, matching_columns, pick,
    resolve, width, MatchFailure, ResolveFailure,
};
use crate::text::lowercase;

verus! {

/// Whether `order` lists each of the columns `0, .., width - 1` exactly once,
/// and nothing else.
pub open spec fn visits_each_column_once(order: Seq<int>, width: nat) -> bool {
    &&& order.no_duplicates()
    &&& forall|k: int| 0 <= k < order.len() ==> 0 <= #[trigger] order[k] < width
    &&& forall|c: int| 0 <= c < width ==> order.contains(c)
}

/// A scan keeps exactly the matching columns of its order, and keeps none
/// twice where the order lists none twice.
pub proof fn lemma_matches_in_order(
    order: Seq<int>,
    types: Seq<Seq<char>>,
    series: Seq<Seq<char>>,
    query: Seq<char>,
    wanted: Seq<char>,
)
    ensures
        forall|c: int|
            #![trigger matches_in_order(order, types, series, query, wanted).contains(c)]
            #![trigger order.contains(c)]
            matches_in_order(order, types, series, query, wanted).contains(c) <==> order.contains(c)
                && column_matches(types, series, query, wanted, c),
        order.no_duplicates() ==> matches_in_order(
            order,
            types,
            series,
            query,
            wanted,
        ).no_duplicates(),
    decreases order.len(),
{
    let found = matches_in_order(order, types, series, query, wanted);
    if order.len() > 0 {
        let rest = order.drop_last();
        let last = order.last();
        let before = matches_in_order(rest, types, series, query, wanted);
        lemma_matches_in_order(rest, types, series, query, wanted);
        assert(order =~= rest.push(last));
        assert forall|c: int| #[trigger] order.contains(c) <==> rest.contains(c) || c == last by {
            lemma_contains_push(rest, last, c);
        }
        if column_matches(types, series, query, wanted, last) {
            assert(found == before.push(last));
            assert forall|c: int| #[trigger] found.contains(c) <==> before.contains(c) || c == last by {
                lemma_contains_push(before, last, c);
            }
            if order.no_duplicates() {
                assert(rest.no_duplicates());
                assert(!rest.contains(last)) by {
                    if rest.contains(last) {
                        let k = choose|k: int| 0 <= k < rest.len() && rest[k] == last;
                        assert(order[k] == order[order.len() - 1]);
                    }
                }
                assert(!before.contains(last));
                assert forall|a: int, b: int|
                    0 <= a < found.len() && 0 <= b < found.len() && a != b implies found[a]
                    != found[b] by {
                    if a == found.len() - 1 {
                        assert(before.contains(before[b]));
                    } else if b == found.len() - 1 {
                        assert(before.contains(before[a]));
                    } else {
                        assert(before[a] != before[b]);
                    }
                }
            }
        } else {
            assert(found == before);
            if order.no_duplicates() {
                assert(rest.no_duplicates());
            }
        }
    } else {
        assert(found =~= Seq::<int>::empty());
    }
}

/// A sequence with one more item at its end holds what it held before, and
/// that item.
proof fn lemma_contains_push(s: Seq<int>, last: int, c: int)
    ensures
        s.push(last).contains(c) <==> s.contains(c) || c == last,
{
    let t = s.push(last);
    if t.contains(c) {
        let k = choose|k: int| 0 <= k < t.len() && t[k] == c;
        if k < s.len() {
            assert(s[k] == c);
        }
    }
    if s.contains(c) {
        let k = choose|k: int| 0 <= k < s.len() && s[k] == c;
        assert(t[k] == c);
    }
    if c == last {
        assert(t[t.len() - 1] == c);
    }
}

/// Whether each item of `s` is smaller than the items after it.
pub open spec fn strictly_ascending(s: Seq<int>) -> bool {
    forall|a: int, b: int| 0 <= a < b < s.len() ==> s[a] < s[b]
}

/// An ascending scan of the first `n` columns lists its matches in strictly
/// ascending order, all of them below `n`.
proof fn lemma_ascending_scan(
    types: Seq<Seq<char>>,
    series: Seq<Seq<char>>,
    query: Seq<char>,
    wanted: Seq<char>,
    n: nat,
)
    ensures
        strictly_ascending(matches_in_order(ascending(n), types, series, query, wanted)),
        forall|a: int|
            0 <= a < matches_in_order(ascending(n), types, series, query, wanted).len() ==> 0
                <= #[trigger] matches_in_order(ascending(n), types, series, query, wanted)[a] < n,
    decreases n,
{
    let found = matches_in_order(ascending(n), types, series, query, wanted);
    if n > 0 {
        let before = matches_in_order(ascending((n - 1) as nat), types, series, query, wanted);
        assert(ascending(n).drop_last() == ascending((n - 1) as nat));
        assert(ascending(n).last() == n - 1);
        lemma_ascending_scan(types, series, query, wanted, (n - 1) as nat);
        if column_matches(types, series, query, wanted, n - 1) {
            assert(found == before.push(n - 1));
            assert forall|a: int, b: int| 0 <= a < b < found.len() implies found[a] < found[b] by {
                if b == found.len() - 1 {
                    assert(found[a] == before[a]);
                } else {
                    assert(before[a] < before[b]);
                }
            }
        } else {
            assert(found == before);
        }
    }
}

/// The list of matching columns holds exactly the columns that match, each
/// once, in strictly ascending order.
pub proof fn lemma_matching_columns_exact(
    types: Seq<Seq<char>>,
    series: Seq<Seq<char>>,
    query: Seq<char>,
    wanted: Seq<char>,
)
    ensures
        forall|c: int|
            #![trigger matching_columns(types, series, query, wanted).contains(c)]
            #![trigger column_matches(types, series, query, wanted, c)]
            matching_columns(types, series, query, wanted).contains(c) <==> column_matches(
                types,
                series,
                query,
                wanted,
                c,
            ),
        strictly_ascending(matching_columns(types, series, query, wanted)),
{
    let n = width(types, series);
    let found = matching_columns(types, series, query, wanted);
    lemma_matches_in_order(ascending(n), types, series, query, wanted);
    lemma_ascending_scan(types, series, query, wanted, n);
    assert forall|c: int| found.contains(c) <==> column_matches(
        types,
        series,
        query,
        wanted,
        c,
    ) by {
        if column_matches(types, series, query, wanted, c) {
            assert(ascending(n)[c] == c);
            assert(ascending(n).contains(c));
        }
    }
}

/// The search fails as not found exactly when no column matches, and as
/// ambiguous exactly when two different columns match; the ambiguous failure
/// lists the matching columns, all of them, in ascending order.
pub proof fn lemma_failures_by_match_count(
    types: Seq<Seq<char>>,
    series: Seq<Seq<char>>,
    query: Seq<char>,
    wanted: Seq<char>,
)
    ensures
        (forall|c: int| !column_matches(types, series, query, wanted, c)) <==> pick(
            types,
            series,
            query,
            wanted,
        ) == Err::<int, MatchFailure>(MatchFailure::NotFound),
        (exists|c: int, d: int|
            c != d && column_matches(types, series, query, wanted, c) && column_matches(
                types,
                series,
                query,
                wanted,
                d,
            )) <==> pick(types, series, query, wanted) == Err::<int, MatchFailure>(
            MatchFailure::Ambiguous { indices: matching_columns(types, series, query, wanted) },
        ),
{
    let found = matching_columns(types, series, query, wanted);
    lemma_matching_columns_exact(types, series, query, wanted);
    if found.len() == 0 {
        assert forall|c: int| !column_matches(types, series, query, wanted, c) by {
            assert(!found.contains(c));
        }
    } else {
        assert(found.contains(found[0]));
    }
    if found.len() >= 2 {
        assert(found.contains(found[0]));
        assert(found.contains(found[1]));
        assert(found[0] < found[1]);
    } else {
        assert forall|c: int, d: int|
            column_matches(types, series, query, wanted, c) && column_matches(
                types,
                series,
                query,
                wanted,
                d,
            ) implies c == d by {
            assert(found.contains(c));
            assert(found.contains(d));
        }
    }
}

/// Where exactly one column matches, the search yields that column.
pub proof fn lemma_unique_match_resolves(
    types: Seq<Seq<char>>,
    series: Seq<Seq<char>>,
    query: Seq<char>,
    wanted: Seq<char>,
    i: int,
)
    requires
        column_matches(types, series, query, wanted, i),
        forall|c: int| column_matches(types, series, query, wanted, c) ==> c == i,
    ensures
        pick(types, series, query, wanted) == Ok::<int, MatchFailure>(i),
{
    let found = matching_columns(types, series, query, wanted);
    lemma_matching_columns_exact(types, series, query, wanted);
    assert(found.contains(i));
    if found.len() >= 2 {
        assert(found.contains(found[0]));
        assert(found.contains(found[1]));
        assert(found[0] < found[1]);
    }
    assert(found.contains(found[0]));
}

/// The column that the search yields does not depend on the order in which
/// the columns are scanned: where exactly one column matches, a scan that
/// visits each column once, in whatever order, finds that column and no other.
pub proof fn lemma_scan_order_is_irrelevant(
    order: Seq<int>,
    types: Seq<Seq<char>>,
    series: Seq<Seq<char>>,
    query: Seq<char>,
    wanted: Seq<char>,
)
    requires
        visits_each_column_once(order, width(types, series)),
        matching_columns(types, series, query, wanted).len() == 1,
    ensures
        matches_in_order(order, types, series, query, wanted) == matching_columns(
            types,
            series,
            query,
            wanted,
        ),
        pick(types, series, query, wanted) == Ok::<int, MatchFailure>(
            matches_in_order(order, types, series, query, wanted)[0],
        ),
{
    let found = matching_columns(types, series, query, wanted);
    let scanned = matches_in_order(order, types, series, query, wanted);
    let i = found[0];
    lemma_matching_columns_exact(types, series, query, wanted);
    lemma_matches_in_order(order, types, series, query, wanted);
    assert(found.contains(i));
    assert(scanned.contains(i));
    assert forall|k: int| 0 <= k < scanned.len() implies scanned[k] == i by {
        assert(scanned.contains(scanned[k]));
        assert(found.contains(scanned[k]));
        let j = choose|j: int| 0 <= j < found.len() && found[j] == scanned[k];
        assert(j == 0);
    }
    if scanned.len() >= 2 {
        assert(scanned[0] == scanned[1]);
    }
    assert(scanned =~= found);
}

/// Resolution of header rows and a query as they are written goes by the
/// number of columns that match: it yields the column where one matches, and
/// fails as not found where none does and as ambiguous where several do. Each
/// failure names the type tag and the series text that were asked for, and
/// the ambiguous one lists every matching column, in ascending order.
pub proof fn lemma_resolve_by_match_count(
    types: Seq<Seq<char>>,
    series: Seq<Seq<char>>,
    query: Seq<char>,
    wanted: Seq<char>,
)
    ensures
        (forall|c: int| !header_matches(types, series, query, wanted, c)) <==> resolve(
            types,
            series,
            query,
            wanted,
        ) == Err::<int, ResolveFailure>(
            ResolveFailure {
                wanted_type: wanted,
                series_query: query,
                cause: MatchFailure::NotFound,
            },
        ),
        (exists|c: int, d: int|
            c != d && header_matches(types, series, query, wanted, c) && header_matches(
                types,
                series,
                query,
                wanted,
                d,
            )) <==> resolve(types, series, query, wanted) == Err::<int, ResolveFailure>(
            ResolveFailure {
                wanted_type: wanted,
                series_query: query,
                cause: MatchFailure::Ambiguous {
                    indices: matching_columns(types, folded(series), lowercase(query), wanted),
                },
            },
        ),
        forall|i: int|
            #[trigger] header_matches(types, series, query, wanted, i) && (forall|c: int|
                header_matches(types, series, query, wanted, c) ==> c == i) ==> resolve(
                types,
                series,
                query,
                wanted,
            ) == Ok::<int, ResolveFailure>(i),
        resolve(types, series, query, wanted) matches Ok(i) ==> header_matches(
            types,
            series,
            query,
            wanted,
            i,
        ) && forall|c: int| header_matches(types, series, query, wanted, c) ==> c == i,
{
    let lower = folded(series);
    let q = lowercase(query);
    let found = matching_columns(types, lower, q, wanted);
    lemma_failures_by_match_count(types, lower, q, wanted);
    lemma_matching_columns_exact(types, lower, q, wanted);
    let none_written = forall|c: int| !header_matches(types, series, query, wanted, c);
    let none_folded = forall|c: int| !column_matches(types, lower, q, wanted, c);
    assert(none_written <==> none_folded) by {
        if none_written {
            assert forall|c: int| !column_matches(types, lower, q, wanted, c) by {
                assert(!header_matches(types, series, query, wanted, c));
            }
        }
        if none_folded {
            assert forall|c: int| !header_matches(types, series, query, wanted, c) by {
                assert(!column_matches(types, lower, q, wanted, c));
            }
        }
    }
    let two_written = exists|c: int, d: int|
        c != d && header_matches(types, series, query, wanted, c) && header_matches(
            types,
            series,
            query,
            wanted,
            d,
        );
    let two_folded = exists|c: int, d: int|
        c != d && column_matches(types, lower, q, wanted, c) && column_matches(
            types,
            lower,
            q,
            wanted,
            d,
        );
    assert(two_written <==> two_folded) by {
        if two_written {
            let (c, d) = choose|c: int, d: int|
                c != d && header_matches(types, series, query, wanted, c) && header_matches(
                    types,
                    series,
                    query,
                    wanted,
                    d,
                );
            assert(c != d && column_matches(types, lower, q, wanted, c) && column_matches(
                types,
                lower,
                q,
                wanted,
                d,
            ));
        }
        if two_folded {
            let (c, d) = choose|c: int, d: int|
                c != d && column_matches(types, lower, q, wanted, c) && column_matches(
                    types,
                    lower,
                    q,
                    wanted,
                    d,
                );
            assert(c != d && header_matches(types, series, query, wanted, c) && header_matches(
                types,
                series,
                query,
                wanted,
                d,
            ));
        }
    }
    assert forall|i: int|
        #[trigger] header_matches(types, series, query, wanted, i) && (forall|c: int|
            header_matches(types, series, query, wanted, c) ==> c == i) implies resolve(
        types,
        series,
        query,
        wanted,
    ) == Ok::<int, ResolveFailure>(i) by {
        assert forall|c: int| column_matches(types, lower, q, wanted, c) implies c == i by {
            assert(header_matches(types, series, query, wanted, c));
        }
        lemma_unique_match_resolves(types, lower, q, wanted, i);
    }
    if let Ok(i) = resolve(types, series, query, wanted) {
        assert(found.len() == 1 && found[0] == i);
        assert(found.contains(i));
        assert forall|c: int| header_matches(types, series, query, wanted, c) implies c == i by {
            assert(found.contains(c));
        }
    }
}

} // verus!
