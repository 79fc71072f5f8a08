//! Backups of the server directory: how an archive is named, what is read
//! back from the name of an archive, and the order of the listing.

use crate::decimal::{
    decimal, format_i64, lemma_decimal_characters, lemma_parse_decimal_round_trip, parse_decimal,
    parse_i64,
};
use crate::lex::{
    lemma_lex_irreflexive, lemma_lex_total, lemma_lex_transitive, lex_lt, text_before,
};
use vstd::prelude::*;
use vstd::relations::injective_on;
use vstd::set_lib::{lemma_int_range, lemma_map_size, lemma_subset_equality, set_int_range};
use vstd::utf8::encode_utf8;

verus! {

/// A backup as the user interface sees it.
#[derive(Debug, Clone, PartialEq, Eq)]
pub struct Backup {
    pub id: String,
    pub name: String,
    pub created_at: String,
    pub size: u64,
}

/// The character between the parts of the name of an archive.
pub const SEPARATOR: char = '_';

/// The place of the first separator in `s`, or the length of `s` if it
/// holds none.
pub open spec fn first_separator(s: Seq<char>) -> int
    decreases s.len(),
{
    if s.len() == 0 {
        0
    } else if s[0] == SEPARATOR {
        0
    } else {
        1 + first_separator(s.skip(1))
    }
}

/// What stands before the first separator of `s`: all of `s` if it holds
/// no separator.
pub open spec fn stem_head(s: Seq<char>) -> Seq<char> {
    s.take(first_separator(s))
}

/// What stands behind the first separator of `s`: nothing if it holds no
/// separator.
pub open spec fn stem_name(s: Seq<char>) -> Seq<char> {
    if first_separator(s) < s.len() {
        s.skip(first_separator(s) + 1)
    } else {
        Seq::empty()
    }
}

/// The identifier of the backup made at second `timestamp` of the epoch
/// under `name`: the second in decimal, a separator, the name.
pub open spec fn id_text(timestamp: i64, name: Seq<char>) -> Seq<char> {
    decimal(timestamp as int).push(SEPARATOR) + name
}

/// The first separator is where a separator stands with none before it.
proof fn lemma_first_separator(s: Seq<char>, k: int)
    requires
        0 <= k <= s.len(),
        forall|j: int| 0 <= j < k ==> s[j] != SEPARATOR,
        k < s.len() ==> s[k] == SEPARATOR,
    ensures
        first_separator(s) == k,
    decreases s.len(),
{
    if s.len() > 0 && k > 0 {
        assert(s[0] != SEPARATOR);
        let rest = s.skip(1);
        assert forall|j: int| 0 <= j < k - 1 implies rest[j] != SEPARATOR by {
            assert(rest[j] == s[j + 1]);
        }
        lemma_first_separator(rest, k - 1);
    }
}

/// The identifier of a backup gives back the second and the name it was
/// made from, whatever the name holds.
pub proof fn lemma_id_round_trip(timestamp: i64, name: Seq<char>)
    ensures
        parse_i64(stem_head(id_text(timestamp, name))) == Some(timestamp),
        stem_name(id_text(timestamp, name)) == name,
{
    let head = decimal(timestamp as int);
    let id = id_text(timestamp, name);
    lemma_decimal_characters(timestamp as int);
    assert forall|j: int| 0 <= j < head.len() implies id[j] != SEPARATOR by {
        assert(id[j] == head[j]);
    }
    assert(id[head.len() as int] == SEPARATOR);
    lemma_first_separator(id, head.len() as int);
    assert(id.take(head.len() as int) == head);
    assert(id.skip(head.len() as int + 1) == name);
    lemma_parse_decimal_round_trip(timestamp);
}

/// Builds the identifier of a backup.
pub fn backup_id(timestamp: i64, name: &str) -> (id: String)
    ensures
        id@ == id_text(timestamp, name@),
{
    let mut id = format_i64(timestamp);
    id.push(SEPARATOR);
    id.append(name);
    id
}

/// The name of a backup for which the user gave none: `backup_` and the
/// stamp of the moment.
pub fn default_name(stamp: &str) -> (name: String)
    ensures
        name@ == "backup_"@ + stamp@,
{
    let mut name = "backup_".to_owned();
    name.append(stamp);
    name
}

/// The file name of the archive of the backup `id`.
pub fn archive_file_name(id: &str) -> (file_name: String)
    ensures
        file_name@ == id@ + ".zip"@,
{
    let mut file_name = id.to_owned();
    file_name.append(".zip");
    file_name
}

/// Splits the stem of an archive's file name at its first separator.
pub fn split_stem(stem: &str) -> (parts: (String, String))
    ensures
        parts.0@ == stem_head(stem@),
        parts.1@ == stem_name(stem@),
{
    let mut head = String::new();
    let mut name = String::new();
    let mut found = false;
    let ghost mut at: int = 0;
    for c in it: stem.chars()
        invariant
            it.seq() == stem@,
            !found ==> {
                &&& head@ == stem@.take(it.index() as int)
                &&& name@ == Seq::<char>::empty()
                &&& forall|j: int| 0 <= j < it.index() ==> stem@[j] != SEPARATOR
            },
            found ==> {
                &&& 0 <= at < it.index()
                &&& first_separator(stem@) == at
                &&& head@ == stem@.take(at)
                &&& name@ == stem@.subrange(at + 1, it.index() as int)
            },
    {
        let ghost i = it.index() as int;
        if found {
            name.push(c);
            assert(stem@.subrange(at + 1, i + 1) == stem@.subrange(at + 1, i).push(c));
        } else if c == SEPARATOR {
            found = true;
            proof {
                at = i;
                lemma_first_separator(stem@, i);
                assert(stem@.subrange(i + 1, i + 1) == Seq::<char>::empty());
            }
        } else {
            head.push(c);
            assert(stem@.take(i + 1) == stem@.take(i).push(c));
        }
    }
    proof {
        if found {
            assert(stem@.subrange(at + 1, stem@.len() as int) == stem@.skip(at + 1));
        } else {
            lemma_first_separator(stem@, stem@.len() as int);
        }
    }
    (head, name)
}

/// What is prepared before the archive of a backup is written.
#[derive(Debug, Clone, PartialEq, Eq)]
pub struct BackupPlan {
    pub id: String,
    pub name: String,
    pub file_name: String,
}

/// Names a backup to be made at second `timestamp` of the epoch. `name` is
/// the name that the user gave, if any; `stamp` is the moment as it is
/// shown in a default name.
pub fn plan_backup(name: Option<String>, timestamp: i64, stamp: &str) -> (plan: BackupPlan)
    ensures
        plan.name@ == match name {
            Some(given) => given@,
            None => "backup_"@ + stamp@,
        },
        plan.id@ == id_text(timestamp, plan.name@),
        plan.file_name@ == plan.id@ + ".zip"@,
{
    let name = match name {
        Some(given) => given,
        None => default_name(stamp),
    };
    let id = backup_id(timestamp, name.as_str());
    let file_name = archive_file_name(id.as_str());
    BackupPlan { id, name, file_name }
}

/// The date and time of second `secs` of the epoch in UTC, written as
/// RFC 3339 asks; nothing for a second that the calendar of the time
/// library does not reach.
pub uninterp spec fn rfc3339_of_timestamp(secs: i64) -> Option<Seq<char>>;

/// A text that may be missing, by its characters.
pub open spec fn text_view(text: Option<String>) -> Option<Seq<char>> {
    match text {
        Some(text) => Some(text@),
        None => None,
    }
}

/// `chrono::DateTime::from_timestamp` with no nanoseconds, written with
/// `to_rfc3339`. The first gives nothing for a second out of its range;
/// the second writes every moment that the first gives. The text depends
/// on the second alone. The contract is not proved: it gives the result
/// of the outside functions its name.
#[verifier::external_body]
fn timestamp_rfc3339(secs: i64) -> (text: Option<String>)
    ensures
        text_view(text) == rfc3339_of_timestamp(secs),
{
    match chrono::DateTime::from_timestamp(secs, 0) {
        Some(moment) => Some(moment.to_rfc3339()),
        None => None,
    }
}

/// The moment shown for a listed archive: the written time of the second
/// in front of its name, or `now` where there is none.
pub fn time_or_now(written: Option<String>, now: &str) -> (shown: String)
    ensures
        shown@ == match written {
            Some(text) => text@,
            None => now@,
        },
{
    match written {
        Some(text) => text,
        None => now.to_owned(),
    }
}

/// The creation time shown for the archive with the stem `stem`: the time
/// of the second that stands before the first separator; `now` if no
/// number stands there or the number is no second of the calendar.
pub open spec fn listing_time(stem: Seq<char>, now: Seq<char>) -> Seq<char> {
    match parse_i64(stem_head(stem)) {
        Some(secs) => match rfc3339_of_timestamp(secs) {
            Some(text) => text,
            None => now,
        },
        None => now,
    }
}

/// The backup that the archive with the stem `stem` and `size` bytes is
/// listed as. `now` is the current moment, written as RFC 3339 asks.
pub fn listed_backup(stem: String, size: u64, now: &str) -> (backup: Backup)
    ensures
        backup.id == stem,
        backup.name@ == stem_name(stem@),
        backup.created_at@ == listing_time(stem@, now@),
        backup.size == size,
{
    let (head, name) = split_stem(stem.as_str());
    let written = match parse_decimal(head.as_str()) {
        Some(secs) => timestamp_rfc3339(secs),
        None => None,
    };
    let created_at = time_or_now(written, now);
    Backup { id: stem, name, created_at, size }
}

/// The bytes by which backups are ordered: those of the creation time.
pub open spec fn order_key(backup: Backup) -> Seq<u8> {
    encode_utf8(backup.created_at@)
}

/// The backup at place `i` of `list` is listed before the one at place
/// `j`: its creation time comes later in the order of texts, or the two
/// times are the same and `i` is the earlier place.
pub open spec fn listed_before(list: Seq<Backup>, i: int, j: int) -> bool {
    lex_lt(order_key(list[j]), order_key(list[i])) || (order_key(list[i]) == order_key(list[j])
        && i < j)
}

/// `after` is `before` in the order of the listing, and `from` gives for
/// each place of `after` the place in `before` that its backup came from:
/// newer backups stand before older ones, and backups of the same time
/// keep the order they had.
pub open spec fn newest_first(before: Seq<Backup>, after: Seq<Backup>, from: Seq<int>) -> bool {
    &&& after.len() == before.len()
    &&& from.len() == before.len()
    &&& forall|i: int|
        0 <= i < after.len() ==> 0 <= #[trigger] from[i] < before.len() && after[i]
            == before[from[i]]
    &&& forall|i: int, j: int|
        0 <= i < j < after.len() ==> listed_before(before, #[trigger] from[i], #[trigger] from[j])
}

/// Of two different places of a list one is listed before the other, and
/// never both; no place is listed before itself.
proof fn lemma_listed_before_orders(list: Seq<Backup>, i: int, j: int)
    ensures
        !listed_before(list, i, i),
        !(listed_before(list, i, j) && listed_before(list, j, i)),
        i != j ==> listed_before(list, i, j) || listed_before(list, j, i),
{
    lemma_lex_irreflexive(order_key(list[i]));
    lemma_lex_irreflexive(order_key(list[j]));
    lemma_lex_total(order_key(list[i]), order_key(list[j]));
}

/// In a listing every place of the list it was made from is used.
proof fn lemma_every_place_listed(before: Seq<Backup>, after: Seq<Backup>, from: Seq<int>, x: int)
    requires
        newest_first(before, after, from),
        0 <= x < before.len(),
    ensures
        exists|i: int| 0 <= i < from.len() && #[trigger] from[i] == x,
{
    let n = before.len() as int;
    let places = set_int_range(0, n);
    let f = |i: int| from[i];
    let used = places.map(f);
    lemma_int_range(0, n);
    assert(injective_on(f, places)) by {
        assert forall|i: int, j: int|
            places.contains(i) && places.contains(j) && #[trigger] f(i) == #[trigger] f(
                j,
            ) implies i == j by {
            lemma_listed_before_orders(before, from[i], from[j]);
            if i < j {
                assert(listed_before(before, from[i], from[j]));
            } else if j < i {
                assert(listed_before(before, from[j], from[i]));
            }
        }
    }
    lemma_map_size(places, used, f);
    assert(used.subset_of(places)) by {
        assert forall|y: int| used.contains(y) implies places.contains(y) by {
            let i = choose|i: int| places.contains(i) && y == f(i);
            assert(0 <= from[i] < n);
        }
    }
    lemma_subset_equality(used, places);
    assert(places.contains(x));
    assert(used.contains(x));
    let i = choose|i: int| places.contains(i) && x == f(i);
    assert(0 <= i < from.len() && from[i] == x);
}

/// Two listings of one list take their first `k` backups from the same
/// places.
proof fn lemma_listings_agree(
    before: Seq<Backup>,
    a: Seq<Backup>,
    p: Seq<int>,
    b: Seq<Backup>,
    q: Seq<int>,
    k: int,
)
    requires
        newest_first(before, a, p),
        newest_first(before, b, q),
        0 <= k <= before.len(),
    ensures
        forall|i: int| 0 <= i < k ==> p[i] == q[i],
    decreases k,
{
    if k > 0 {
        lemma_listings_agree(before, a, p, b, q, k - 1);
        let i = k - 1;
        if p[i] != q[i] {
            lemma_listed_before_orders(before, p[i], q[i]);
            lemma_listed_before_orders(before, q[i], p[i]);
            if listed_before(before, p[i], q[i]) {
                lemma_every_place_listed(before, b, q, p[i]);
                let j = choose|j: int| 0 <= j < q.len() && #[trigger] q[j] == p[i];
                if j < i {
                    assert(p[j] == q[j]);
                    assert(listed_before(before, p[j], p[i]));
                } else {
                    assert(listed_before(before, q[i], q[j]));
                }
            } else {
                lemma_every_place_listed(before, a, p, q[i]);
                let j = choose|j: int| 0 <= j < p.len() && #[trigger] p[j] == q[i];
                if j < i {
                    assert(p[j] == q[j]);
                    assert(listed_before(before, q[j], q[i]));
                } else {
                    assert(listed_before(before, p[i], p[j]));
                }
            }
        }
    }
}

/// A list has one listing only: the order of the listing leaves no
/// choice, neither of the backups nor of the places they come from.
pub proof fn lemma_listing_is_unique(
    before: Seq<Backup>,
    a: Seq<Backup>,
    p: Seq<int>,
    b: Seq<Backup>,
    q: Seq<int>,
)
    requires
        newest_first(before, a, p),
        newest_first(before, b, q),
    ensures
        a == b,
        p == q,
{
    lemma_listings_agree(before, a, p, b, q, before.len() as int);
    assert(p =~= q);
    assert forall|i: int| 0 <= i < a.len() implies a[i] == b[i] by {
        assert(a[i] == before[p[i]]);
        assert(b[i] == before[q[i]]);
    }
    assert(a =~= b);
}

/// Taking the element at place `k` out and putting it in at place `pos`
/// before it moves the elements between the two places up by one.
proof fn lemma_moved<A>(s: Seq<A>, k: int, pos: int)
    requires
        0 <= pos <= k < s.len(),
    ensures
        s.remove(k).insert(pos, s[k]).len() == s.len(),
        forall|i: int| 0 <= i < pos ==> #[trigger] s.remove(k).insert(pos, s[k])[i] == s[i],
        s.remove(k).insert(pos, s[k])[pos] == s[k],
        forall|i: int|
            pos < i <= k ==> #[trigger] s.remove(k).insert(pos, s[k])[i] == s[i - 1],
        forall|i: int|
            k < i < s.len() ==> #[trigger] s.remove(k).insert(pos, s[k])[i] == s[i],
{
}

/// Puts the backups into the order of the listing: newest first, backups
/// of the same time in the order they came in.
pub fn sort_newest_first(list: &mut Vec<Backup>)
    ensures
        exists|from: Seq<int>| newest_first(old(list)@, final(list)@, from),
{
    let ghost orig = list@;
    let ghost mut from: Seq<int> = Seq::new(list@.len(), |i: int| i);
    let mut k: usize = 0;
    while k < list.len()
        invariant
            list@.len() == orig.len(),
            from.len() == orig.len(),
            k <= list@.len(),
            forall|i: int|
                0 <= i < orig.len() ==> 0 <= #[trigger] from[i] < orig.len() && list@[i]
                    == orig[from[i]],
            forall|i: int| k <= i < orig.len() ==> #[trigger] from[i] == i,
            forall|i: int| 0 <= i < k ==> #[trigger] from[i] < k,
            forall|i: int, j: int|
                0 <= i < j < k ==> listed_before(orig, #[trigger] from[i], #[trigger] from[j]),
        decreases list@.len() - k,
    {
        let mut pos: usize = 0;
        while pos < k
            invariant_except_break
                pos <= k,
            invariant
                k < list@.len(),
                forall|i: int|
                    0 <= i < pos ==> !lex_lt(order_key(#[trigger] list@[i]), order_key(list@[k as int])),
            ensures
                pos <= k,
                pos < k ==> lex_lt(order_key(list@[pos as int]), order_key(list@[k as int])),
            decreases k - pos,
        {
            if text_before(list[pos].created_at.as_str(), list[k].created_at.as_str()) {
                break;
            }
            pos += 1;
        }
        let ghost prev = list@;
        let ghost prev_from = from;
        let moved = list.remove(k);
        list.insert(pos, moved);
        proof {
            from = prev_from.remove(k as int).insert(pos as int, k as int);
            lemma_moved(prev, k as int, pos as int);
            lemma_moved(prev_from, k as int, pos as int);
            assert forall|i: int, j: int| 0 <= i < j < k + 1 implies listed_before(
                orig,
                #[trigger] from[i],
                #[trigger] from[j],
            ) by {
                let x = order_key(prev[k as int]);
                if j == pos {
                    assert(from[i] == prev_from[i]);
                    assert(!lex_lt(order_key(prev[i]), x));
                    lemma_lex_total(order_key(prev[i]), x);
                } else if i == pos {
                    let y = order_key(prev[pos as int]);
                    let z = order_key(prev[j - 1]);
                    assert(from[j] == prev_from[j - 1]);
                    assert(lex_lt(y, x));
                    if j - 1 > pos {
                        assert(listed_before(orig, prev_from[pos as int], prev_from[j - 1]));
                        if lex_lt(z, y) {
                            lemma_lex_transitive(z, y, x);
                        }
                    }
                } else {
                    let a = if i < pos { i } else { i - 1 };
                    let b = if j < pos { j } else { j - 1 };
                    assert(from[i] == prev_from[a]);
                    assert(from[j] == prev_from[b]);
                    assert(listed_before(orig, prev_from[a], prev_from[b]));
                }
            }
        }
        k += 1;
    }
    assert(newest_first(orig, list@, from));
}

} // verus!
