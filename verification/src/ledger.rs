//! The ledger of active rooms: one string of room identifiers, separated by
//! commas, the most recently bumped identifier last.
//!
//! The string is read as a sequence of fields, the pieces between two
//! separators. A field may be empty (a stray separator); the entries of the
//! ledger are its fields that are not.

use crate::ledger::laws::{lemma_bump_moves_to_end, lemma_tokens_are_ids};
use crate::text::chars_of;
use vstd::prelude::*;
use vstd::string::*;

pub mod laws;

verus! {

/// The separator between two entries of the ledger.
pub open spec fn sep() -> char {
    ','
}

/// An identifier that the ledger can hold: not empty, and free of separators.
pub open spec fn is_id(id: Seq<char>) -> bool {
    id.len() > 0 && !id.contains(sep())
}

/// The fields of `s`: the pieces between its separators, in order. There is
/// always one field more than there are separators, so the empty string has
/// one empty field.
pub open spec fn fields(s: Seq<char>) -> Seq<Seq<char>>
    decreases s.len(),
{
    if s.len() == 0 {
        seq![Seq::<char>::empty()]
    } else {
        let before = fields(s.drop_last());
        if s.last() == sep() {
            before.push(Seq::<char>::empty())
        } else {
            before.drop_last().push(before.last().push(s.last()))
        }
    }
}

/// The fields `f` written as one string, a separator between each two.
pub open spec fn join(f: Seq<Seq<char>>) -> Seq<char>
    decreases f.len(),
{
    if f.len() == 0 {
        Seq::<char>::empty()
    } else if f.len() == 1 {
        f[0]
    } else {
        join(f.drop_last()) + seq![sep()] + f.last()
    }
}

/// The test that a field passes when it is not empty.
pub open spec fn kept() -> spec_fn(Seq<char>) -> bool {
    |t: Seq<char>| t.len() > 0
}

/// The fields of `f` that are not empty, in order.
pub open spec fn solid(f: Seq<Seq<char>>) -> Seq<Seq<char>> {
    f.filter(kept())
}

/// The entries of the ledger `s`: its fields that are not empty.
pub open spec fn tokens(s: Seq<char>) -> Seq<Seq<char>> {
    solid(fields(s))
}

/// The ledger `csv` once its first field equal to `id` is taken out, with
/// one of the separators beside it.
pub open spec fn without(csv: Seq<char>, id: Seq<char>) -> Seq<char> {
    join(fields(csv).remove_value(id))
}

/// The ledger `csv` after `id` was bumped: the first field equal to `id` is
/// taken out, and `id` is put at the end, after a separator unless nothing
/// else is left.
pub open spec fn bumped(csv: Seq<char>, id: Seq<char>) -> Seq<char> {
    let rest = without(csv, id);
    if rest.len() == 0 {
        id
    } else {
        rest + seq![sep()] + id
    }
}

/// A ledger as the invariant wants it: no stray separator and no entry twice.
pub open spec fn is_ledger(csv: Seq<char>) -> bool {
    &&& csv == join(tokens(csv))
    &&& tokens(csv).no_duplicates()
}

/// Every field is free of separators.
pub open spec fn all_plain(f: Seq<Seq<char>>) -> bool {
    forall|i: int| 0 <= i < f.len() ==> !(#[trigger] f[i]).contains(sep())
}

/// Every entry of `ids` is an identifier.
pub open spec fn all_ids(ids: Seq<Seq<char>>) -> bool {
    forall|i: int| 0 <= i < ids.len() ==> is_id(#[trigger] ids[i])
}

// ---------------------------------------------------------------------
// Fields and join
// ---------------------------------------------------------------------

/// A string has at least one field, and no field holds a separator.
pub proof fn lemma_fields_plain(s: Seq<char>)
    ensures
        fields(s).len() >= 1,
        all_plain(fields(s)),
    decreases s.len(),
{
    if s.len() > 0 {
        lemma_fields_plain(s.drop_last());
        let before = fields(s.drop_last());
        if s.last() != sep() {
            let grown = before.last().push(s.last());
            assert forall|i: int| 0 <= i < fields(s).len() implies !(#[trigger] fields(s)[i]).contains(sep()) by {
                if i == before.len() - 1 {
                    assert(fields(s)[i] == grown);
                    if grown.contains(sep()) {
                        let j = choose|j: int| 0 <= j < grown.len() && grown[j] == sep();
                        if j < before.last().len() {
                            assert(before.last()[j] == sep());
                            assert(before.last().contains(sep()));
                        }
                    }
                } else {
                    assert(fields(s)[i] == before[i]);
                }
            }
        } else {
            assert forall|i: int| 0 <= i < fields(s).len() implies !(#[trigger] fields(s)[i]).contains(sep()) by {
                if i < before.len() {
                    assert(fields(s)[i] == before[i]);
                }
            }
        }
    }
}

/// Joining the fields of a string gives the string back.
pub proof fn lemma_join_fields(s: Seq<char>)
    ensures
        join(fields(s)) == s,
    decreases s.len(),
{
    if s.len() == 0 {
        assert(join(fields(s)) =~= s);
    } else {
        lemma_join_fields(s.drop_last());
        lemma_fields_plain(s.drop_last());
        let before = fields(s.drop_last());
        if s.last() == sep() {
            let f = before.push(Seq::<char>::empty());
            assert(f.drop_last() =~= before);
            assert(join(f) =~= s);
        } else {
            let grown = before.last().push(s.last());
            let f = before.drop_last().push(grown);
            assert(f.drop_last() =~= before.drop_last());
            if before.len() == 1 {
                assert(join(before) == before[0]);
                assert(f.len() == 1 && f[0] == grown);
                assert(grown =~= s);
            } else {
                assert(join(before) == join(before.drop_last()) + seq![sep()] + before.last());
                assert(f.len() >= 2 && f.last() == grown);
                assert(join(f) == join(before.drop_last()) + seq![sep()] + grown);
                assert(join(before.drop_last()) + seq![sep()] + grown =~= (join(
                    before.drop_last(),
                ) + seq![sep()] + before.last()).push(s.last()));
                assert(s.drop_last().push(s.last()) =~= s);
            }
        }
    }
}

/// A field without separators is its own only field.
pub proof fn lemma_fields_of_plain(t: Seq<char>)
    requires
        !t.contains(sep()),
    ensures
        fields(t) == seq![t],
    decreases t.len(),
{
    if t.len() == 0 {
        assert(t =~= Seq::<char>::empty());
    } else {
        assert(t[t.len() - 1] != sep());
        assert(!t.drop_last().contains(sep())) by {
            if t.drop_last().contains(sep()) {
                let j = choose|j: int| 0 <= j < t.drop_last().len() && t.drop_last()[j] == sep();
                assert(t[j] == sep());
            }
        }
        lemma_fields_of_plain(t.drop_last());
        assert(t.drop_last().push(t.last()) =~= t);
        assert(fields(t) =~= seq![t]);
    }
}

/// The fields of two strings set beside each other with a separator between
/// them are the fields of the one followed by the fields of the other.
pub proof fn lemma_fields_concat(a: Seq<char>, b: Seq<char>)
    ensures
        fields(a + seq![sep()] + b) == fields(a) + fields(b),
    decreases b.len(),
{
    let s = a + seq![sep()] + b;
    if b.len() == 0 {
        assert(s.drop_last() =~= a);
        assert(fields(s) =~= fields(a) + fields(b));
    } else {
        lemma_fields_concat(a, b.drop_last());
        lemma_fields_plain(b.drop_last());
        assert(s.drop_last() =~= a + seq![sep()] + b.drop_last());
        assert(s.last() == b.last());
        assert(fields(s) =~= fields(a) + fields(b));
    }
}

/// Fields without separators, at least one of them, are the fields of their
/// join.
pub proof fn lemma_fields_join(f: Seq<Seq<char>>)
    requires
        f.len() >= 1,
        all_plain(f),
    ensures
        fields(join(f)) == f,
    decreases f.len(),
{
    if f.len() == 1 {
        lemma_fields_of_plain(f[0]);
        assert(seq![f[0]] =~= f);
    } else {
        assert(all_plain(f.drop_last())) by {
            assert forall|i: int| 0 <= i < f.drop_last().len() implies !(#[trigger] f.drop_last()[i]).contains(sep()) by {
                assert(f.drop_last()[i] == f[i]);
            }
        }
        lemma_fields_join(f.drop_last());
        lemma_fields_concat(join(f.drop_last()), f.last());
        lemma_fields_of_plain(f.last());
        assert(f.drop_last() + seq![f.last()] =~= f);
    }
}

/// The join of two runs of fields, neither of them empty.
pub proof fn lemma_join_concat(a: Seq<Seq<char>>, b: Seq<Seq<char>>)
    requires
        a.len() >= 1,
        b.len() >= 1,
    ensures
        join(a + b) == join(a) + seq![sep()] + join(b),
    decreases b.len(),
{
    if b.len() == 1 {
        assert((a + b).drop_last() =~= a);
        assert((a + b).last() == b[0]);
    } else {
        lemma_join_concat(a, b.drop_last());
        assert((a + b).drop_last() =~= a + b.drop_last());
        assert((a + b).last() == b.last());
        assert(join(a + b) =~= join(a) + seq![sep()] + join(b));
    }
}

// ---------------------------------------------------------------------
// Taking one field out
// ---------------------------------------------------------------------

/// Where field `k` of `f` begins in `join(f)`.
pub open spec fn offset(f: Seq<Seq<char>>, k: int) -> int {
    if k <= 0 {
        0
    } else {
        join(f.take(k)).len() as int + 1
    }
}

/// A piece `x` that stands between two separators, after `a` and before
/// `b`: where it is found, and what cutting it out with the separator
/// behind it leaves.
proof fn lemma_cut_middle(a: Seq<char>, x: Seq<char>, b: Seq<char>)
    ensures
        ({
            let s = a + seq![sep()] + x + seq![sep()] + b;
            let p = a.len() as int + 1;
            let e = p + x.len() as int;
            &&& s.len() == a.len() + x.len() + b.len() + 2
            &&& s.subrange(p, e) == x
            &&& s[p - 1] == sep()
            &&& s[e] == sep()
            &&& s.subrange(0, p) + s.subrange(e + 1, s.len() as int) == a + seq![sep()] + b
        }),
{
    let s = a + seq![sep()] + x + seq![sep()] + b;
    let p = a.len() as int + 1;
    let e = p + x.len() as int;
    assert(s.subrange(p, e) =~= x);
    assert(s.subrange(0, p) + s.subrange(e + 1, s.len() as int) =~= a + seq![sep()] + b);
}

/// A piece `x` at the start, before a separator and `b`.
proof fn lemma_cut_first(x: Seq<char>, b: Seq<char>)
    ensures
        ({
            let s = x + seq![sep()] + b;
            let e = x.len() as int;
            &&& s.len() == x.len() + b.len() + 1
            &&& s.subrange(0, e) == x
            &&& s[e] == sep()
            &&& s.subrange(0, 0) + s.subrange(e + 1, s.len() as int) == b
        }),
{
    let s = x + seq![sep()] + b;
    let e = x.len() as int;
    assert(s.subrange(0, e) =~= x);
    assert(s.subrange(0, 0) + s.subrange(e + 1, s.len() as int) =~= b);
}

/// A piece `x` at the end, after `a` and a separator.
proof fn lemma_cut_last(a: Seq<char>, x: Seq<char>)
    ensures
        ({
            let s = a + seq![sep()] + x;
            let p = a.len() as int + 1;
            &&& s.len() == a.len() + x.len() + 1
            &&& s.subrange(p, s.len() as int) == x
            &&& s[p - 1] == sep()
            &&& s.subrange(0, p - 1) == a
        }),
{
    let s = a + seq![sep()] + x;
    let p = a.len() as int + 1;
    assert(s.subrange(p, s.len() as int) =~= x);
    assert(s.subrange(0, p - 1) =~= a);
}

/// The join of fields as the join of those before field `k`, field `k`,
/// and the join of those behind it; and the join without field `k`.
proof fn lemma_join_around(f: Seq<Seq<char>>, k: int)
    requires
        0 <= k < f.len(),
    ensures
        0 < k < f.len() - 1 ==> join(f) == join(f.take(k)) + seq![sep()] + f[k] + seq![sep()]
            + join(f.skip(k + 1)) && join(f.remove(k)) == join(f.take(k)) + seq![sep()] + join(
            f.skip(k + 1),
        ),
        0 == k < f.len() - 1 ==> join(f) == f[k] + seq![sep()] + join(f.skip(k + 1)) && join(
            f.remove(k),
        ) == join(f.skip(k + 1)),
        0 < k == f.len() - 1 ==> join(f) == join(f.take(k)) + seq![sep()] + f[k] && join(
            f.remove(k),
        ) == join(f.take(k)),
        0 == k == f.len() - 1 ==> join(f) == f[k] && join(f.remove(k)).len() == 0,
{
    let head = f.take(k);
    let tail = f.skip(k + 1);
    let one = seq![f[k]];
    assert(join(one) == f[k]);
    if k == 0 && k == f.len() - 1 {
        assert(f.remove(k) =~= Seq::<Seq<char>>::empty());
    } else if k == 0 {
        assert(f =~= one + tail);
        lemma_join_concat(one, tail);
        assert(f.remove(k) =~= tail);
    } else if k == f.len() - 1 {
        assert(f =~= head + one);
        lemma_join_concat(head, one);
        assert(f.remove(k) =~= head);
    } else {
        assert(f =~= (head + one) + tail);
        lemma_join_concat(head, one);
        lemma_join_concat(head + one, tail);
        assert(f.remove(k) =~= head + tail);
        lemma_join_concat(head, tail);
    }
}

/// What `join(f)` looks like around field `k`, and what is left of it once
/// that field is taken out.
pub proof fn lemma_join_remove(f: Seq<Seq<char>>, k: int)
    requires
        0 <= k < f.len(),
    ensures
        ({
            let s = join(f);
            let p = offset(f, k);
            let e = p + f[k].len();
            &&& 0 <= p <= e <= s.len()
            &&& s.subrange(p, e) == f[k]
            &&& k > 0 ==> s[p - 1] == sep()
            &&& k < f.len() - 1 ==> e < s.len() && s[e] == sep() && join(f.remove(k))
                == s.subrange(0, p) + s.subrange(e + 1, s.len() as int)
            &&& k == f.len() - 1 ==> e == s.len()
            &&& k == f.len() - 1 && k > 0 ==> join(f.remove(k)) == s.subrange(0, p - 1)
            &&& k == f.len() - 1 && k == 0 ==> join(f.remove(k)).len() == 0
        }),
{
    lemma_join_around(f, k);
    let a = join(f.take(k));
    let b = join(f.skip(k + 1));
    if k == 0 && k == f.len() - 1 {
        assert(join(f).subrange(0, f[k].len() as int) =~= f[k]);
    } else if k == 0 {
        lemma_cut_first(f[k], b);
    } else if k == f.len() - 1 {
        lemma_cut_last(a, f[k]);
    } else {
        lemma_cut_middle(a, f[k], b);
    }
}

/// Whether the characters of `csv` from `start` up to `end` are those of `id`.
fn same_range(csv: &Vec<char>, start: usize, end: usize, id: &Vec<char>) -> (r: bool)
    requires
        start <= end <= csv.len(),
    ensures
        r == (csv@.subrange(start as int, end as int) == id@),
{
    if end - start != id.len() {
        return false;
    }
    let mut j: usize = 0;
    while j < id.len()
        invariant
            0 <= j <= id.len(),
            start <= end <= csv.len(),
            end - start == id.len(),
            forall|t: int| 0 <= t < j ==> csv@[start + t] == id@[t],
        decreases id.len() - j,
    {
        if csv[start + j] != id[j] {
            assert(csv@.subrange(start as int, end as int)[j as int] != id@[j as int]);
            return false;
        }
        j += 1;
    }
    assert(csv@.subrange(start as int, end as int) =~= id@);
    true
}

/// The place in `csv` where its first field equal to `id` begins, if it has
/// such a field.
fn find_field(csv: &Vec<char>, id: &Vec<char>) -> (r: Option<usize>)
    ensures
        match r {
            None => !fields(csv@).contains(id@),
            Some(p) => {
                &&& fields(csv@).index_of_first(id@) is Some
                &&& p == offset(fields(csv@), fields(csv@).index_of_first(id@)->0)
            },
        },
{
    let n = csv.len();
    let mut i: usize = 0;
    let mut start: usize = 0;
    let ghost mut k: int = 0;
    while i < n
        invariant
            n == csv.len(),
            0 <= start <= i <= n,
            fields(csv@.take(i as int)).len() == k + 1,
            fields(csv@.take(i as int)).last() == csv@.subrange(start as int, i as int),
            forall|j: int| 0 <= j < k ==> fields(csv@.take(i as int))[j] != id@,
            start == offset(fields(csv@.take(i as int)), k),
        decreases n - i,
    {
        let ghost g = fields(csv@.take(i as int));
        let ghost next = csv@.take(i + 1);
        proof {
            assert(next.drop_last() =~= csv@.take(i as int));
            assert(next.last() == csv@[i as int]);
        }
        if csv[i] == ',' {
            if same_range(csv, start, i, id) {
                proof {
                    let f = fields(csv@);
                    assert(csv@ =~= csv@.take(i as int) + seq![sep()] + csv@.skip(i + 1));
                    lemma_fields_concat(csv@.take(i as int), csv@.skip(i + 1));
                    assert(f[k] == g[k]);
                    assert forall|j: int| 0 <= j < k implies f[j] != id@ by {
                        assert(f[j] == g[j]);
                    }
                    assert(f.take(k) =~= g.take(k));
                    lemma_first_index(f, id@, k);
                }
                return Some(start);
            }
            proof {
                assert(fields(next) == g.push(Seq::<char>::empty()));
                assert(fields(next).take(k + 1) =~= g);
                lemma_join_fields(csv@.take(i as int));
                assert(csv@.subrange(i + 1, i + 1) =~= Seq::<char>::empty());
                assert forall|j: int| 0 <= j < k + 1 implies fields(next)[j] != id@ by {
                    assert(fields(next)[j] == g[j]);
                }
                k = k + 1;
            }
            start = i + 1;
        } else {
            proof {
                let grown = g.last().push(csv@[i as int]);
                assert(fields(next) == g.drop_last().push(grown));
                assert(grown =~= csv@.subrange(start as int, i + 1));
                assert(fields(next).take(k) =~= g.take(k));
                assert forall|j: int| 0 <= j < k implies fields(next)[j] != id@ by {
                    assert(fields(next)[j] == g[j]);
                }
            }
        }
        i += 1;
    }
    proof {
        assert(csv@.take(n as int) =~= csv@);
    }
    if same_range(csv, start, n, id) {
        proof {
            lemma_first_index(fields(csv@), id@, k);
        }
        Some(start)
    } else {
        proof {
            let f = fields(csv@);
            assert forall|j: int| 0 <= j < f.len() implies f[j] != id@ by {}
        }
        None
    }
}

/// The first place of `x` in `f` is the one before which `x` does not occur.
pub proof fn lemma_first_index<A>(f: Seq<A>, x: A, k: int)
    requires
        0 <= k < f.len(),
        f[k] == x,
        forall|j: int| 0 <= j < k ==> f[j] != x,
    ensures
        f.index_of_first(x) == Some(k),
{
    f.index_of_first_ensures(x);
    assert(f.contains(x));
}

/// Bumps `input` in the ledger `csv_string`: takes its first field equal to
/// `input` out, with one separator, and puts `input` at the end. For an
/// identifier this moves its first entry behind all others, or adds it as
/// the last entry where the ledger did not hold it. Only a whole field
/// counts as equal: an identifier that is part of a longer one is not
/// found in it.
pub fn bump_csv(csv_string: &str, input: &str) -> (out: String)
    ensures
        out@ == bumped(csv_string@, input@),
        is_id(input@) ==> tokens(out@) == tokens(csv_string@).remove_value(input@).push(input@),
{
    proof {
        if is_id(input@) {
            lemma_bump_moves_to_end(csv_string@, input@);
        }
    }
    let csv = chars_of(csv_string);
    let id = chars_of(input);
    let n = csv.len();
    let mut rest = match find_field(&csv, &id) {
        None => {
            proof {
                fields(csv@).index_of_first_ensures(id@);
                lemma_join_fields(csv@);
            }
            String::from_str(csv_string)
        },
        Some(p) => {
            proof {
                lemma_join_fields(csv@);
                fields(csv@).index_of_first_ensures(id@);
                lemma_join_remove(fields(csv@), fields(csv@).index_of_first(id@)->0);
            }
            let end = p + id.len();
            if end < n {
                let mut kept = String::from_str(csv_string.substring_char(0, p));
                kept.append(csv_string.substring_char(end + 1, n));
                kept
            } else if p > 0 {
                String::from_str(csv_string.substring_char(0, p - 1))
            } else {
                String::new()
            }
        },
    };
    assert(rest@ =~= without(csv_string@, input@));
    if rest.as_str().is_empty() {
        String::from_str(input)
    } else {
        proof {
            reveal_strlit(",");
            assert(","@ =~= seq![sep()]);
        }
        rest.append(",");
        rest.append(input);
        rest
    }
}

// ---------------------------------------------------------------------
// Reading the entries
// ---------------------------------------------------------------------

/// What one more field adds to the entries.
pub proof fn lemma_solid_push(f: Seq<Seq<char>>, t: Seq<char>)
    ensures
        solid(f.push(t)) == if t.len() > 0 {
            solid(f).push(t)
        } else {
            solid(f)
        },
{
    f.lemma_filter_push(t, kept());
}

/// No fields, no entries.
pub proof fn lemma_solid_empty()
    ensures
        solid(Seq::<Seq<char>>::empty()) == Seq::<Seq<char>>::empty(),
{
    Seq::<Seq<char>>::empty().lemma_filter_len(kept());
    assert(solid(Seq::<Seq<char>>::empty()) =~= Seq::<Seq<char>>::empty());
}

/// The entries of the ledger `csv_string`, in the order in which it holds
/// them: its fields that are not empty. Stray separators are passed over,
/// so that no entry is empty; an entry that the ledger holds twice comes
/// back twice.
pub fn list(csv_string: &str) -> (ids: Vec<String>)
    ensures
        ids.deep_view() == tokens(csv_string@),
        all_ids(ids.deep_view()),
{
    proof {
        lemma_tokens_are_ids(csv_string@);
    }
    let csv = chars_of(csv_string);
    let n = csv.len();
    let mut ids: Vec<String> = Vec::new();
    let mut i: usize = 0;
    let mut start: usize = 0;
    proof {
        lemma_solid_empty();
        assert(csv@.take(0) =~= Seq::<char>::empty());
        assert(fields(csv@.take(0)).drop_last() =~= Seq::<Seq<char>>::empty());
        assert(csv@.subrange(0, 0) =~= Seq::<char>::empty());
        assert(ids.deep_view() =~= Seq::<Seq<char>>::empty());
    }
    while i < n
        invariant
            n == csv.len(),
            csv@ == csv_string@,
            0 <= start <= i <= n,
            fields(csv@.take(i as int)).last() == csv@.subrange(start as int, i as int),
            ids.deep_view() == solid(fields(csv@.take(i as int)).drop_last()),
        decreases n - i,
    {
        let ghost g = fields(csv@.take(i as int));
        let ghost next = csv@.take(i + 1);
        proof {
            assert(next.drop_last() =~= csv@.take(i as int));
            assert(next.last() == csv@[i as int]);
            lemma_fields_plain(csv@.take(i as int));
        }
        if csv[i] == ',' {
            proof {
                assert(fields(next) == g.push(Seq::<char>::empty()));
                assert(fields(next).drop_last() =~= g);
                assert(g =~= g.drop_last().push(g.last()));
                lemma_solid_push(g.drop_last(), g.last());
                assert(csv@.subrange(i + 1, i + 1) =~= Seq::<char>::empty());
            }
            if i > start {
                let id = String::from_str(csv_string.substring_char(start, i));
                let ghost before = ids.deep_view();
                ids.push(id);
                assert(ids.deep_view() =~= before.push(id@));
            }
            start = i + 1;
        } else {
            proof {
                let grown = g.last().push(csv@[i as int]);
                assert(fields(next) == g.drop_last().push(grown));
                assert(grown =~= csv@.subrange(start as int, i + 1));
                assert(fields(next).drop_last() =~= g.drop_last());
            }
        }
        i += 1;
    }
    proof {
        let g = fields(csv@);
        assert(csv@.take(n as int) =~= csv@);
        lemma_fields_plain(csv@);
        assert(g =~= g.drop_last().push(g.last()));
        lemma_solid_push(g.drop_last(), g.last());
    }
    if n > start {
        let id = String::from_str(csv_string.substring_char(start, n));
        let ghost before = ids.deep_view();
        ids.push(id);
        assert(ids.deep_view() =~= before.push(id@));
    }
    ids
}

} // verus!
