//! What holds of the ledger whatever is bumped: bumping moves one entry to
//! the end, a second bump of the same entry changes nothing, and entries
//! stay distinct and never empty.

use crate::ledger::{
    all_ids, all_plain, bumped, fields, is_id, is_ledger, join, kept, lemma_fields_concat,
    lemma_fields_join, lemma_fields_of_plain, lemma_fields_plain, lemma_first_index,
    lemma_solid_empty, lemma_solid_push, sep, solid, tokens, without,
};
use vstd::prelude::*;

verus! {

// ---------------------------------------------------------------------
// Taking the first occurrence out of a sequence
// ---------------------------------------------------------------------

/// Taking out a value that does not occur changes nothing.
pub proof fn lemma_remove_absent<A>(f: Seq<A>, x: A)
    requires
        !f.contains(x),
    ensures
        f.remove_value(x) == f,
{
    f.index_of_first_ensures(x);
}

/// Taking `x` out of a sequence in which it first occurs after `a`.
pub proof fn lemma_remove_first<A>(a: Seq<A>, x: A, b: Seq<A>)
    requires
        !a.contains(x),
    ensures
        (a + seq![x] + b).remove_value(x) == a + b,
{
    let f = a + seq![x] + b;
    let k = a.len() as int;
    assert(f[k] == x);
    assert forall|j: int| 0 <= j < k implies f[j] != x by {
        assert(f[j] == a[j]);
        assert(a.contains(a[j]));
    }
    lemma_first_index(f, x, k);
    assert(f.remove(k) =~= a + b);
}

/// A sequence around the first place of a value that it holds.
pub proof fn lemma_split_at_first<A>(f: Seq<A>, x: A)
    requires
        f.contains(x),
    ensures
        f.index_of_first(x) is Some,
        ({
            let k = f.index_of_first(x)->0;
            &&& 0 <= k < f.len()
            &&& f == f.take(k) + seq![x] + f.skip(k + 1)
            &&& !f.take(k).contains(x)
            &&& f.remove_value(x) == f.take(k) + f.skip(k + 1)
        }),
{
    f.index_of_first_ensures(x);
    let k = f.index_of_first(x)->0;
    assert(f =~= f.take(k) + seq![x] + f.skip(k + 1));
    assert(f.remove(k) =~= f.take(k) + f.skip(k + 1));
    if f.take(k).contains(x) {
        let j = choose|j: int| 0 <= j < f.take(k).len() && f.take(k)[j] == x;
        assert(f[j] == x);
    }
}

/// Where nothing occurs twice, a value that is taken out is gone, and still
/// nothing occurs twice.
pub proof fn lemma_remove_distinct<A>(s: Seq<A>, x: A)
    requires
        s.no_duplicates(),
    ensures
        s.remove_value(x).no_duplicates(),
        !s.remove_value(x).contains(x),
{
    s.index_of_first_ensures(x);
    match s.index_of_first(x) {
        Some(k) => {
            let r = s.remove(k);
            assert forall|i: int| 0 <= i < r.len() implies r[i] == s[if i < k {
                i
            } else {
                i + 1
            }] by {}
            assert forall|i: int, j: int| 0 <= i < r.len() && 0 <= j < r.len() && i != j implies r[i]
                != r[j] by {
                let si = if i < k { i } else { i + 1 };
                let sj = if j < k { j } else { j + 1 };
                assert(r[i] == s[si] && r[j] == s[sj]);
            }
            if r.contains(x) {
                let i = choose|i: int| 0 <= i < r.len() && r[i] == x;
                let si = if i < k { i } else { i + 1 };
                assert(r[i] == s[si]);
                assert(s[si] == s[k]);
            }
        },
        None => {},
    }
}

/// What is left after a value is taken out was there before.
pub proof fn lemma_remove_subset<A>(f: Seq<A>, x: A, i: int)
    requires
        0 <= i < f.remove_value(x).len(),
    ensures
        f.contains(f.remove_value(x)[i]),
        f.remove_value(x).len() + 1 >= f.len(),
{
    f.index_of_first_ensures(x);
    match f.index_of_first(x) {
        Some(k) => {
            let si = if i < k { i } else { i + 1 };
            assert(f.remove(k)[i] == f[si]);
        },
        None => {
            assert(f.remove_value(x)[i] == f[i]);
        },
    }
}

// ---------------------------------------------------------------------
// Entries
// ---------------------------------------------------------------------

/// The entries of one run of fields after another.
pub proof fn lemma_solid_concat(a: Seq<Seq<char>>, b: Seq<Seq<char>>)
    ensures
        solid(a + b) == solid(a) + solid(b),
{
    Seq::filter_distributes_over_add(a, b, kept());
}

/// A field alone is an entry unless it is empty.
pub proof fn lemma_solid_one(t: Seq<char>)
    ensures
        solid(seq![t]) == if t.len() > 0 {
            seq![t]
        } else {
            Seq::<Seq<char>>::empty()
        },
{
    lemma_solid_empty();
    lemma_solid_push(Seq::<Seq<char>>::empty(), t);
    assert(Seq::<Seq<char>>::empty().push(t) =~= seq![t]);
}

/// Fields that are all entries stay as they are.
pub proof fn lemma_solid_all(f: Seq<Seq<char>>)
    requires
        forall|i: int| 0 <= i < f.len() ==> (#[trigger] f[i]).len() > 0,
    ensures
        solid(f) == f,
    decreases f.len(),
{
    if f.len() == 0 {
        lemma_solid_empty();
        assert(f =~= Seq::<Seq<char>>::empty());
    } else {
        assert forall|i: int| 0 <= i < f.drop_last().len() implies (#[trigger] f.drop_last()[i]).len()
            > 0 by {
            assert(f.drop_last()[i] == f[i]);
        }
        lemma_solid_all(f.drop_last());
        lemma_solid_push(f.drop_last(), f.last());
        assert(f.drop_last().push(f.last()) =~= f);
    }
}

/// The entries are what is left of the fields, an entry is never empty and
/// holds no separator.
pub proof fn lemma_tokens_are_ids(csv: Seq<char>)
    ensures
        all_ids(tokens(csv)),
        forall|i: int| 0 <= i < tokens(csv).len() ==> fields(csv).contains(#[trigger] tokens(csv)[i]),
{
    let f = fields(csv);
    let t = tokens(csv);
    lemma_fields_plain(csv);
    assert forall|i: int| 0 <= i < t.len() implies is_id(#[trigger] t[i]) && f.contains(t[i]) by {
        f.lemma_filter_pred(kept(), i);
        assert(t.contains(t[i]));
        f.lemma_filter_contains_rev(kept(), t[i]);
        let j = choose|j: int| 0 <= j < f.len() && f[j] == t[i];
        assert(!f[j].contains(sep()));
    }
}

/// Taking the first field equal to `id` out takes the first entry equal to
/// `id` out.
pub proof fn lemma_solid_remove(f: Seq<Seq<char>>, id: Seq<char>)
    requires
        id.len() > 0,
    ensures
        solid(f.remove_value(id)) == solid(f).remove_value(id),
{
    if f.contains(id) {
        lemma_split_at_first(f, id);
        let k = f.index_of_first(id)->0;
        let a = f.take(k);
        let b = f.skip(k + 1);
        lemma_solid_concat(a + seq![id], b);
        lemma_solid_concat(a, seq![id]);
        lemma_solid_one(id);
        lemma_solid_concat(a, b);
        if solid(a).contains(id) {
            a.lemma_filter_contains_rev(kept(), id);
        }
        lemma_remove_first(solid(a), id, solid(b));
    } else {
        if solid(f).contains(id) {
            f.lemma_filter_contains_rev(kept(), id);
        }
        lemma_remove_absent(f, id);
        lemma_remove_absent(solid(f), id);
    }
}

/// Identifiers written as a ledger are its entries.
pub proof fn lemma_tokens_of_join(ids: Seq<Seq<char>>)
    requires
        all_ids(ids),
    ensures
        tokens(join(ids)) == ids,
        ids.len() > 0 ==> fields(join(ids)) == ids,
        ids.len() > 0 ==> join(ids).len() > 0,
{
    if ids.len() == 0 {
        lemma_solid_one(Seq::<char>::empty());
        assert(fields(join(ids)) =~= seq![Seq::<char>::empty()]);
        assert(ids =~= Seq::<Seq<char>>::empty());
    } else {
        assert(all_plain(ids)) by {
            assert forall|i: int| 0 <= i < ids.len() implies !(#[trigger] ids[i]).contains(sep()) by {
                assert(is_id(ids[i]));
            }
        }
        lemma_fields_join(ids);
        assert forall|i: int| 0 <= i < ids.len() implies (#[trigger] ids[i]).len() > 0 by {
            assert(is_id(ids[i]));
        }
        lemma_solid_all(ids);
        assert(ids.last().len() > 0);
    }
}

/// A separator between two strings sets the entries of the one before the
/// entries of the other.
pub proof fn lemma_tokens_concat(a: Seq<char>, b: Seq<char>)
    ensures
        tokens(a + seq![sep()] + b) == tokens(a) + tokens(b),
{
    lemma_fields_concat(a, b);
    lemma_solid_concat(fields(a), fields(b));
}

/// A separator put at the start of the ledger, at its end or beside another
/// separator changes no entry.
pub proof fn lemma_stray_separator(a: Seq<char>, b: Seq<char>)
    requires
        a.len() == 0 || a.last() == sep() || b.len() == 0 || b.first() == sep(),
    ensures
        tokens(a + seq![sep()] + b) == tokens(a + b),
{
    let none = Seq::<char>::empty();
    lemma_tokens_concat(a, b);
    lemma_solid_one(none);
    assert(tokens(none) =~= Seq::<Seq<char>>::empty());
    if a.len() == 0 {
        assert(a =~= none);
        assert(a + b =~= b);
        assert(tokens(a) + tokens(b) =~= tokens(b));
    } else if a.last() == sep() {
        let front = a.drop_last();
        assert(a =~= front + seq![sep()] + none);
        lemma_tokens_concat(front, none);
        assert(a + b =~= front + seq![sep()] + b);
        lemma_tokens_concat(front, b);
        assert(tokens(front) + tokens(none) =~= tokens(front));
    } else if b.len() == 0 {
        assert(b =~= none);
        assert(a + b =~= a);
        assert(tokens(a) + tokens(b) =~= tokens(a));
    } else {
        let back = b.drop_first();
        assert(b =~= none + seq![sep()] + back);
        lemma_tokens_concat(none, back);
        assert(a + b =~= a + seq![sep()] + back);
        lemma_tokens_concat(a, back);
        assert(tokens(none) + tokens(back) =~= tokens(back));
    }
}

// ---------------------------------------------------------------------
// Bumping
// ---------------------------------------------------------------------

/// What is left of the fields of `csv` once `id` is taken out: fields
/// without separators, whose join has them as its fields unless none is
/// left.
proof fn lemma_rest_fields(csv: Seq<char>, id: Seq<char>)
    ensures
        all_plain(fields(csv).remove_value(id)),
        fields(csv).remove_value(id).len() > 0 ==> fields(without(csv, id)) == fields(
            csv,
        ).remove_value(id),
        fields(csv).remove_value(id).len() == 0 ==> without(csv, id).len() == 0,
{
    let f = fields(csv);
    let rest = f.remove_value(id);
    lemma_fields_plain(csv);
    assert forall|i: int| 0 <= i < rest.len() implies !(#[trigger] rest[i]).contains(sep()) by {
        lemma_remove_subset(f, id, i);
        let j = choose|j: int| 0 <= j < f.len() && f[j] == rest[i];
        assert(!f[j].contains(sep()));
    }
    if rest.len() > 0 {
        lemma_fields_join(rest);
    }
}

/// Bumping an identifier takes its first entry out of the ledger, if it has
/// one, and puts the identifier behind all other entries; stray separators
/// make no difference.
pub proof fn lemma_bump_moves_to_end(csv: Seq<char>, id: Seq<char>)
    requires
        is_id(id),
    ensures
        tokens(bumped(csv, id)) == tokens(csv).remove_value(id).push(id),
{
    let f = fields(csv);
    let left = f.remove_value(id);
    let rest = without(csv, id);
    lemma_rest_fields(csv, id);
    lemma_solid_remove(f, id);
    lemma_fields_of_plain(id);
    lemma_solid_one(id);
    if rest.len() == 0 {
        if left.len() == 0 {
            assert(left =~= Seq::<Seq<char>>::empty());
            lemma_solid_empty();
        } else {
            assert(rest =~= Seq::<char>::empty());
            assert(left =~= seq![Seq::<char>::empty()]);
            lemma_solid_one(Seq::<char>::empty());
        }
        assert(solid(left).push(id) =~= seq![id]);
    } else {
        lemma_fields_concat(rest, id);
        lemma_solid_concat(left, seq![id]);
        assert(solid(left) + seq![id] =~= solid(left).push(id));
    }
}

/// In a ledger of distinct identifiers, bumping one that it holds takes
/// that one entry out and puts it at the end, so that the ledger keeps its
/// length; bumping one that it does not hold makes the ledger longer by
/// that entry. The stored string is again the plain list of the entries.
pub proof fn lemma_bump_of_distinct(ids: Seq<Seq<char>>, id: Seq<char>)
    requires
        ids.len() > 0,
        all_ids(ids),
        ids.no_duplicates(),
        is_id(id),
    ensures
        tokens(bumped(join(ids), id)) == ids.remove_value(id).push(id),
        bumped(join(ids), id) == join(ids.remove_value(id).push(id)),
        ids.contains(id) ==> tokens(bumped(join(ids), id)).len() == ids.len(),
        !ids.contains(id) ==> tokens(bumped(join(ids), id)).len() == ids.len() + 1,
        tokens(bumped(join(ids), id)).no_duplicates(),
        tokens(bumped(join(ids), id)).last() == id,
{
    let csv = join(ids);
    let left = ids.remove_value(id);
    lemma_tokens_of_join(ids);
    lemma_bump_moves_to_end(csv, id);
    ids.index_of_first_ensures(id);
    lemma_remove_distinct(ids, id);
    lemma_push_distinct(left, id);
    assert(all_ids(left)) by {
        assert forall|i: int| 0 <= i < left.len() implies is_id(#[trigger] left[i]) by {
            lemma_remove_subset(ids, id, i);
            let j = choose|j: int| 0 <= j < ids.len() && ids[j] == left[i];
            assert(is_id(ids[j]));
        }
    }
    lemma_tokens_of_join(left);
    if left.len() == 0 {
        assert(left.push(id) =~= seq![id]);
    } else {
        assert(left.push(id).drop_last() =~= left);
    }
}

/// One more value, not held so far, keeps a sequence free of duplicates.
pub proof fn lemma_push_distinct<A>(s: Seq<A>, x: A)
    requires
        s.no_duplicates(),
        !s.contains(x),
    ensures
        s.push(x).no_duplicates(),
{
    assert forall|i: int, j: int|
        0 <= i < s.push(x).len() && 0 <= j < s.push(x).len() && i != j implies s.push(x)[i]
        != s.push(x)[j] by {
        if i < s.len() {
            assert(s.contains(s[i]));
        }
        if j < s.len() {
            assert(s.contains(s[j]));
        }
    }
}

/// Whether, once the first field equal to `id` is taken out of `csv`, no
/// other field follows one that is equal to `id`. It is so wherever `id` is
/// held once at most.
pub open spec fn settled(csv: Seq<char>, id: Seq<char>) -> bool {
    let left = fields(csv).remove_value(id);
    forall|i: int, j: int| 0 <= i <= j < left.len() && left[i] == id ==> left[j] == id
}

/// A ledger that holds `id` once at most is settled for it.
pub proof fn lemma_settled_when_distinct(csv: Seq<char>, id: Seq<char>)
    requires
        is_id(id),
        tokens(csv).no_duplicates(),
    ensures
        settled(csv, id),
{
    let f = fields(csv);
    let left = f.remove_value(id);
    lemma_solid_remove(f, id);
    lemma_remove_distinct(solid(f), id);
    assert forall|i: int| 0 <= i < left.len() implies left[i] != id by {
        if left[i] == id {
            left.lemma_filter_contains(kept(), i);
        }
    }
}

/// Bumping the same identifier a second time, right after the first, leaves
/// the stored string as the first bump made it.
pub proof fn lemma_bump_twice(csv: Seq<char>, id: Seq<char>)
    requires
        !id.contains(sep()),
        settled(csv, id),
    ensures
        bumped(bumped(csv, id), id) == bumped(csv, id),
{
    let left = fields(csv).remove_value(id);
    let rest = without(csv, id);
    let once = bumped(csv, id);
    let none = Seq::<Seq<char>>::empty();
    lemma_rest_fields(csv, id);
    lemma_fields_of_plain(id);
    if rest.len() == 0 {
        assert(none + seq![id] + none =~= seq![id]);
        assert(!none.contains(id));
        lemma_remove_first(none, id, none);
        assert(none + none =~= none);
    } else {
        lemma_fields_concat(rest, id);
        let all = left + seq![id];
        assert(fields(once) == all);
        if left.contains(id) {
            lemma_split_at_first(left, id);
            let k = left.index_of_first(id)->0;
            assert(all[k] == id);
            assert forall|j: int| 0 <= j < k implies all[j] != id by {
                assert(all[j] == left.take(k)[j]);
                assert(left.take(k).contains(all[j]));
            }
            lemma_first_index(all, id, k);
            assert(all.remove(k) =~= left) by {
                assert forall|i: int| 0 <= i < left.len() implies all.remove(k)[i] == left[i] by {
                    if i >= k {
                        assert(left[k] == id);
                        assert(left[i] == id);
                    }
                }
            }
        } else {
            lemma_remove_first(left, id, none);
            assert(left + seq![id] + none =~= all);
            assert(left + none =~= left);
        }
        assert(without(once, id) == rest);
    }
}

/// Bumping keeps the entries distinct.
pub proof fn lemma_bump_keeps_distinct(csv: Seq<char>, id: Seq<char>)
    requires
        is_id(id),
        tokens(csv).no_duplicates(),
    ensures
        tokens(bumped(csv, id)).no_duplicates(),
        all_ids(tokens(bumped(csv, id))),
{
    lemma_bump_moves_to_end(csv, id);
    lemma_remove_distinct(tokens(csv), id);
    lemma_push_distinct(tokens(csv).remove_value(id), id);
    lemma_tokens_are_ids(bumped(csv, id));
}

/// The ledger `csv` after the identifiers `ids` were bumped one after the
/// other.
pub open spec fn bumped_all(csv: Seq<char>, ids: Seq<Seq<char>>) -> Seq<char>
    decreases ids.len(),
{
    if ids.len() == 0 {
        csv
    } else {
        bumped(bumped_all(csv, ids.drop_last()), ids.last())
    }
}

/// Whatever identifiers are bumped, and however often, the entries that are
/// read from the ledger stay distinct, and none is empty. This holds from
/// the empty ledger on, and from any string whose entries are distinct,
/// whatever stray separators it holds.
pub proof fn lemma_bumps_keep_distinct(csv: Seq<char>, ids: Seq<Seq<char>>)
    requires
        tokens(csv).no_duplicates(),
        all_ids(ids),
    ensures
        tokens(bumped_all(csv, ids)).no_duplicates(),
        all_ids(tokens(bumped_all(csv, ids))),
    decreases ids.len(),
{
    if ids.len() == 0 {
        lemma_tokens_are_ids(csv);
    } else {
        assert(all_ids(ids.drop_last())) by {
            assert forall|i: int| 0 <= i < ids.drop_last().len() implies is_id(
                #[trigger] ids.drop_last()[i],
            ) by {
                assert(ids.drop_last()[i] == ids[i]);
            }
        }
        lemma_bumps_keep_distinct(csv, ids.drop_last());
        assert(is_id(ids[ids.len() - 1]));
        lemma_bump_keeps_distinct(bumped_all(csv, ids.drop_last()), ids.last());
    }
}

/// The empty ledger has no entry.
pub proof fn lemma_empty_ledger()
    ensures
        tokens(Seq::<char>::empty()) == Seq::<Seq<char>>::empty(),
        is_ledger(Seq::<char>::empty()),
{
    let none = Seq::<char>::empty();
    lemma_solid_one(none);
    assert(fields(none) =~= seq![none]);
    assert(join(Seq::<Seq<char>>::empty()) =~= none);
}

/// A ledger without stray separators and without an entry twice is still
/// one after a bump.
pub proof fn lemma_bump_keeps_ledger(csv: Seq<char>, id: Seq<char>)
    requires
        is_ledger(csv),
        is_id(id),
    ensures
        is_ledger(bumped(csv, id)),
{
    let ids = tokens(csv);
    lemma_tokens_are_ids(csv);
    if ids.len() == 0 {
        assert(join(ids) =~= Seq::<char>::empty());
        let none = Seq::<Seq<char>>::empty();
        lemma_fields_of_plain(Seq::<char>::empty());
        assert(!none.contains(id));
        lemma_fields_of_plain(id);
        lemma_solid_one(id);
        assert(fields(csv) == seq![Seq::<char>::empty()]);
        assert forall|j: int| 0 <= j < fields(csv).len() implies fields(csv)[j] != id by {}
        lemma_remove_absent(fields(csv), id);
        assert(join(fields(csv)) =~= csv);
        assert(bumped(csv, id) == id);
        assert(join(seq![id]) == id);
        assert(seq![id].no_duplicates());
    } else {
        lemma_bump_of_distinct(ids, id);
        let after = ids.remove_value(id).push(id);
        assert(tokens(bumped(csv, id)) == after);
    }
}

/// A ledger that was built by bumps alone, from the empty ledger on, holds
/// no stray separator and no entry twice.
pub proof fn lemma_built_by_bumps(ids: Seq<Seq<char>>)
    requires
        all_ids(ids),
    ensures
        is_ledger(bumped_all(Seq::<char>::empty(), ids)),
        all_ids(tokens(bumped_all(Seq::<char>::empty(), ids))),
    decreases ids.len(),
{
    lemma_empty_ledger();
    if ids.len() > 0 {
        assert(all_ids(ids.drop_last())) by {
            assert forall|i: int| 0 <= i < ids.drop_last().len() implies is_id(
                #[trigger] ids.drop_last()[i],
            ) by {
                assert(ids.drop_last()[i] == ids[i]);
            }
        }
        lemma_built_by_bumps(ids.drop_last());
        assert(is_id(ids[ids.len() - 1]));
        lemma_bump_keeps_ledger(bumped_all(Seq::<char>::empty(), ids.drop_last()), ids.last());
    }
    lemma_tokens_are_ids(bumped_all(Seq::<char>::empty(), ids));
}

} // verus!
