//! Ordering of what the menu lists: blueprints by name, drafts most recent
//! first, and which directory entries count as JSON files.
use vstd::prelude::*;
use crate::app::{blueprint_views, draft_views};
use crate::blueprint::{Blueprint, BlueprintView};
use crate::draft::{Draft, DraftView};

verus! {

/// `a` orders strictly before `b` as `String`s do: lexicographically by
/// code point (the byte order of UTF-8 is the code point order).
pub open spec fn lex_less(a: Seq<char>, b: Seq<char>) -> bool
    decreases a.len(),
{
    if b.len() == 0 {
        false
    } else if a.len() == 0 {
        true
    } else if a[0] != b[0] {
        (a[0] as int) < (b[0] as int)
    } else {
        lex_less(a.drop_first(), b.drop_first())
    }
}

/// No string orders before itself, and two never order before each other.
pub proof fn lemma_lex_less_asymmetric(a: Seq<char>, b: Seq<char>)
    ensures
        lex_less(a, b) ==> !lex_less(b, a),
        !lex_less(a, a),
    decreases a.len(),
{
    if a.len() > 0 && b.len() > 0 && a[0] == b[0] {
        lemma_lex_less_asymmetric(a.drop_first(), b.drop_first());
    }
    if a.len() > 0 {
        lemma_lex_less_asymmetric(a.drop_first(), a.drop_first());
    }
}

/// Two different strings are ordered one way or the other.
pub proof fn lemma_lex_less_total(a: Seq<char>, b: Seq<char>)
    ensures
        a == b || lex_less(a, b) || lex_less(b, a),
    decreases a.len(),
{
    if a.len() > 0 && b.len() > 0 && a[0] == b[0] {
        lemma_lex_less_total(a.drop_first(), b.drop_first());
        if a.drop_first() == b.drop_first() {
            assert(a =~= seq![a[0]] + a.drop_first());
            assert(b =~= seq![b[0]] + b.drop_first());
        }
    } else if a.len() == 0 && b.len() == 0 {
        assert(a =~= b);
    }
}

/// The order is transitive.
pub proof fn lemma_lex_less_transitive(a: Seq<char>, b: Seq<char>, c: Seq<char>)
    requires
        lex_less(a, b),
        lex_less(b, c),
    ensures
        lex_less(a, c),
    decreases a.len(),
{
    if a.len() > 0 && b.len() > 0 && c.len() > 0 && a[0] == b[0] && b[0] == c[0] {
        lemma_lex_less_transitive(a.drop_first(), b.drop_first(), c.drop_first());
    }
}

/// Not ordering after is transitive: `b` not before `a` and `c` not before `b`
/// give `c` not before `a`.
pub proof fn lemma_lex_not_less_transitive(a: Seq<char>, b: Seq<char>, c: Seq<char>)
    requires
        !lex_less(b, a),
        !lex_less(c, b),
    ensures
        !lex_less(c, a),
{
    lemma_lex_less_total(a, b);
    if lex_less(c, a) && lex_less(a, b) {
        lemma_lex_less_transitive(c, a, b);
    }
}

/// Index of the first element of `s` at or after `i` that `x` goes before
/// (`s.len()` when none): where a stable sort places `x` in front of `s`.
pub open spec fn slot<T>(s: Seq<T>, x: T, before: spec_fn(T, T) -> bool, i: int) -> int
    decreases s.len() - i,
{
    if i >= s.len() {
        s.len() as int
    } else if !before(s[i], x) {
        i
    } else {
        slot(s, x, before, i + 1)
    }
}

/// The stable sort of `s`, where `before(a, b)` says that `a` must come
/// before `b`: elements that neither must precede keep their order.
pub open spec fn stable_sort<T>(s: Seq<T>, before: spec_fn(T, T) -> bool) -> Seq<T>
    decreases s.len(),
{
    if s.len() == 0 {
        s
    } else {
        let r = stable_sort(s.drop_first(), before);
        r.insert(slot(r, s[0], before, 0), s[0])
    }
}

/// Blueprints go by name, ascending.
pub open spec fn by_name() -> spec_fn(BlueprintView, BlueprintView) -> bool {
    |a: BlueprintView, b: BlueprintView| lex_less(a.name, b.name)
}

/// Drafts go by the time of their last change, most recent first.
pub open spec fn most_recent_first() -> spec_fn((Seq<char>, DraftView), (Seq<char>, DraftView)) -> bool {
    |a: (Seq<char>, DraftView), b: (Seq<char>, DraftView)| lex_less(b.1.updated_at, a.1.updated_at)
}

proof fn lemma_slot<T>(s: Seq<T>, x: T, before: spec_fn(T, T) -> bool, i: int)
    requires
        0 <= i <= s.len(),
    ensures
        i <= slot(s, x, before, i) <= s.len(),
        forall|k: int| i <= k < slot(s, x, before, i) ==> before(#[trigger] s[k], x),
        slot(s, x, before, i) < s.len() ==> !before(s[slot(s, x, before, i)], x),
    decreases s.len() - i,
{
    if i < s.len() && before(s[i], x) {
        lemma_slot(s, x, before, i + 1);
    }
}

/// Whether `s` is in order: no element must come before an earlier one.
pub open spec fn in_order<T>(s: Seq<T>, before: spec_fn(T, T) -> bool) -> bool {
    forall|i: int, j: int| 0 <= i < j < s.len() ==> !before(#[trigger] s[j], #[trigger] s[i])
}

/// Whether `before` is a strict weak order: asymmetric, with "not before"
/// transitive.
pub open spec fn weak_order<T>(before: spec_fn(T, T) -> bool) -> bool {
    &&& forall|a: T, b: T| #[trigger] before(a, b) ==> !before(b, a)
    &&& forall|a: T, b: T, c: T|
        !#[trigger] before(b, a) && !#[trigger] before(c, b) ==> !#[trigger] before(c, a)
}

/// A stable sort by a strict weak order puts its elements in order.
pub proof fn lemma_stable_sort_in_order<T>(s: Seq<T>, before: spec_fn(T, T) -> bool)
    requires
        weak_order(before),
    ensures
        in_order(stable_sort(s, before), before),
    decreases s.len(),
{
    if s.len() > 0 {
        let r0 = stable_sort(s.drop_first(), before);
        lemma_stable_sort_in_order(s.drop_first(), before);
        let x = s[0];
        let p = slot(r0, x, before, 0);
        lemma_slot(r0, x, before, 0);
        let r = r0.insert(p, x);
        assert forall|i: int, j: int| 0 <= i < j < r.len() implies !before(#[trigger] r[j], #[trigger] r[i]) by {
            if j < p {
                assert(r[i] == r0[i] && r[j] == r0[j]);
            } else if j == p {
                assert(r[i] == r0[i]);
                assert(before(r0[i], x));
            } else if i == p {
                assert(r[j] == r0[j - 1]);
                assert(!before(r0[p], x));
                if j - 1 > p {
                    assert(!before(r0[j - 1], r0[p]));
                }
            } else if i < p {
                assert(r[i] == r0[i] && r[j] == r0[j - 1]);
            } else {
                assert(r[i] == r0[i - 1] && r[j] == r0[j - 1]);
            }
        }
    }
}

/// A stable sort keeps every element, as often as it occurs.
pub proof fn lemma_stable_sort_permutes<T>(s: Seq<T>, before: spec_fn(T, T) -> bool)
    ensures
        stable_sort(s, before).to_multiset() == s.to_multiset(),
    decreases s.len(),
{
    if s.len() > 0 {
        let r0 = stable_sort(s.drop_first(), before);
        lemma_stable_sort_permutes(s.drop_first(), before);
        lemma_slot(r0, s[0], before, 0);
        vstd::seq_lib::to_multiset_insert(r0, slot(r0, s[0], before, 0), s[0]);
        assert(s =~= s.drop_first().insert(0, s[0]));
        vstd::seq_lib::to_multiset_insert(s.drop_first(), 0, s[0]);
    }
}

/// Name order on blueprints is a strict weak order.
pub proof fn lemma_by_name_weak_order()
    ensures
        weak_order(by_name()),
{
    assert forall|a: BlueprintView, b: BlueprintView| #[trigger] by_name()(a, b) implies !by_name()(b, a) by {
        lemma_lex_less_asymmetric(a.name, b.name);
    }
    assert forall|a: BlueprintView, b: BlueprintView, c: BlueprintView|
        !#[trigger] by_name()(b, a) && !#[trigger] by_name()(c, b) implies !#[trigger] by_name()(c, a) by {
        lemma_lex_not_less_transitive(a.name, b.name, c.name);
    }
}

/// Recency order on drafts is a strict weak order.
pub proof fn lemma_most_recent_first_weak_order()
    ensures
        weak_order(most_recent_first()),
{
    let f = most_recent_first();
    assert forall|a: (Seq<char>, DraftView), b: (Seq<char>, DraftView)| #[trigger] f(a, b) implies !f(b, a) by {
        lemma_lex_less_asymmetric(b.1.updated_at, a.1.updated_at);
    }
    assert forall|a: (Seq<char>, DraftView), b: (Seq<char>, DraftView), c: (Seq<char>, DraftView)|
        !#[trigger] f(b, a) && !#[trigger] f(c, b) implies !#[trigger] f(c, a) by {
        lemma_lex_not_less_transitive(c.1.updated_at, b.1.updated_at, a.1.updated_at);
    }
}

/// Whether `a` orders strictly before `b` as strings.
pub fn str_less(a: &str, b: &str) -> (r: bool)
    ensures
        r == lex_less(a@, b@),
{
    let na = a.unicode_len();
    let nb = b.unicode_len();
    let mut i: usize = 0;
    assert(a@.skip(0) =~= a@ && b@.skip(0) =~= b@);
    assert(a@.subrange(0, 0) =~= b@.subrange(0, 0));
    while i < na && i < nb
        invariant
            na == a@.len(),
            nb == b@.len(),
            i <= na,
            i <= nb,
            a@.subrange(0, i as int) == b@.subrange(0, i as int),
            lex_less(a@, b@) == lex_less(a@.skip(i as int), b@.skip(i as int)),
        decreases na - i,
    {
        let ca = a.get_char(i);
        let cb = b.get_char(i);
        if ca != cb {
            assert(a@.skip(i as int)[0] == ca && b@.skip(i as int)[0] == cb);
            return (ca as u32) < (cb as u32);
        }
        assert(a@.skip(i as int).drop_first() =~= a@.skip(i + 1));
        assert(b@.skip(i as int).drop_first() =~= b@.skip(i + 1));
        assert(a@.subrange(0, i + 1) =~= a@.subrange(0, i as int).push(ca));
        assert(b@.subrange(0, i + 1) =~= b@.subrange(0, i as int).push(cb));
        i = i + 1;
    }
    i < nb
}

/// `blueprints` sorted by name, stably (equal names keep their order).
pub fn sort_blueprints(blueprints: Vec<Blueprint>) -> (r: Vec<Blueprint>)
    ensures
        blueprint_views(r@) == stable_sort(blueprint_views(blueprints@), by_name()),
{
    let ghost s = blueprint_views(blueprints@);
    let ghost n = s.len();
    let mut rest = blueprints;
    let mut out: Vec<Blueprint> = Vec::new();
    assert(s.subrange(n as int, n as int) =~= Seq::<BlueprintView>::empty());
    while rest.len() > 0
        invariant
            n == s.len(),
            rest.len() <= n,
            blueprint_views(rest@) == s.subrange(0, rest.len() as int),
            blueprint_views(out@) == stable_sort(s.subrange(rest.len() as int, n as int), by_name()),
        decreases rest.len(),
    {
        let k = rest.len();
        let ghost before_pop = rest@;
        let x = rest.pop().unwrap();
        assert(blueprint_views(rest@) =~= s.subrange(0, rest.len() as int)) by {
            assert(rest@ =~= before_pop.drop_last());
        }
        assert(x@ == s[k - 1]) by {
            assert(x == before_pop[k - 1]);
            assert(blueprint_views(before_pop)[k - 1] == s.subrange(0, k as int)[k - 1]);
        }
        let ghost ov = blueprint_views(out@);
        let mut p: usize = 0;
        let mut searching = true;
        while searching && p < out.len()
            invariant
                ov == blueprint_views(out@),
                p <= out.len(),
                slot(ov, x@, by_name(), 0) == slot(ov, x@, by_name(), p as int),
                !searching ==> slot(ov, x@, by_name(), p as int) == p,
            decreases 2 * (out.len() - p) + if searching { 1int } else { 0int },
        {
            assert(ov[p as int] == out@[p as int]@);
            if str_less(out[p].name.as_str(), x.name.as_str()) {
                p = p + 1;
            } else {
                searching = false;
            }
        }
        let ghost xv = x@;
        out.insert(p, x);
        let ghost sub = s.subrange(k - 1, n as int);
        assert(sub.drop_first() =~= s.subrange(k as int, n as int));
        assert(sub[0] == xv);
        assert(blueprint_views(out@) =~= ov.insert(p as int, xv));
    }
    assert(s.subrange(0, n as int) =~= s);
    out
}

/// `drafts` with the most recently changed first, stably.
pub fn sort_drafts(drafts: Vec<(String, Draft)>) -> (r: Vec<(String, Draft)>)
    ensures
        draft_views(r@) == stable_sort(draft_views(drafts@), most_recent_first()),
{
    let ghost s = draft_views(drafts@);
    let ghost n = s.len();
    let mut rest = drafts;
    let mut out: Vec<(String, Draft)> = Vec::new();
    assert(s.subrange(n as int, n as int) =~= Seq::<(Seq<char>, DraftView)>::empty());
    while rest.len() > 0
        invariant
            n == s.len(),
            rest.len() <= n,
            draft_views(rest@) == s.subrange(0, rest.len() as int),
            draft_views(out@) == stable_sort(s.subrange(rest.len() as int, n as int), most_recent_first()),
        decreases rest.len(),
    {
        let k = rest.len();
        let ghost before_pop = rest@;
        let x = rest.pop().unwrap();
        assert(draft_views(rest@) =~= s.subrange(0, rest.len() as int)) by {
            assert(rest@ =~= before_pop.drop_last());
        }
        let ghost xv = (x.0@, x.1@);
        assert(xv == s[k - 1]) by {
            assert(x == before_pop[k - 1]);
            assert(draft_views(before_pop)[k - 1] == s.subrange(0, k as int)[k - 1]);
        }
        let ghost ov = draft_views(out@);
        let mut p: usize = 0;
        let mut searching = true;
        while searching && p < out.len()
            invariant
                ov == draft_views(out@),
                xv == (x.0@, x.1@),
                p <= out.len(),
                slot(ov, xv, most_recent_first(), 0) == slot(ov, xv, most_recent_first(), p as int),
                !searching ==> slot(ov, xv, most_recent_first(), p as int) == p,
            decreases 2 * (out.len() - p) + if searching { 1int } else { 0int },
        {
            assert(ov[p as int] == (out@[p as int].0@, out@[p as int].1@));
            if str_less(x.1.updated_at.as_str(), out[p].1.updated_at.as_str()) {
                p = p + 1;
            } else {
                searching = false;
            }
        }
        out.insert(p, x);
        let ghost sub = s.subrange(k - 1, n as int);
        assert(sub.drop_first() =~= s.subrange(k as int, n as int));
        assert(sub[0] == xv);
        assert(draft_views(out@) =~= ov.insert(p as int, xv));
    }
    assert(s.subrange(0, n as int) =~= s);
    out
}

/// Whether the default blueprints are to be written: the directory is
/// missing, a reset was asked for, or it holds no JSON file.
pub fn needs_init(dir_exists: bool, force: bool, has_json_file: bool) -> (r: bool)
    ensures
        r == (!dir_exists || force || !has_json_file),
{
    !dir_exists || force || !has_json_file
}

/// Whether `a` and `b` hold the same text.
pub fn same_text(a: &str, b: &str) -> (r: bool)
    ensures
        r == (a@ == b@),
{
    let n = a.unicode_len();
    if n != b.unicode_len() {
        return false;
    }
    let mut i: usize = 0;
    while i < n
        invariant
            n == a@.len(),
            n == b@.len(),
            i <= n,
            a@.subrange(0, i as int) == b@.subrange(0, i as int),
        decreases n - i,
    {
        if a.get_char(i) != b.get_char(i) {
            return false;
        }
        assert(a@.subrange(0, i + 1) =~= a@.subrange(0, i as int).push(a@[i as int]));
        assert(b@.subrange(0, i + 1) =~= b@.subrange(0, i as int).push(b@[i as int]));
        i = i + 1;
    }
    assert(a@ =~= a@.subrange(0, n as int));
    assert(b@ =~= b@.subrange(0, n as int));
    true
}

/// Whether a file name has the extension `json` as `Path::extension` reads
/// it: it ends in `.json` and something comes before that dot.
pub open spec fn is_json_name(name: Seq<char>) -> bool {
    name.len() > 5 && name.subrange(name.len() - 5, name.len() as int) == ".json"@
}

/// The stem of a JSON file name (its name without `.json`), or `None` for
/// any other name.
pub fn json_stem(name: &str) -> (r: Option<String>)
    ensures
        r.is_some() <==> is_json_name(name@),
        r.is_some() ==> r.unwrap()@ == name@.subrange(0, name@.len() - 5),
{
    let n = name.unicode_len();
    if n <= 5 {
        return None;
    }
    let tail = name.substring_char(n - 5, n);
    proof {
        reveal_strlit(".json");
    }
    if same_text(tail, ".json") {
        Some(crate::text::owned(name.substring_char(0, n - 5)))
    } else {
        None
    }
}

} // verus!
