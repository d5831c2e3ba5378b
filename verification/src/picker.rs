//! Grouping of the action catalog into the picker's category sections.

use vstd::prelude::*;

use crate::binding::{Action, Category};

verus! {

/// The actions of `s` whose category is `c`, in their order in `s`.
pub open spec fn in_category(s: Seq<Action>, c: Category) -> Seq<Action>
    decreases s.len(),
{
    if s.len() == 0 {
        Seq::empty()
    } else {
        let prefix = in_category(s.drop_last(), c);
        if s.last().spec_category() == c {
            prefix.push(s.last())
        } else {
            prefix
        }
    }
}

/// The categories that occur in `s`, each once, in order of first occurrence.
pub open spec fn categories_in_order(s: Seq<Action>) -> Seq<Category>
    decreases s.len(),
{
    if s.len() == 0 {
        Seq::empty()
    } else {
        let prefix = categories_in_order(s.drop_last());
        if prefix.contains(s.last().spec_category()) {
            prefix
        } else {
            prefix.push(s.last().spec_category())
        }
    }
}

/// The sections of the picker for `s`: one per category of `s`, in order of
/// first occurrence, each holding that category's actions in their order.
pub open spec fn spec_sections(s: Seq<Action>, r: Seq<(Category, Vec<Action>)>) -> bool {
    &&& r.len() == categories_in_order(s).len()
    &&& forall|k: int|
        0 <= k < r.len() ==> (#[trigger] r[k]).0 == categories_in_order(s)[k] && r[k].1@
            == in_category(s, r[k].0)
}

/// A category that does not occur in `s` has no actions in it.
pub proof fn lemma_absent_category_empty(s: Seq<Action>, c: Category)
    requires
        !categories_in_order(s).contains(c),
    ensures
        in_category(s, c) == Seq::<Action>::empty(),
    decreases s.len(),
{
    if s.len() > 0 {
        let p = categories_in_order(s.drop_last());
        if p.contains(c) {
            let k = choose|k: int| 0 <= k < p.len() && p[k] == c;
            if !p.contains(s.last().spec_category()) {
                assert(categories_in_order(s)[k] == c);
            }
        }
        lemma_absent_category_empty(s.drop_last(), c);
        if s.last().spec_category() == c {
            if !p.contains(c) {
                assert(categories_in_order(s)[p.len() as int] == c);
            }
        }
    }
}

/// The section order lists each category once; the category of every action
/// has a section; no section is empty; and no section holds more actions
/// than the input.
pub proof fn lemma_sections_partition(s: Seq<Action>)
    ensures
        categories_in_order(s).no_duplicates(),
        forall|i: int|
            0 <= i < s.len() ==> categories_in_order(s).contains(#[trigger] s[i].spec_category()),
        forall|c: Category| #[trigger]
            categories_in_order(s).contains(c) ==> in_category(s, c).len() > 0,
        forall|c: Category| #[trigger] in_category(s, c).len() <= s.len(),
    decreases s.len(),
{
    if s.len() > 0 {
        let t = s.drop_last();
        lemma_sections_partition(t);
        let p = categories_in_order(t);
        let q = categories_in_order(s);
        assert forall|i: int| 0 <= i < s.len() implies q.contains(#[trigger] s[i].spec_category()) by {
            if i < s.len() - 1 {
                assert(t[i] == s[i]);
                assert(p.contains(t[i].spec_category()));
                let k = choose|k: int| 0 <= k < p.len() && p[k] == t[i].spec_category();
                assert(q[k] == p[k]);
            } else if !p.contains(s.last().spec_category()) {
                assert(q[p.len() as int] == s.last().spec_category());
            }
        }
        assert forall|c: Category| #[trigger] q.contains(c) implies in_category(s, c).len() > 0 by {
            if c != s.last().spec_category() {
                let k = choose|k: int| 0 <= k < q.len() && q[k] == c;
                if !p.contains(s.last().spec_category()) {
                    assert(k < p.len());
                }
                assert(p[k] == c);
                assert(p.contains(c));
                assert(in_category(t, c).len() > 0);
            }
        }
        assert forall|c: Category| #[trigger] in_category(s, c).len() <= s.len() by {
            assert(in_category(t, c).len() <= t.len());
        }
    }
}

/// Number of actions in the sections of categories `cats`.
pub open spec fn section_total(s: Seq<Action>, cats: Seq<Category>) -> nat
    decreases cats.len(),
{
    if cats.len() == 0 {
        0
    } else {
        section_total(s, cats.drop_last()) + in_category(s, cats.last()).len()
    }
}

/// How often `c` occurs in `cats`.
pub open spec fn occurrences(cats: Seq<Category>, c: Category) -> nat
    decreases cats.len(),
{
    if cats.len() == 0 {
        0
    } else {
        occurrences(cats.drop_last(), c) + if cats.last() == c {
            1nat
        } else {
            0nat
        }
    }
}

proof fn lemma_occurrences(cats: Seq<Category>, c: Category)
    ensures
        !cats.contains(c) ==> occurrences(cats, c) == 0,
        cats.contains(c) && cats.no_duplicates() ==> occurrences(cats, c) == 1,
    decreases cats.len(),
{
    if cats.len() > 0 {
        let t = cats.drop_last();
        lemma_occurrences(t, c);
        if !cats.contains(c) {
            assert(!t.contains(c)) by {
                if t.contains(c) {
                    let j = choose|j: int| 0 <= j < t.len() && t[j] == c;
                    assert(cats[j] == c);
                }
            }
        }
        if cats.contains(c) && cats.no_duplicates() {
            assert(t.no_duplicates()) by {
                assert forall|i: int, j: int| 0 <= i < t.len() && 0 <= j < t.len() && i != j implies t[i]
                    != t[j] by {
                    assert(cats[i] != cats[j]);
                }
            }
            if cats.last() == c {
                assert(!t.contains(c)) by {
                    if t.contains(c) {
                        let j = choose|j: int| 0 <= j < t.len() && t[j] == c;
                        assert(cats[j] == cats[cats.len() - 1]);
                    }
                }
            } else {
                let j = choose|j: int| 0 <= j < cats.len() && cats[j] == c;
                assert(t[j] == c);
            }
        }
    }
}

/// Appending `a` adds one action to the section total for every occurrence
/// of `a`'s category.
proof fn lemma_total_push(s: Seq<Action>, a: Action, cats: Seq<Category>)
    ensures
        section_total(s.push(a), cats) == section_total(s, cats) + occurrences(cats, a.spec_category()),
    decreases cats.len(),
{
    if cats.len() > 0 {
        lemma_total_push(s, a, cats.drop_last());
        assert(s.push(a).drop_last() == s);
    }
}

/// The sections together hold exactly as many actions as the input; with
/// every action in the section of its own category, each action lies in
/// exactly one section.
pub proof fn lemma_sections_cover(s: Seq<Action>)
    ensures
        section_total(s, categories_in_order(s)) == s.len(),
    decreases s.len(),
{
    if s.len() > 0 {
        let t = s.drop_last();
        let a = s.last();
        let c = a.spec_category();
        assert(t.push(a) == s);
        lemma_sections_cover(t);
        lemma_sections_partition(t);
        let cats = categories_in_order(t);
        lemma_total_push(t, a, cats);
        lemma_occurrences(cats, c);
        if !cats.contains(c) {
            lemma_absent_category_empty(t, c);
            assert(categories_in_order(s) == cats.push(c));
            assert(categories_in_order(s).drop_last() == cats);
        }
    }
}

/// Groups `actions` into picker sections: one per category, in order of the
/// category's first occurrence, each keeping its actions in their order.
pub fn group_by_category(actions: &Vec<Action>) -> (r: Vec<(Category, Vec<Action>)>)
    ensures
        spec_sections(actions@, r@),
{
    let mut sections: Vec<(Category, Vec<Action>)> = Vec::new();
    let n = actions.len();
    for i in 0..n
        invariant
            n == actions@.len(),
            spec_sections(actions@.take(i as int), sections@),
    {
        let ghost before = actions@.take(i as int);
        let ghost after = actions@.take(i + 1);
        assert(after.drop_last() == before);
        let action = actions[i].clone();
        let cat = action.category();
        let mut k: usize = 0;
        let mut found = false;
        while k < sections.len()
            invariant_except_break
                k <= sections@.len(),
                !found,
                forall|j: int| 0 <= j < k ==> (#[trigger] sections@[j]).0 != cat,
            ensures
                found ==> k < sections@.len() && sections@[k as int].0 == cat,
                !found ==> forall|j: int|
                    0 <= j < sections@.len() ==> (#[trigger] sections@[j]).0 != cat,
            decreases sections@.len() - k,
        {
            if sections[k].0 == cat {
                found = true;
                break;
            }
            k = k + 1;
        }
        if found {
            let (c, mut group) = sections.remove(k);
            group.push(action);
            sections.insert(k, (c, group));
            proof {
                assert(categories_in_order(before)[k as int] == cat);
                assert(categories_in_order(before).contains(cat));
                assert(categories_in_order(after) == categories_in_order(before));
                lemma_sections_partition(before);
                assert forall|j: int| 0 <= j < sections@.len() implies (#[trigger] sections@[j]).0
                    == categories_in_order(after)[j] && sections@[j].1@ == in_category(
                    after,
                    sections@[j].0,
                ) by {
                    if j != k {
                        assert(categories_in_order(before)[j] != categories_in_order(before)[k as int]);
                    }
                }
            }
        } else {
            let mut group: Vec<Action> = Vec::new();
            group.push(action);
            sections.push((cat, group));
            proof {
                let p = categories_in_order(before);
                assert(!p.contains(cat)) by {
                    if p.contains(cat) {
                        let j = choose|j: int| 0 <= j < p.len() && p[j] == cat;
                        assert(sections@[j].0 == cat);
                    }
                }
                lemma_absent_category_empty(before, cat);
                assert(categories_in_order(after) == p.push(cat));
                assert forall|j: int| 0 <= j < sections@.len() implies (#[trigger] sections@[j]).0
                    == categories_in_order(after)[j] && sections@[j].1@ == in_category(
                    after,
                    sections@[j].0,
                ) by {
                    if j < p.len() {
                        assert(sections@[j].0 != cat);
                    } else {
                        assert(sections@[j].1@ == seq![action]);
                    }
                }
            }
        }
    }
    assert(actions@.take(n as int) == actions@);
    sections
}

} // verus!
