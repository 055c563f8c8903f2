//! Lists of texts in their order.

use crate::text::{before, text_before, text_eq, views};
use vstd::prelude::*;

verus! {

/// Whether every text comes before the later ones.
pub open spec fn ascending(texts: Seq<Seq<char>>) -> bool {
    forall|i: int, j: int| 0 <= i < j < texts.len() ==> before(#[trigger] texts[i], #[trigger] texts[j])
}

/// Whether no text comes after a later one.
pub open spec fn sorted(texts: Seq<Seq<char>>) -> bool {
    forall|i: int, j: int|
        0 <= i < j < texts.len() ==> !before(#[trigger] texts[j], #[trigger] texts[i])
}

/// Nothing comes before itself.
pub proof fn before_is_irreflexive(text: Seq<char>)
    ensures
        !before(text, text),
    decreases text.len(),
{
    if text.len() > 0 {
        before_is_irreflexive(text.skip(1));
    }
}

/// What comes before something that comes before a third also comes before the
/// third.
pub proof fn before_is_transitive(one: Seq<char>, two: Seq<char>, three: Seq<char>)
    requires
        before(one, two),
        before(two, three),
    ensures
        before(one, three),
    decreases one.len(),
{
    if one.len() > 0 && two.len() > 0 && three.len() > 0 {
        if one[0] == two[0] && two[0] == three[0] {
            before_is_transitive(one.skip(1), two.skip(1), three.skip(1));
        }
    }
}

proof fn codes_differ(a: char, b: char)
    requires
        a != b,
    ensures
        a as u32 != b as u32,
{
}

/// Of two different texts one comes before the other.
pub proof fn before_is_total(one: Seq<char>, two: Seq<char>)
    ensures
        one == two || before(one, two) || before(two, one),
    decreases one.len(),
{
    if one.len() > 0 && two.len() > 0 && one[0] == two[0] {
        before_is_total(one.skip(1), two.skip(1));
        if one.skip(1) == two.skip(1) {
            assert(one =~= seq![one[0]] + one.skip(1));
            assert(two =~= seq![two[0]] + two.skip(1));
        }
    } else if one.len() == 0 && two.len() == 0 {
        assert(one =~= two);
    } else if one.len() > 0 && two.len() > 0 {
        codes_differ(one[0], two[0]);
    }
}

fn insert_ascending(texts: &mut Vec<String>, text: String)
    requires
        ascending(views(old(texts)@)),
    ensures
        ascending(views(final(texts)@)),
        forall|t: Seq<char>|
            views(final(texts)@).contains(t) <==> (t == text@ || views(old(texts)@).contains(t)),
{
    let ghost start = views(texts@);
    let mut at: usize = 0;
    while at < texts.len() && text_before(texts[at].as_str(), text.as_str())
        invariant
            start == views(texts@),
            at <= texts@.len(),
            forall|j: int| 0 <= j < at ==> before(#[trigger] start[j], text@),
        decreases texts@.len() - at,
    {
        at += 1;
    }
    if at < texts.len() && text_eq(texts[at].as_str(), text.as_str()) {
        assert(start[at as int] == text@);
        return ;
    }
    let ghost held = text@;
    proof {
        if at < texts.len() {
            before_is_total(start[at as int], held);
        }
        assert forall|j: int| at <= j < start.len() implies before(held, #[trigger] start[j]) by {
            if j > at {
                before_is_transitive(held, start[at as int], start[j]);
            }
        }
    }
    texts.insert(at, text);
    proof {
        let after = views(texts@);
        assert(after =~= start.insert(at as int, held));
        assert forall|i: int, j: int| 0 <= i < j < after.len() implies before(
            #[trigger] after[i],
            #[trigger] after[j],
        ) by {
            if i < at && j > at {
                assert(after[j] == start[j - 1]);
                assert(after[i] == start[i]);
            } else if i < at && j < at {
                assert(after[j] == start[j]);
                assert(after[i] == start[i]);
            } else if i > at {
                assert(after[j] == start[j - 1]);
                assert(after[i] == start[i - 1]);
            } else if i == at {
                assert(after[j] == start[j - 1]);
            } else {
                assert(after[i] == start[i]);
            }
        }
        assert forall|t: Seq<char>| after.contains(t) <==> (t == held || start.contains(t)) by {
            if start.contains(t) {
                let k = start.index_of(t);
                if k < at {
                    assert(after[k] == t);
                } else {
                    assert(after[k + 1] == t);
                }
            }
            if t == held {
                assert(after[at as int] == t);
            }
            if after.contains(t) {
                let k = after.index_of(t);
                if k < at {
                    assert(start[k] == t);
                } else if k > at {
                    assert(start[k - 1] == t);
                }
            }
        }
    }
}

/// The texts of a list, each once, in their order.
pub fn ordered_set(texts: &Vec<String>) -> (set: Vec<String>)
    ensures
        ascending(views(set@)),
        forall|t: Seq<char>| views(set@).contains(t) <==> views(texts@).contains(t),
{
    let mut set: Vec<String> = Vec::new();
    let ghost all = views(texts@);
    let mut i: usize = 0;
    while i < texts.len()
        invariant
            all == views(texts@),
            i <= texts@.len(),
            ascending(views(set@)),
            forall|t: Seq<char>| views(set@).contains(t) <==> all.take(i as int).contains(t),
        decreases texts@.len() - i,
    {
        insert_ascending(&mut set, texts[i].clone());
        proof {
            let shorter = all.take(i as int);
            let longer = all.take(i + 1);
            assert(longer =~= shorter.push(all[i as int]));
            assert forall|t: Seq<char>| longer.contains(t) <==> (t == all[i as int]
                || shorter.contains(t)) by {
                if shorter.contains(t) {
                    assert(longer[shorter.index_of(t)] == t);
                }
                if t == all[i as int] {
                    assert(longer[i as int] == t);
                }
            }
        }
        i += 1;
    }
    assert(all.take(i as int) =~= all);
    set
}

/// Two lists in strict order with the same texts are the same list.
pub proof fn ascending_lists_are_unique(one: Seq<Seq<char>>, two: Seq<Seq<char>>)
    requires
        ascending(one),
        ascending(two),
        forall|t: Seq<char>| one.contains(t) <==> two.contains(t),
    ensures
        one == two,
    decreases one.len(),
{
    if one.len() == 0 {
        if two.len() > 0 {
            assert(two.contains(two[0]));
        }
        assert(one =~= two);
    } else if two.len() == 0 {
        assert(one.contains(one[0]));
    } else {
        assert(one.contains(one.last()));
        assert(two.contains(two.last()));
        let at = two.index_of(one.last());
        let back = one.index_of(two.last());
        if one.last() != two.last() {
            assert(before(two[at], two[two.len() - 1]));
            assert(before(one[back], one[one.len() - 1]));
            before_is_transitive(one.last(), two.last(), one.last());
            before_is_irreflexive(one.last());
        }
        let a = one.drop_last();
        let b = two.drop_last();
        assert forall|t: Seq<char>| a.contains(t) <==> b.contains(t) by {
            before_is_irreflexive(t);
            if a.contains(t) {
                let k = a.index_of(t);
                assert(one[k] == t);
                assert(before(one[k], one[one.len() - 1]));
                assert(one.contains(t));
                let m = two.index_of(t);
                assert(m != two.len() - 1);
                assert(b[m] == t);
            }
            if b.contains(t) {
                let k = b.index_of(t);
                assert(two[k] == t);
                assert(before(two[k], two[two.len() - 1]));
                assert(two.contains(t));
                let m = one.index_of(t);
                assert(m != one.len() - 1);
                assert(a[m] == t);
            }
        }
        ascending_lists_are_unique(a, b);
        assert(one =~= a.push(one.last()));
        assert(two =~= b.push(two.last()));
    }
}

fn insert_sorted(texts: &mut Vec<String>, text: String)
    requires
        sorted(views(old(texts)@)),
    ensures
        sorted(views(final(texts)@)),
        views(final(texts)@).to_multiset() == views(old(texts)@).to_multiset().insert(text@),
{
    let ghost start = views(texts@);
    let ghost held = text@;
    let mut at: usize = 0;
    while at < texts.len() && !text_before(text.as_str(), texts[at].as_str())
        invariant
            start == views(texts@),
            held == text@,
            at <= texts@.len(),
            forall|j: int| 0 <= j < at ==> !before(held, #[trigger] start[j]),
        decreases texts@.len() - at,
    {
        at += 1;
    }
    proof {
        assert forall|j: int| at <= j < start.len() implies !before(#[trigger] start[j], held) by {
            assert(before(held, start[at as int]));
            if before(start[j], held) {
                before_is_transitive(start[j], held, start[at as int]);
                if j > at {
                    assert(!before(start[j], start[at as int]));
                } else {
                    before_is_irreflexive(start[j]);
                }
            }
        }
    }
    texts.insert(at, text);
    proof {
        assert(views(texts@) =~= start.insert(at as int, held));
        inserting_keeps_order(start, at as int, held);
        vstd::seq_lib::to_multiset_insert(start, at as int, held);
    }
}

proof fn inserting_keeps_order(start: Seq<Seq<char>>, at: int, held: Seq<char>)
    requires
        0 <= at <= start.len(),
        sorted(start),
        forall|j: int| 0 <= j < at ==> !before(held, #[trigger] start[j]),
        forall|j: int| at <= j < start.len() ==> !before(#[trigger] start[j], held),
    ensures
        sorted(start.insert(at, held)),
{
    let after = start.insert(at, held);
    start.insert_ensures(at, held);
    assert forall|i: int, j: int| 0 <= i < j < after.len() implies !before(
        #[trigger] after[j],
        #[trigger] after[i],
    ) by {
        let left = if i < at {
            i
        } else {
            i - 1
        };
        let right = if j < at {
            j
        } else {
            j - 1
        };
        if i != at {
            assert(after[i] == start[left]);
        }
        if j != at {
            assert(after[j] == start[right]);
        }
    }
}

/// The texts of a list in their order, as often as they stand there.
pub fn sort_texts(texts: &Vec<String>) -> (ordered: Vec<String>)
    ensures
        sorted(views(ordered@)),
        views(ordered@).to_multiset() == views(texts@).to_multiset(),
{
    let mut ordered: Vec<String> = Vec::new();
    let ghost all = views(texts@);
    let mut i: usize = 0;
    assert(views(ordered@) =~= all.take(0));
    while i < texts.len()
        invariant
            all == views(texts@),
            i <= texts@.len(),
            sorted(views(ordered@)),
            views(ordered@).to_multiset() == all.take(i as int).to_multiset(),
        decreases texts@.len() - i,
    {
        insert_sorted(&mut ordered, texts[i].clone());
        proof {
            assert(all.take(i + 1) =~= all.take(i as int).push(all[i as int]));
            vstd::seq_lib::to_multiset_build(all.take(i as int), all[i as int]);
        }
        i += 1;
    }
    assert(all.take(i as int) =~= all);
    ordered
}

/// Something that is kept under a key.
pub trait Keyed {
    /// The key.
    spec fn key(&self) -> Seq<char>;

    /// The key.
    fn key_text(&self) -> (text: &str)
        ensures
            text@ == self.key(),
    ;
}

impl Keyed for (String, String) {
    open spec fn key(&self) -> Seq<char> {
        self.0@
    }

    fn key_text(&self) -> (text: &str) {
        self.0.as_str()
    }
}

/// The keys of a list.
pub open spec fn keys<T: Keyed>(items: Seq<T>) -> Seq<Seq<char>> {
    Seq::new(items.len(), |i: int| items[i].key())
}

/// Whether a list has every key once, in the order of the keys.
pub open spec fn in_key_order<T: Keyed>(items: Seq<T>) -> bool {
    ascending(keys(items))
}

/// Whether a list has every key once, in the order of the keys.
pub fn has_key_order<T: Keyed>(items: &Vec<T>) -> (yes: bool)
    ensures
        yes == in_key_order(items@),
{
    let ghost names = keys(items@);
    let mut i: usize = 1;
    while i < items.len()
        invariant
            names == keys(items@),
            1 <= i,
            i <= items@.len() || i == 1,
            forall|j: int, k: int|
                0 <= j < k < i && k < names.len() ==> before(#[trigger] names[j], #[trigger] names[k]),
        decreases items@.len() - i,
    {
        if !text_before(items[i - 1].key_text(), items[i].key_text()) {
            assert(!before(names[i - 1], names[i as int]));
            return false;
        }
        proof {
            assert(before(names[i - 1], names[i as int]));
            assert forall|j: int| 0 <= j < i implies before(#[trigger] names[j], names[i as int]) by {
                if j < i - 1 {
                    before_is_transitive(names[j], names[i - 1], names[i as int]);
                }
            }
        }
        i += 1;
    }
    true
}

/// Where a key belongs: behind the leading ones that come before it.
pub open spec fn slot(names: Seq<Seq<char>>, name: Seq<char>) -> nat
    decreases names.len(),
{
    if names.len() > 0 && before(names[0], name) {
        1 + slot(names.drop_first(), name)
    } else {
        0
    }
}

/// Finds where a key belongs.
pub fn find_slot<T: Keyed>(items: &Vec<T>, name: &str) -> (at: usize)
    ensures
        at == slot(keys(items@), name@),
        at <= items@.len(),
{
    let ghost names = keys(items@);
    let mut at: usize = 0;
    assert(names.skip(0) =~= names);
    while at < items.len() && text_before(items[at].key_text(), name)
        invariant
            names == keys(items@),
            at <= items@.len(),
            slot(names, name@) == at + slot(names.skip(at as int), name@),
        decreases items@.len() - at,
    {
        assert(names.skip(at as int).drop_first() =~= names.skip(at + 1));
        assert(names.skip(at as int)[0] == items@[at as int].key());
        at += 1;
    }
    assert(at < names.len() ==> names.skip(at as int)[0] == items@[at as int].key());
    at
}

/// What stands before a key's place comes before the key, and what stands there
/// does not.
pub proof fn slot_divides(names: Seq<Seq<char>>, name: Seq<char>)
    ensures
        slot(names, name) <= names.len(),
        forall|j: int| 0 <= j < slot(names, name) ==> before(#[trigger] names[j], name),
        slot(names, name) < names.len() ==> !before(names[slot(names, name) as int], name),
    decreases names.len(),
{
    if names.len() > 0 && before(names[0], name) {
        let rest = names.drop_first();
        slot_divides(rest, name);
        let at = slot(names, name) as int;
        assert forall|j: int| 0 <= j < at implies before(#[trigger] names[j], name) by {
            if j > 0 {
                assert(names[j] == rest[j - 1]);
            }
        }
        if at < names.len() {
            assert(names[at] == rest[at - 1]);
        }
    }
}

/// A new key that is put where it belongs leaves the keys in their order.
pub proof fn insertion_keeps_order(names: Seq<Seq<char>>, name: Seq<char>)
    requires
        ascending(names),
        !names.contains(name),
    ensures
        slot(names, name) <= names.len(),
        ascending(names.insert(slot(names, name) as int, name)),
{
    slot_divides(names, name);
    let at = slot(names, name) as int;
    let after = names.insert(at, name);
    names.insert_ensures(at, name);
    assert forall|j: int| at <= j < names.len() implies before(name, #[trigger] names[j]) by {
        assert(names.contains(names[at]));
        before_is_total(names[at], name);
        if j > at {
            before_is_transitive(name, names[at], names[j]);
        }
    }
    assert forall|i: int, j: int| 0 <= i < j < after.len() implies before(
        #[trigger] after[i],
        #[trigger] after[j],
    ) by {
        let left = if i < at {
            i
        } else {
            i - 1
        };
        let right = if j < at {
            j
        } else {
            j - 1
        };
        if i != at {
            assert(after[i] == names[left]);
        }
        if j != at {
            assert(after[j] == names[right]);
        }
    }
}

/// In a list in the order of its keys no two places have the same key.
pub proof fn a_key_has_one_place<T: Keyed>(items: Seq<T>, one: int, two: int)
    requires
        in_key_order(items),
        0 <= one < items.len(),
        0 <= two < items.len(),
        items[one].key() == items[two].key(),
    ensures
        one == two,
{
    let names = keys(items);
    assert(names[one] == names[two]);
    before_is_irreflexive(names[one]);
}

}
