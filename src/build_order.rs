use crate::game::{find_spec, views_of, Game, GameItem};
use std::sync::Arc;
use vstd::prelude::*;

verus! {

/// One step of a build order: its 1-based position, the catalog item it
/// refers to, and free-form notes.
#[derive(Debug, Clone)]
pub struct BuildOrderStep {
    pub step_number: usize,
    pub item: Arc<GameItem>,
    pub notes: String,
}

impl BuildOrderStep {
    pub fn new(step_number: usize, item: Arc<GameItem>) -> (r: BuildOrderStep)
        ensures
            r.step_number == step_number,
            r.item == item,
            r.notes@ == Seq::<char>::empty(),
    {
        BuildOrderStep { step_number, item, notes: String::new() }
    }

    pub fn with_notes(self, notes: &str) -> (r: BuildOrderStep)
        ensures
            r.step_number == self.step_number,
            r.item == self.item,
            r.notes@ == notes@,
    {
        BuildOrderStep { notes: notes.to_owned(), ..self }
    }
}

/// What a step holds apart from its position: the item and the notes.
pub open spec fn entry_of(s: BuildOrderStep) -> (Arc<GameItem>, Seq<char>) {
    (s.item, s.notes@)
}

/// The entries of a sequence of steps, in order.
pub open spec fn entries_of(steps: Seq<BuildOrderStep>) -> Seq<(Arc<GameItem>, Seq<char>)> {
    steps.map_values(|s: BuildOrderStep| entry_of(s))
}

/// Each step's number is its index plus one.
pub open spec fn numbered(steps: Seq<BuildOrderStep>) -> bool {
    forall|i: int| 0 <= i < steps.len() ==> #[trigger] steps[i].step_number == i + 1
}

/// The sum of the time costs of the items of `steps`.
pub open spec fn cost_sum(steps: Seq<BuildOrderStep>) -> int
    decreases steps.len(),
{
    if steps.len() == 0 {
        0
    } else {
        cost_sum(steps.drop_last()) + steps.last().item.time_cost
    }
}

proof fn lemma_entries_remove(steps: Seq<BuildOrderStep>, i: int)
    requires
        0 <= i < steps.len(),
    ensures
        entries_of(steps.remove(i)) == entries_of(steps).remove(i),
{
    assert(entries_of(steps.remove(i)) =~= entries_of(steps).remove(i));
}

proof fn lemma_entries_insert(steps: Seq<BuildOrderStep>, i: int, s: BuildOrderStep)
    requires
        0 <= i <= steps.len(),
    ensures
        entries_of(steps.insert(i, s)) == entries_of(steps).insert(i, entry_of(s)),
{
    assert(entries_of(steps.insert(i, s)) =~= entries_of(steps).insert(i, entry_of(s)));
}

/// Taking an element out and putting it back elsewhere keeps the multiset.
proof fn lemma_move_same_multiset<A>(s: Seq<A>, from: int, to: int)
    requires
        0 <= from < s.len(),
        0 <= to < s.len(),
    ensures
        s.remove(from).insert(to, s[from]).to_multiset() == s.to_multiset(),
{
    broadcast use vstd::seq_lib::to_multiset_remove, vstd::seq_lib::to_multiset_insert,
        vstd::seq_lib::to_multiset_contains, vstd::multiset::group_multiset_axioms;

    assert(s.to_multiset().contains(s[from]));
    assert(s.to_multiset().remove(s[from]).insert(s[from]) =~= s.to_multiset());
}

/// Two step sequences whose items agree index by index have the same cost.
proof fn lemma_cost_sum_same_items(a: Seq<BuildOrderStep>, b: Seq<BuildOrderStep>)
    requires
        a.len() == b.len(),
        forall|i: int| 0 <= i < a.len() ==> entry_of(#[trigger] a[i]) == entry_of(b[i]),
    ensures
        cost_sum(a) == cost_sum(b),
    decreases a.len(),
{
    if a.len() > 0 {
        assert(entry_of(a[a.len() - 1]) == entry_of(b[b.len() - 1]));
        lemma_cost_sum_same_items(a.drop_last(), b.drop_last());
    }
}

/// The cost of a concatenation is the sum of the costs.
proof fn lemma_cost_sum_append(a: Seq<BuildOrderStep>, b: Seq<BuildOrderStep>)
    ensures
        cost_sum(a + b) == cost_sum(a) + cost_sum(b),
    decreases b.len(),
{
    if b.len() > 0 {
        assert((a + b).drop_last() =~= a + b.drop_last());
        lemma_cost_sum_append(a, b.drop_last());
    }
}

proof fn lemma_cost_sum_remove(steps: Seq<BuildOrderStep>, i: int)
    requires
        0 <= i < steps.len(),
    ensures
        cost_sum(steps.remove(i)) == cost_sum(steps) - steps[i].item.time_cost,
{
    let pre = steps.subrange(0, i);
    let post = steps.subrange(i + 1, steps.len() as int);
    assert(steps.remove(i) =~= pre + post);
    assert(steps =~= pre.push(steps[i]) + post);
    assert(pre.push(steps[i]).drop_last() =~= pre);
    lemma_cost_sum_append(pre, post);
    lemma_cost_sum_append(pre.push(steps[i]), post);
}

proof fn lemma_cost_sum_insert(steps: Seq<BuildOrderStep>, i: int, s: BuildOrderStep)
    requires
        0 <= i <= steps.len(),
    ensures
        cost_sum(steps.insert(i, s)) == cost_sum(steps) + s.item.time_cost,
{
    let pre = steps.subrange(0, i);
    let post = steps.subrange(i, steps.len() as int);
    assert(steps.insert(i, s) =~= pre.push(s) + post);
    assert(steps =~= pre + post);
    assert(pre.push(s).drop_last() =~= pre);
    lemma_cost_sum_append(pre, post);
    lemma_cost_sum_append(pre.push(s), post);
}

/// The entries of a build order made from `keys`: for each key found in
/// `items`, in order, the first item with it and empty notes. Keys that are
/// not found are passed over.
pub open spec fn resolve(items: Seq<Arc<GameItem>>, keys: Seq<Seq<char>>) -> Seq<
    (Arc<GameItem>, Seq<char>),
>
    decreases keys.len(),
{
    if keys.len() == 0 {
        Seq::empty()
    } else {
        let prev = resolve(items, keys.drop_last());
        match find_spec(items, keys.last()) {
            Some(it) => prev.push((it, Seq::<char>::empty())),
            None => prev,
        }
    }
}

/// An ordered, annotated sequence of catalog items.
#[derive(Debug, Clone)]
pub struct BuildOrder {
    pub name: String,
    pub steps: Vec<BuildOrderStep>,
}

impl BuildOrder {
    /// The steps are numbered 1, 2, ... in list order.
    pub open spec fn wf(&self) -> bool {
        numbered(self.steps@)
    }

    /// The item and notes of each step, in order.
    pub open spec fn entries(&self) -> Seq<(Arc<GameItem>, Seq<char>)> {
        entries_of(self.steps@)
    }

    /// The sum of the time costs of the items of all steps.
    pub open spec fn total_spec(&self) -> int {
        cost_sum(self.steps@)
    }

    pub fn new(name: &str) -> (r: BuildOrder)
        ensures
            r.name@ == name@,
            r.steps@ == Seq::<BuildOrderStep>::empty(),
            r.wf(),
    {
        BuildOrder { name: name.to_owned(), steps: Vec::new() }
    }

    /// A build order named `name` with one step for each key of `keys` that
    /// the catalog holds, in the order of `keys`.
    pub fn from_keys(name: &str, keys: &Vec<String>, game: &Game) -> (r: BuildOrder)
        ensures
            r.name@ == name@,
            r.entries() == resolve(game.items@, views_of(keys@)),
            r.wf(),
    {
        let mut order = BuildOrder::new(name);
        let mut i: usize = 0;
        while i < keys.len()
            invariant
                i <= keys@.len(),
                order.name@ == name@,
                order.steps@.len() <= i,
                order.wf(),
                order.entries() == resolve(game.items@, views_of(keys@.take(i as int))),
            decreases keys@.len() - i,
        {
            proof {
                assert(views_of(keys@.take(i + 1)).drop_last() =~= views_of(keys@.take(i as int)));
            }
            match game.find_item(keys[i].as_str()) {
                Some(item) => order.add_step(item),
                None => {},
            }
            i = i + 1;
        }
        proof {
            assert(keys@.take(i as int) =~= keys@);
        }
        order
    }

    /// Appends a step for `item` with empty notes, numbered one past the
    /// current length.
    pub fn add_step(&mut self, item: Arc<GameItem>)
        requires
            old(self).steps@.len() < usize::MAX,
        ensures
            final(self).name == old(self).name,
            final(self).steps@.len() == old(self).steps@.len() + 1,
            final(self).steps@.drop_last() == old(self).steps@,
            final(self).steps@.last().step_number == old(self).steps@.len() + 1,
            final(self).entries() == old(self).entries().push((item, Seq::<char>::empty())),
            final(self).total_spec() == old(self).total_spec() + item.time_cost,
            old(self).wf() ==> final(self).wf(),
    {
        let step_number = self.steps.len() + 1;
        self.push_step(BuildOrderStep::new(step_number, item));
    }

    /// Appends a step for `item` with the given notes, numbered one past the
    /// current length.
    pub fn add_step_with_notes(&mut self, item: Arc<GameItem>, notes: &str)
        requires
            old(self).steps@.len() < usize::MAX,
        ensures
            final(self).name == old(self).name,
            final(self).steps@.len() == old(self).steps@.len() + 1,
            final(self).steps@.drop_last() == old(self).steps@,
            final(self).steps@.last().step_number == old(self).steps@.len() + 1,
            final(self).entries() == old(self).entries().push((item, notes@)),
            final(self).total_spec() == old(self).total_spec() + item.time_cost,
            old(self).wf() ==> final(self).wf(),
    {
        let step_number = self.steps.len() + 1;
        self.push_step(BuildOrderStep::new(step_number, item).with_notes(notes));
    }

    fn push_step(&mut self, step: BuildOrderStep)
        requires
            step.step_number == old(self).steps@.len() + 1,
        ensures
            final(self).name == old(self).name,
            final(self).steps@ == old(self).steps@.push(step),
            final(self).entries() == old(self).entries().push(entry_of(step)),
            final(self).total_spec() == old(self).total_spec() + step.item.time_cost,
            old(self).wf() ==> final(self).wf(),
    {
        let ghost before = self.steps@;
        self.steps.push(step);
        proof {
            assert(self.entries() =~= entries_of(before).push(entry_of(step)));
            assert(self.steps@.drop_last() =~= before);
        }
    }

    /// Removes every step.
    pub fn clear(&mut self)
        ensures
            final(self).name == old(self).name,
            final(self).steps@ == Seq::<BuildOrderStep>::empty(),
            final(self).total_spec() == 0,
            final(self).wf(),
    {
        self.steps.clear();
    }

    /// The sum of the time costs of the items of all steps.
    pub fn total_time(&self) -> (r: u128)
        ensures
            r == self.total_spec(),
    {
        let mut total: u128 = 0;
        let mut i: usize = 0;
        while i < self.steps.len()
            invariant
                i <= self.steps@.len(),
                total == cost_sum(self.steps@.take(i as int)),
                total <= i * 0xFFFF_FFFF_FFFF_FFFFu128,
            decreases self.steps@.len() - i,
        {
            let cost = self.steps[i].item.time_cost;
            proof {
                assert(self.steps@.take(i + 1).drop_last() =~= self.steps@.take(i as int));
                assert(total + cost <= (i + 1) * 0xFFFF_FFFF_FFFF_FFFFu128) by (nonlinear_arith)
                    requires
                        total <= i * 0xFFFF_FFFF_FFFF_FFFFu128,
                        cost <= 0xFFFF_FFFF_FFFF_FFFFu64,
                ;
                assert((i + 1) * 0xFFFF_FFFF_FFFF_FFFFu128 <= 0x1_0000_0000_0000_0000 * 0xFFFF_FFFF_FFFF_FFFFu128) by (nonlinear_arith)
                    requires
                        i < 0x1_0000_0000_0000_0000,
                ;
            }
            total = total + cost as u128;
            i = i + 1;
        }
        proof {
            assert(self.steps@.take(i as int) =~= self.steps@);
        }
        total
    }

    /// Moves the step at `from` to index `to`; the steps in between shift by
    /// one and all are renumbered. Where either index is out of range, or
    /// they are equal, nothing changes.
    pub fn move_step(&mut self, from: usize, to: usize)
        ensures
            final(self).name == old(self).name,
            from < old(self).steps@.len() && to < old(self).steps@.len() && from != to ==> {
                &&& final(self).entries() == old(self).entries().remove(from as int).insert(
                    to as int,
                    old(self).entries()[from as int],
                )
                &&& final(self).wf()
            },
            !(from < old(self).steps@.len() && to < old(self).steps@.len() && from != to)
                ==> *final(self) == *old(self),
            final(self).entries().to_multiset() == old(self).entries().to_multiset(),
            final(self).total_spec() == old(self).total_spec(),
            old(self).wf() ==> final(self).wf(),
    {
        if from < self.steps.len() && to < self.steps.len() && from != to {
            let ghost before = self.steps@;
            let step = self.steps.remove(from);
            self.steps.insert(to, step);
            proof {
                lemma_entries_remove(before, from as int);
                lemma_entries_insert(before.remove(from as int), to as int, before[from as int]);
                lemma_move_same_multiset(entries_of(before), from as int, to as int);
                lemma_cost_sum_remove(before, from as int);
                lemma_cost_sum_insert(before.remove(from as int), to as int, before[from as int]);
            }
            self.renumber_steps();
        }
    }

    /// Removes the step at `index` and renumbers the rest. Where `index` is
    /// out of range, nothing changes.
    pub fn remove_step(&mut self, index: usize)
        ensures
            final(self).name == old(self).name,
            index < old(self).steps@.len() ==> {
                &&& final(self).entries() == old(self).entries().remove(index as int)
                &&& final(self).total_spec() == old(self).total_spec() - old(
                    self,
                ).steps@[index as int].item.time_cost
                &&& final(self).wf()
            },
            index >= old(self).steps@.len() ==> *final(self) == *old(self),
            old(self).wf() ==> final(self).wf(),
    {
        if index < self.steps.len() {
            let ghost before = self.steps@;
            self.steps.remove(index);
            proof {
                lemma_entries_remove(before, index as int);
                lemma_cost_sum_remove(before, index as int);
            }
            self.renumber_steps();
        }
    }

    /// Sets each step's number to its index plus one.
    fn renumber_steps(&mut self)
        ensures
            final(self).name == old(self).name,
            final(self).steps@.len() == old(self).steps@.len(),
            forall|i: int|
                0 <= i < old(self).steps@.len() ==> entry_of(#[trigger] final(self).steps@[i])
                    == entry_of(old(self).steps@[i]),
            final(self).entries() == old(self).entries(),
            final(self).total_spec() == old(self).total_spec(),
            final(self).wf(),
    {
        let n = self.steps.len();
        let mut i: usize = 0;
        while i < n
            invariant
                n == self.steps@.len(),
                n == old(self).steps@.len(),
                i <= n,
                self.name == old(self).name,
                forall|j: int|
                    0 <= j < n ==> entry_of(#[trigger] self.steps@[j]) == entry_of(
                        old(self).steps@[j],
                    ),
                forall|j: int| 0 <= j < i ==> #[trigger] self.steps@[j].step_number == j + 1,
            decreases n - i,
        {
            self.steps[i].step_number = i + 1;
            i = i + 1;
        }
        proof {
            assert(self.entries() =~= old(self).entries());
            lemma_cost_sum_same_items(self.steps@, old(self).steps@);
        }
    }
}

} // verus!
