use std::sync::Arc;
use vstd::prelude::*;

verus! {

/// An amount of some named resource that an action consumes.
#[derive(Debug, Clone)]
pub struct Resource {
    pub name: String,
    pub amount: u64,
}

impl Resource {
    pub fn new(name: &str, amount: u64) -> (r: Resource)
        ensures
            r.name@ == name@,
            r.amount == amount,
    {
        Resource { name: name.to_owned(), amount }
    }
}

/// One action of a game's catalog: its key `id`, a display name, a category,
/// a description, its cost in whole units of time, and the resources it uses.
#[derive(Debug, Clone)]
pub struct GameItem {
    pub id: String,
    pub name: String,
    pub category: String,
    pub description: String,
    pub time_cost: u64,
    pub resources: Vec<Resource>,
}

impl GameItem {
    pub fn new(id: &str, name: &str, category: &str) -> (r: GameItem)
        ensures
            r.id@ == id@,
            r.name@ == name@,
            r.category@ == category@,
            r.description@ == Seq::<char>::empty(),
            r.time_cost == 0,
            r.resources@ == Seq::<Resource>::empty(),
    {
        GameItem {
            id: id.to_owned(),
            name: name.to_owned(),
            category: category.to_owned(),
            description: String::new(),
            time_cost: 0,
            resources: Vec::new(),
        }
    }

    pub fn with_description(self, description: &str) -> (r: GameItem)
        ensures
            r == (GameItem { description: r.description, ..self }),
            r.description@ == description@,
    {
        GameItem { description: description.to_owned(), ..self }
    }

    pub fn with_time_cost(self, time_cost: u64) -> (r: GameItem)
        ensures
            r == (GameItem { time_cost, ..self }),
    {
        GameItem { time_cost, ..self }
    }

    pub fn with_resource(self, resource: Resource) -> (r: GameItem)
        ensures
            r == (GameItem { resources: r.resources, ..self }),
            r.resources@ == self.resources@.push(resource),
    {
        let mut r = self;
        r.resources.push(resource);
        r
    }
}

/// A game: its identity and the catalog of actions available in it.
///
/// Items are shared, never copied: a build order holds the same `Arc` that
/// the catalog holds.
#[derive(Debug, Clone)]
pub struct Game {
    pub id: String,
    pub name: String,
    pub description: String,
    pub items: Vec<Arc<GameItem>>,
}

/// The keys of a sequence of catalog items, in order.
pub open spec fn keys_of(items: Seq<Arc<GameItem>>) -> Seq<Seq<char>> {
    items.map_values(|it: Arc<GameItem>| it.id@)
}

/// The character sequences of a sequence of strings.
pub open spec fn views_of(v: Seq<String>) -> Seq<Seq<char>> {
    v.map_values(|s: String| s@)
}

/// No two items share a key.
pub open spec fn keys_unique(items: Seq<Arc<GameItem>>) -> bool {
    forall|i: int, j: int|
        0 <= i < items.len() && 0 <= j < items.len() && i != j ==> items[i].id@ != items[j].id@
}

/// Some item has the given key.
pub open spec fn has_key(items: Seq<Arc<GameItem>>, key: Seq<char>) -> bool {
    exists|i: int| 0 <= i < items.len() && items[i].id@ == key
}

/// The first item with the given key, scanning in catalog order.
pub open spec fn find_spec(items: Seq<Arc<GameItem>>, key: Seq<char>) -> Option<Arc<GameItem>>
    decreases items.len(),
{
    if items.len() == 0 {
        None
    } else if items[0].id@ == key {
        Some(items[0])
    } else {
        find_spec(items.drop_first(), key)
    }
}

/// A search finds something exactly when some item has the key, and then an
/// item that has it.
proof fn lemma_find_spec(items: Seq<Arc<GameItem>>, key: Seq<char>)
    ensures
        find_spec(items, key) is None <==> !has_key(items, key),
        find_spec(items, key) is Some ==> find_spec(items, key)->0.id@ == key,
    decreases items.len(),
{
    if items.len() > 0 {
        lemma_find_spec(items.drop_first(), key);
        if has_key(items, key) && items[0].id@ != key {
            let i = choose|i: int| 0 <= i < items.len() && items[i].id@ == key;
            assert(items.drop_first()[i - 1].id@ == key);
        }
        if has_key(items.drop_first(), key) {
            let i = choose|i: int| 0 <= i < items.len() - 1 && items.drop_first()[i].id@ == key;
            assert(items[i + 1].id@ == key);
        }
    }
}

impl Game {
    /// The catalog is well formed: its keys are unique.
    pub open spec fn wf(&self) -> bool {
        keys_unique(self.items@)
    }

    /// The keys of the catalog, in catalog order.
    pub open spec fn keys(&self) -> Seq<Seq<char>> {
        keys_of(self.items@)
    }

    pub fn new(id: &str, name: &str) -> (r: Game)
        ensures
            r.id@ == id@,
            r.name@ == name@,
            r.description@ == Seq::<char>::empty(),
            r.items@ == Seq::<Arc<GameItem>>::empty(),
            r.wf(),
    {
        Game { id: id.to_owned(), name: name.to_owned(), description: String::new(), items: Vec::new() }
    }

    pub fn with_description(self, description: &str) -> (r: Game)
        ensures
            r == (Game { description: r.description, ..self }),
            r.description@ == description@,
    {
        Game { description: description.to_owned(), ..self }
    }

    /// Registers an item. An item whose key is already in the catalog is
    /// dropped, so that keys stay unique.
    pub fn add_item(&mut self, item: GameItem)
        ensures
            final(self).id == old(self).id,
            final(self).name == old(self).name,
            final(self).description == old(self).description,
            has_key(old(self).items@, item.id@) ==> final(self).items@ == old(self).items@,
            !has_key(old(self).items@, item.id@) ==> final(self).items@ == old(self).items@.push(
                Arc::new(item),
            ),
            old(self).wf() ==> final(self).wf(),
    {
        match self.find_item(item.id.as_str()) {
            Some(_) => {},
            None => {
                self.items.push(Arc::new(item));
            },
        }
    }

    /// The first item whose key is `id`, or `None` where no item has it.
    pub fn find_item(&self, id: &str) -> (r: Option<Arc<GameItem>>)
        ensures
            r == find_spec(self.items@, id@),
            r is None <==> !has_key(self.items@, id@),
            r is Some ==> r->0.id@ == id@,
    {
        proof {
            lemma_find_spec(self.items@, id@);
            assert(self.items@.skip(0) =~= self.items@);
        }
        let key = id.to_owned();
        let mut i: usize = 0;
        while i < self.items.len()
            invariant
                i <= self.items@.len(),
                key@ == id@,
                find_spec(self.items@, id@) == find_spec(self.items@.skip(i as int), id@),
            decreases self.items@.len() - i,
        {
            proof {
                assert(self.items@.skip(i as int).drop_first() =~= self.items@.skip(i + 1));
            }
            if self.items[i].id == key {
                return Some(share(&self.items[i]));
            }
            i = i + 1;
        }
        None
    }
}

/// Relies on `Arc::clone`: the new handle points to the same item.
#[verifier::external_body]
fn share(item: &Arc<GameItem>) -> (r: Arc<GameItem>)
    ensures
        r == *item,
{
    Arc::clone(item)
}

} // verus!
