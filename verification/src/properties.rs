//! Key/value properties that PipeWire attaches to the objects it announces.

use vstd::prelude::*;

verus! {

/// The text of a properties dictionary: its key/value pairs in order.
pub type PropertiesView = Seq<(Seq<char>, Seq<char>)>;

/// The value of the first pair of `items` whose key is `key`.
pub open spec fn lookup(items: PropertiesView, key: Seq<char>) -> Option<Seq<char>>
    decreases items.len(),
{
    if items.len() == 0 {
        None
    } else if items[0].0 == key {
        Some(items[0].1)
    } else {
        lookup(items.drop_first(), key)
    }
}

/// A dictionary of properties, as a sequence of key/value pairs in the order
/// the dictionary holds them.
#[derive(Clone, Debug)]
pub struct Properties {
    pub items: Vec<(String, String)>,
}

impl View for Properties {
    type V = PropertiesView;

    open spec fn view(&self) -> PropertiesView {
        self.items@.map_values(|p: (String, String)| (p.0@, p.1@))
    }
}

proof fn lemma_lookup_skip(items: PropertiesView, key: Seq<char>, i: int)
    requires
        0 <= i < items.len(),
    ensures
        lookup(items.skip(i), key) == (if items[i].0 == key {
            Some(items[i].1)
        } else {
            lookup(items.skip(i + 1), key)
        }),
{
    assert(items.skip(i).drop_first() =~= items.skip(i + 1));
}

impl Properties {
    /// An empty dictionary.
    pub fn new() -> (p: Properties)
        ensures
            p@ == Seq::<(Seq<char>, Seq<char>)>::empty(),
    {
        let p = Properties { items: Vec::new() };
        assert(p@ =~= Seq::<(Seq<char>, Seq<char>)>::empty());
        p
    }

    /// Adds a pair at the end of the dictionary.
    pub fn push(&mut self, key: String, value: String)
        ensures
            final(self)@ == old(self)@.push((key@, value@)),
    {
        self.items.push((key, value));
        assert(self@ =~= old(self)@.push((key@, value@)));
    }

    /// The value of the first pair whose key is `key`, if there is one.
    pub fn get(&self, key: &str) -> (r: Option<String>)
        ensures
            match r {
                Some(v) => lookup(self@, key@) == Some(v@),
                None => lookup(self@, key@) is None,
            },
    {
        let wanted = String::from_str(key);
        let n = self.items.len();
        let mut i: usize = 0;
        assert(self@.skip(0) =~= self@);
        while i < n
            invariant
                n == self.items.len(),
                n == self@.len(),
                i <= n,
                wanted@ == key@,
                lookup(self@, key@) == lookup(self@.skip(i as int), key@),
            decreases n - i,
        {
            proof {
                lemma_lookup_skip(self@, key@, i as int);
            }
            if self.items[i].0 == wanted {
                return Some(self.items[i].1.clone());
            }
            i = i + 1;
        }
        assert(self@.skip(i as int).len() == 0);
        None
    }
}

/// A lookup finds the value of the first pair whose key is `key`, and finds
/// nothing exactly when no pair has that key.
pub proof fn lemma_lookup_first_match(items: PropertiesView, key: Seq<char>)
    ensures
        lookup(items, key) matches Some(v) ==> exists|i: int|
            0 <= i < items.len() && #[trigger] items[i] == (key, v) && forall|j: int|
                0 <= j < i ==> #[trigger] items[j].0 != key,
        lookup(items, key) is None <==> forall|i: int| 0 <= i < items.len() ==> #[trigger] items[i].0 != key,
    decreases items.len(),
{
    if items.len() > 0 {
        let rest = items.drop_first();
        lemma_lookup_first_match(rest, key);
        if items[0].0 != key {
            if let Some(v) = lookup(items, key) {
                let i = choose|i: int|
                    0 <= i < rest.len() && #[trigger] rest[i] == (key, v) && forall|j: int|
                        0 <= j < i ==> #[trigger] rest[j].0 != key;
                assert(items[i + 1] == (key, v));
                assert forall|j: int| 0 <= j < i + 1 implies #[trigger] items[j].0 != key by {
                    if j > 0 {
                        assert(items[j] == rest[j - 1]);
                    }
                }
            }
            if lookup(items, key) is None {
                assert forall|i: int| 0 <= i < items.len() implies #[trigger] items[i].0 != key by {
                    if i > 0 {
                        assert(items[i] == rest[i - 1]);
                    }
                }
            } else {
                let w = choose|i: int| 0 <= i < rest.len() && rest[i].0 == key;
                assert(items[w + 1] == rest[w]);
            }
        } else {
            assert(items[0] == (key, items[0].1));
        }
    }
}

} // verus!
