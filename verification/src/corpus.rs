//! The seed corpus: which files become seeds, and the seeds by name.

use crate::grammar::{parse, takes_language, ParseError};
use tree_sitter::{Language, Tree};
use vstd::prelude::*;
use vstd::utf8::encode_utf8;

verus! {

/// A seed: the path it was read from, its bytes, and the tree that its text
/// was parsed to.
#[derive(Debug)]
pub struct Seed {
    pub name: String,
    pub bytes: Vec<u8>,
    pub tree: Tree,
}

/// Decides whether a file becomes a seed: it does if it could be read as text
/// and the text gave a tree; any other file is passed over. The seed holds
/// the text's bytes unchanged, and the tree.
pub fn load_seed(name: String, text: Option<String>, tree: Option<Tree>) -> (seed: Option<Seed>)
    ensures
        seed is Some <==> text is Some && tree is Some,
        seed is Some ==> {
            &&& seed->0.name == name
            &&& seed->0.bytes@ == encode_utf8(text->0@)
            &&& seed->0.tree == tree->0
        },
{
    match text {
        Some(t) => {
            match tree {
                Some(tree) => {
                    let bytes = t.as_str().as_bytes_vec();
                    Some(Seed { name, bytes, tree })
                },
                None => None,
            }
        },
        None => None,
    }
}

/// What a readable file comes to once its text has been parsed: with a
/// tree, the seed of that name with the text's bytes unchanged and that
/// tree; without one, nothing.
pub fn seed_from_parse(name: String, text: String, parsed: Result<Tree, ParseError>) -> (seed:
    Option<Seed>)
    ensures
        seed is Some <==> parsed is Ok,
        seed is Some ==> {
            &&& seed->0.name == name
            &&& seed->0.bytes@ == encode_utf8(text@)
            &&& seed->0.tree == parsed->Ok_0
        },
{
    match parsed {
        Err(_) => None,
        Ok(tree) => load_seed(name, Some(text), Some(tree)),
    }
}

/// Reads a file's text as a seed under `language`: a file that could be read
/// becomes a seed if the parser takes the language, with the text's bytes
/// unchanged and the tree that the parser gave; any other file is passed
/// over.
pub fn read_seed(language: &Language, name: String, text: Option<String>) -> (seed: Option<Seed>)
    ensures
        seed is Some <==> text is Some && takes_language(*language),
        seed is Some ==> seed->0.name == name && seed->0.bytes@ == encode_utf8(text->0@),
{
    match text {
        None => None,
        Some(t) => {
            let parsed = parse(language, t.as_str());
            seed_from_parse(name, t, parsed)
        },
    }
}

/// No two of `seeds` share a name.
pub open spec fn distinct_names(seeds: Seq<Seed>) -> bool {
    forall|i: int, j: int| 0 <= i < j < seeds.len() ==> seeds[i].name@ != seeds[j].name@
}

/// Whether one of `seeds` has this name.
pub open spec fn names(seeds: Seq<Seed>, name: Seq<char>) -> bool {
    exists|i: int| 0 <= i < seeds.len() && #[trigger] seeds[i].name@ == name
}

/// Where among `seeds` the seed of this name stands, if there is one.
pub open spec fn position(seeds: Seq<Seed>, name: Seq<char>) -> int {
    choose|i: int| 0 <= i < seeds.len() && #[trigger] seeds[i].name@ == name
}

/// What a seed holds under its name: its bytes and its tree.
pub open spec fn held(seed: Seed) -> (Seq<u8>, Tree) {
    (seed.bytes@, seed.tree)
}

/// The seeds as a mapping from names to bytes and trees.
pub open spec fn seed_map(seeds: Seq<Seed>) -> Map<Seq<char>, (Seq<u8>, Tree)> {
    Map::new(|n: Seq<char>| names(seeds, n), |n: Seq<char>| held(seeds[position(seeds, n)]))
}

/// Among seeds without repeated names, a seed is found where it stands.
pub proof fn lemma_position(seeds: Seq<Seed>, i: int)
    requires
        distinct_names(seeds),
        0 <= i < seeds.len(),
    ensures
        names(seeds, seeds[i].name@),
        position(seeds, seeds[i].name@) == i,
{
    let name = seeds[i].name@;
    assert(seeds[i].name@ == name);
    let p = position(seeds, name);
    assert(0 <= p < seeds.len() && seeds[p].name@ == name);
    if p < i {
        assert(seeds[p].name@ != seeds[i].name@);
    } else if i < p {
        assert(seeds[i].name@ != seeds[p].name@);
    }
}

/// Puts `seed` among `seeds`, in place of one of the same name if there is
/// one, and at the end if not.
pub fn put_seed(seeds: &mut Vec<Seed>, seed: Seed)
    requires
        distinct_names(old(seeds)@),
    ensures
        distinct_names(final(seeds)@),
        seed_map(final(seeds)@) == seed_map(old(seeds)@).insert(seed.name@, held(seed)),
        final(seeds)@.len() == if names(old(seeds)@, seed.name@) {
            old(seeds)@.len()
        } else {
            old(seeds)@.len() + 1
        },
{
    let ghost before = seeds@;
    let ghost name = seed.name@;
    let ghost kept = held(seed);
    let mut i: usize = 0;
    let mut found = false;
    while i < seeds.len()
        invariant_except_break
            !found,
            forall|j: int| 0 <= j < i ==> seeds@[j].name@ != name,
        invariant
            seeds@ == before,
            i <= seeds@.len(),
            name == seed.name@,
        ensures
            found ==> i < seeds@.len() && seeds@[i as int].name@ == name,
            !found ==> forall|j: int| 0 <= j < seeds@.len() ==> seeds@[j].name@ != name,
        decreases seeds@.len() - i,
    {
        if seeds[i].name == seed.name {
            found = true;
            break ;
        }
        i += 1;
    }
    if found {
        seeds.set(i, seed);
    } else {
        seeds.push(seed);
    }
    proof {
        let after = seeds@;
        assert forall|a: int, b: int| 0 <= a < b < after.len() implies after[a].name@
            != after[b].name@ by {
            if found {
                assert(after[a].name@ == before[a].name@);
                assert(after[b].name@ == before[b].name@);
            } else if b < before.len() {
                assert(after[a] == before[a]);
                assert(after[b] == before[b]);
            } else {
                assert(after[a] == before[a]);
            }
        }
        let at = if found {
            i as int
        } else {
            before.len() as int
        };
        assert(after[at].name@ == name && held(after[at]) == kept);
        lemma_position(after, at);
        assert forall|n: Seq<char>| names(after, n) <==> (names(before, n) || n == name) by {
            if names(after, n) && n != name {
                let p = position(after, n);
                assert(before[p].name@ == n);
            }
            if names(before, n) {
                let p = position(before, n);
                assert(after[p].name@ == n);
            }
        }
        assert forall|n: Seq<char>| names(before, n) && n != name implies held(
            after[position(after, n)],
        ) == held(before[position(before, n)]) by {
            let p = position(before, n);
            assert(after[p].name@ == n);
            lemma_position(after, p);
            assert(after[p] == before[p]);
        }
        assert(seed_map(after) =~= seed_map(before).insert(name, kept));
        if names(before, name) {
            let p = position(before, name);
            assert(found);
        }
    }
}

/// The seeds of a run, by name: no two seeds share a name.
#[derive(Debug)]
pub struct Corpus {
    seeds: Vec<Seed>,
}

impl Corpus {
    #[verifier::type_invariant]
    spec fn names_are_distinct(self) -> bool {
        distinct_names(self.seeds@)
    }

    /// The seeds, in the order in which their names first came.
    pub closed spec fn listing(&self) -> Seq<Seed> {
        self.seeds@
    }

    /// The corpus as a mapping from names to bytes and trees.
    pub open spec fn view(&self) -> Map<Seq<char>, (Seq<u8>, Tree)> {
        seed_map(self.listing())
    }

    /// A corpus without seeds.
    pub fn new() -> (corpus: Corpus)
        ensures
            corpus.listing().len() == 0,
            corpus@ == Map::<Seq<char>, (Seq<u8>, Tree)>::empty(),
    {
        let corpus = Corpus { seeds: Vec::new() };
        proof {
            assert(corpus@ =~= Map::<Seq<char>, (Seq<u8>, Tree)>::empty());
        }
        corpus
    }

    /// How many seeds are held.
    pub fn len(&self) -> (n: usize)
        ensures
            n == self.listing().len(),
    {
        self.seeds.len()
    }

    /// Whether no seed is held.
    pub fn is_empty(&self) -> (empty: bool)
        ensures
            empty == (self.listing().len() == 0),
    {
        self.seeds.len() == 0
    }

    /// Puts a seed into the corpus, in place of one of the same name if one
    /// is held.
    pub fn insert(&mut self, seed: Seed)
        ensures
            final(self)@ == old(self)@.insert(seed.name@, held(seed)),
            final(self).listing().len() == if old(self)@.contains_key(seed.name@) {
                old(self).listing().len()
            } else {
                old(self).listing().len() + 1
            },
    {
        proof {
            use_type_invariant(&*self);
        }
        let mut seeds: Vec<Seed> = Vec::new();
        std::mem::swap(&mut seeds, &mut self.seeds);
        put_seed(&mut seeds, seed);
        self.seeds = seeds;
    }

    /// Hands the seeds out: no two share a name.
    pub fn into_seeds(self) -> (seeds: Vec<Seed>)
        ensures
            seeds@ == self.listing(),
            distinct_names(seeds@),
    {
        proof {
            use_type_invariant(&self);
        }
        self.seeds
    }
}

} // verus!
