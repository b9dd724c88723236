//! What the renderer loads and keeps: fonts by file and size, and a cache
//! that loads each resource once.

use vstd::prelude::*;
use std::rc::Rc;

verus! {

/// A character as drawn in a font of a given size.
#[derive(Clone, Debug, PartialEq, Eq, Hash)]
pub struct TextCharacterDetails {
    pub c: char,
    pub font_path: String,
    pub font_size: u16,
}

/// A font: its file and its size.
#[derive(Clone, Debug, PartialEq, Eq, Hash)]
pub struct FontDetails {
    pub path: String,
    pub size: u16,
}

impl FontDetails {
    pub fn new(path: &str, size: u16) -> (r: FontDetails)
        ensures
            r.path@ == path@,
            r.size == size,
    {
        FontDetails { path: path.to_owned(), size }
    }
}

/// Loads a resource of type `R` from the text that names it, such as an
/// image from its path.
pub trait ResourceLoader<R> {
    /// Whether `r` is an answer the loader may give for `data`.
    spec fn loads(&self, data: &str, r: &Result<R, String>) -> bool;

    /// Loads the resource that `data` names.
    fn load(&self, data: &str) -> (r: Result<R, String>)
        ensures
            self.loads(data, &r),
    ;
}

/// `Rc::clone`: another pointer to the same value.
#[verifier::external_body]
fn share<R>(rc: &Rc<R>) -> (r: Rc<R>)
    ensures
        *r == **rc,
{
    Rc::clone(rc)
}

/// The resources loaded so far, by the text that names them; no name occurs
/// twice.
pub struct ResourceManager<'l, R, L: ResourceLoader<R>> {
    loader: &'l L,
    cache: Vec<(String, Rc<R>)>,
}

/// The names of a cache, in order.
pub open spec fn names_of<R>(cache: Seq<(Seq<char>, R)>) -> Seq<Seq<char>> {
    cache.map_values(|e: (Seq<char>, R)| e.0)
}

impl<'l, R, L: ResourceLoader<R>> ResourceManager<'l, R, L> {
    /// The cache: each name with what was loaded for it.
    pub closed spec fn entries(&self) -> Seq<(Seq<char>, R)> {
        self.cache@.map_values(|e: (String, Rc<R>)| (e.0@, *e.1))
    }

    pub open spec fn wf(&self) -> bool {
        names_of(self.entries()).no_duplicates()
    }

    /// What is cached for `name`, if anything.
    pub open spec fn cached(&self, name: Seq<char>) -> Option<R> {
        if exists|i: int| 0 <= i < self.entries().len() && self.entries()[i].0 == name {
            let i = choose|i: int| 0 <= i < self.entries().len() && self.entries()[i].0 == name;
            Some(self.entries()[i].1)
        } else {
            None
        }
    }

    pub closed spec fn loader_spec(&self) -> L {
        *self.loader
    }

    /// An empty cache in front of `loader`.
    pub fn new(loader: &'l L) -> (r: Self)
        ensures
            r.wf(),
            r.entries().len() == 0,
            r.loader_spec() == *loader,
    {
        let r = ResourceManager { loader, cache: Vec::new() };
        assert(r.entries() =~= Seq::<(Seq<char>, R)>::empty());
        r
    }

    /// The resource named `details`: the cached one when it was loaded
    /// before, else what the loader gives for `details`, which is then
    /// cached. A failed load is handed back and caches nothing.
    pub fn load(&mut self, details: &str) -> (r: Result<Rc<R>, String>)
        requires
            old(self).wf(),
        ensures
            final(self).wf(),
            final(self).loader_spec() == old(self).loader_spec(),
            match old(self).cached(details@) {
                Some(v) => r matches Ok(rc) && *rc == v && final(self).entries() == old(self).entries(),
                None => match r {
                    Ok(rc) => old(self).loader_spec().loads(details, &Ok(*rc))
                        && final(self).entries() == old(self).entries().push((details@, *rc))
                        && final(self).cached(details@) == Some(*rc),
                    Err(e) => old(self).loader_spec().loads(details, &Err(e))
                        && final(self).entries() == old(self).entries(),
                },
            },
    {
        let key = details.to_owned();
        let mut i: usize = 0;
        while i < self.cache.len()
            invariant
                0 <= i <= self.cache@.len(),
                self.wf(),
                key@ == details@,
                forall|j: int| 0 <= j < i ==> self.entries()[j].0 != details@,
            decreases self.cache@.len() - i,
        {
            proof {
                assert(self.entries()[i as int] == (self.cache@[i as int].0@, *self.cache@[i as int].1));
            }
            if self.cache[i].0 == key {
                proof {
                    assert(self.entries()[i as int].0 == details@);
                    let k = choose|k: int| 0 <= k < self.entries().len() && self.entries()[k].0 == details@;
                    assert(names_of(self.entries())[k] == names_of(self.entries())[i as int]);
                }
                return Ok(share(&self.cache[i].1));
            }
            i = i + 1;
        }
        let resource = match self.loader.load(details) {
            Ok(v) => v,
            Err(e) => {
                return Err(e);
            },
        };
        let rc = Rc::new(resource);
        let ghost before = self.entries();
        self.cache.push((key, share(&rc)));
        proof {
            assert(self.entries() =~= before.push((details@, *rc)));
            assert(names_of(self.entries()) =~= names_of(before).push(details@));
            let n = before.len() as int;
            assert(self.entries()[n].0 == details@);
        }
        Ok(rc)
    }

    pub fn loader(&self) -> (r: &L)
        ensures
            *r == self.loader_spec(),
    {
        self.loader
    }
}

} // verus!
