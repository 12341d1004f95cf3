//! String pools and the `fetch` operation over them.
//!
//! A pool is a fixed collection of pre-generated strings, created once and
//! never mutated afterwards — `fetch` takes `&self`, so a run can only read
//! it. The two representations differ in what a fetch hands out: the cloning
//! pool returns a freshly allocated copy of the chosen slot, the
//! shared-ownership pool returns a new reference-counted handle onto the
//! chosen slot's buffer.
use crate::rng::{rand_index, random_char};
use std::sync::Arc;
use vstd::prelude::*;

verus! {

/// Relies on `String::push`: it appends exactly the given character.
#[verifier::external_body]
fn push_char(s: &mut String, c: char)
    ensures
        final(s)@ == old(s)@.push(c),
{
    s.push(c);
}

/// Relies on `Arc::clone`: the returned handle shares the same value; only
/// the reference count changes.
#[verifier::external_body]
fn clone_arc(a: &Arc<String>) -> (r: Arc<String>)
    ensures
        r == *a,
{
    a.clone()
}

/// Relies on `Arc`'s `Deref` impl (and `String::as_str`): a handle reads the
/// shared string itself.
#[verifier::external_body]
fn arc_as_str(a: &Arc<String>) -> (r: &str)
    ensures
        r@ == a@,
{
    a.as_str()
}

/// A string of `n` pseudo-random characters.
pub fn random_string(n: usize) -> (r: String)
    ensures
        r@.len() == n,
{
    let mut s = String::new();
    let mut i: usize = 0;
    while i < n
        invariant
            i <= n,
            s@.len() == i,
        decreases n - i,
    {
        push_char(&mut s, random_char());
        i = i + 1;
    }
    s
}

/// `s` is one of the pool's strings.
pub open spec fn drawn_from(s: Seq<char>, pool: Seq<Seq<char>>) -> bool {
    exists|i: int| 0 <= i < pool.len() && s == pool[i]
}

/// The pool representation whose `get` hands out an independently owned copy
/// of the chosen slot.
#[derive(Debug)]
pub struct CloneStrSrc {
    string_pool: Vec<String>,
}

impl CloneStrSrc {
    /// The pool's contents, slot by slot.
    pub closed spec fn pool(&self) -> Seq<Seq<char>> {
        Seq::new(self.string_pool@.len(), |i: int| self.string_pool@[i]@)
    }

    /// A pool of `num_strs` freshly generated strings of `strlen` characters
    /// each.
    pub fn new(strlen: usize, num_strs: usize) -> (r: CloneStrSrc)
        ensures
            r.pool().len() == num_strs,
            forall|i: int| 0 <= i < num_strs ==> r.pool()[i].len() == strlen,
    {
        let mut string_pool: Vec<String> = Vec::with_capacity(num_strs);
        let mut i: usize = 0;
        while i < num_strs
            invariant
                i <= num_strs,
                string_pool@.len() == i,
                forall|j: int| 0 <= j < i ==> string_pool@[j]@.len() == strlen,
            decreases num_strs - i,
        {
            string_pool.push(random_string(strlen));
            i = i + 1;
        }
        CloneStrSrc { string_pool }
    }

    /// A pool holding exactly the given strings, for callers that need a
    /// deterministic pool instead of a generated one.
    pub fn from_strings(strings: Vec<String>) -> (r: CloneStrSrc)
        ensures
            r.pool().len() == strings@.len(),
            forall|i: int| 0 <= i < strings@.len() ==> r.pool()[i] == strings@[i]@,
    {
        CloneStrSrc { string_pool: strings }
    }

    /// Fetch one string for use: a freshly allocated owned copy of a slot
    /// chosen at random. The cost scales with the string's length.
    pub fn get(&self) -> (r: String)
        requires
            self.pool().len() >= 1,
        ensures
            drawn_from(r@, self.pool()),
    {
        let idx: usize = rand_index(self.string_pool.len());
        let r = self.string_pool[idx].clone();
        proof {
            assert(r@ == self.pool()[idx as int]);
        }
        r
    }
}

/// The pool representation whose `get_arc` hands out a reference-counted
/// handle sharing the chosen slot's buffer.
#[derive(Debug)]
pub struct ArcStrSrc {
    string_pool: Vec<Arc<String>>,
}

impl ArcStrSrc {
    /// The pool's contents, slot by slot.
    pub closed spec fn pool(&self) -> Seq<Seq<char>> {
        Seq::new(self.string_pool@.len(), |i: int| self.string_pool@[i]@)
    }

    /// A pool of `num_strs` freshly generated strings of `strlen` characters
    /// each, every slot reference-counted.
    pub fn new(strlen: usize, num_strs: usize) -> (r: ArcStrSrc)
        ensures
            r.pool().len() == num_strs,
            forall|i: int| 0 <= i < num_strs ==> r.pool()[i].len() == strlen,
    {
        let mut string_pool: Vec<Arc<String>> = Vec::with_capacity(num_strs);
        let mut i: usize = 0;
        while i < num_strs
            invariant
                i <= num_strs,
                string_pool@.len() == i,
                forall|j: int| 0 <= j < i ==> string_pool@[j]@.len() == strlen,
            decreases num_strs - i,
        {
            string_pool.push(Arc::new(random_string(strlen)));
            i = i + 1;
        }
        ArcStrSrc { string_pool }
    }

    /// A pool holding exactly the given strings, for callers that need a
    /// deterministic pool instead of a generated one.
    pub fn from_strings(strings: &Vec<String>) -> (r: ArcStrSrc)
        ensures
            r.pool().len() == strings@.len(),
            forall|i: int| 0 <= i < strings@.len() ==> r.pool()[i] == strings@[i]@,
    {
        let mut string_pool: Vec<Arc<String>> = Vec::with_capacity(strings.len());
        let mut i: usize = 0;
        while i < strings.len()
            invariant
                i <= strings@.len(),
                string_pool@.len() == i,
                forall|j: int| 0 <= j < i ==> string_pool@[j]@ == strings@[j]@,
            decreases strings@.len() - i,
        {
            string_pool.push(Arc::new(strings[i].clone()));
            i = i + 1;
        }
        ArcStrSrc { string_pool }
    }

    /// Fetch one string for use: a new handle onto a slot chosen at random,
    /// sharing the slot's buffer. The cost is a reference-count bump,
    /// independent of the string's length.
    pub fn get_arc(&self) -> (r: Arc<String>)
        requires
            self.pool().len() >= 1,
        ensures
            drawn_from(r@, self.pool()),
    {
        let idx: usize = rand_index(self.string_pool.len());
        let r = clone_arc(&self.string_pool[idx]);
        proof {
            assert(r@ == self.pool()[idx as int]);
        }
        r
    }
}

/// A source of strings: one of the two pool representations, tagged. A
/// workload fetches from it without knowing which strategy it runs against.
pub enum StringSrc {
    Cloning(CloneStrSrc),
    Shared(ArcStrSrc),
}

/// What one fetch handed out: an owned copy or a shared handle, matching the
/// source's representation.
pub enum Fetched {
    Owned(String),
    Handle(Arc<String>),
}

impl Fetched {
    /// The fetched string's characters, whichever representation carries
    /// them.
    pub open spec fn chars(&self) -> Seq<char> {
        match self {
            Fetched::Owned(s) => s@,
            Fetched::Handle(a) => a@,
        }
    }

    /// Read the fetched string, whichever representation carries it.
    pub fn as_str(&self) -> (r: &str)
        ensures
            r@ == self.chars(),
    {
        match self {
            Fetched::Owned(s) => s.as_str(),
            Fetched::Handle(a) => arc_as_str(a),
        }
    }
}

impl StringSrc {
    /// The pool's contents, slot by slot, whichever representation holds
    /// them.
    pub open spec fn pool(&self) -> Seq<Seq<char>> {
        match self {
            StringSrc::Cloning(c) => c.pool(),
            StringSrc::Shared(a) => a.pool(),
        }
    }

    /// Whether this source hands out shared handles rather than owned
    /// copies.
    pub open spec fn wants_arc_spec(&self) -> bool {
        self is Shared
    }

    /// Query the representation this source is willing to produce.
    pub fn want_arc(&self) -> (b: bool)
        ensures
            b == self.wants_arc_spec(),
    {
        match self {
            StringSrc::Cloning(_) => false,
            StringSrc::Shared(_) => true,
        }
    }

    /// The number of strings in the pool.
    pub fn pool_len(&self) -> (n: usize)
        ensures
            n == self.pool().len(),
    {
        match self {
            StringSrc::Cloning(c) => c.string_pool.len(),
            StringSrc::Shared(a) => a.string_pool.len(),
        }
    }

    /// A copy of the pool slot at `i`, for inspection.
    pub fn pool_string(&self, i: usize) -> (r: String)
        requires
            i < self.pool().len(),
        ensures
            r@ == self.pool()[i as int],
    {
        match self {
            StringSrc::Cloning(c) => c.string_pool[i].clone(),
            StringSrc::Shared(a) => arc_as_str(&a.string_pool[i]).to_owned(),
        }
    }

    /// Fetch one string for use, in the representation native to this
    /// source: an index is chosen at random over the pool, and that slot's
    /// content comes back as an owned copy (cloning) or a shared handle
    /// (shared ownership).
    pub fn fetch(&self) -> (r: Fetched)
        requires
            self.pool().len() >= 1,
        ensures
            drawn_from(r.chars(), self.pool()),
            r is Handle <==> self.wants_arc_spec(),
    {
        match self {
            StringSrc::Cloning(c) => Fetched::Owned(c.get()),
            StringSrc::Shared(a) => Fetched::Handle(a.get_arc()),
        }
    }
}

/// A fetched value drawn from a pool whose strings all have `len` characters
/// itself has exactly `len` characters: for every pool size of at least one
/// and every string length, what `fetch` returns has the pool's string
/// length and is one of the pool's pre-generated values.
pub proof fn lemma_fetched_length(s: Seq<char>, pool: Seq<Seq<char>>, len: int)
    requires
        drawn_from(s, pool),
        forall|i: int| 0 <= i < pool.len() ==> pool[i].len() == len,
    ensures
        s.len() == len,
{
}

} // verus!
