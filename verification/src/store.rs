//! The mapping store: a relation from short code to original URL with a
//! code-uniqueness invariant, insert-if-absent, and point lookup.
//!
//! This is the in-memory backend of the storage interface: reads and writes
//! are whole operations on the store value, so a caller that serializes
//! access around each operation (for example behind a lock) gets the same
//! guarantees concurrently. A mapping, once committed, is never mutated or
//! deleted.

use vstd::prelude::*;

verus! {

/// The sole persistent entity: one committed code-to-URL mapping.
///
/// The original URL is stored verbatim as supplied by the client; the core
/// performs no normalization and no scheme validation.
pub struct UrlMapping {
    pub code: String,
    pub original_url: String,
}

/// Why an insert was refused.
#[derive(Debug, PartialEq, Eq)]
pub enum InsertError {
    /// The code is already bound to some URL; the caller may retry with a
    /// fresh code. The store is left unchanged.
    DuplicateCode,
}

/// The relation a sequence of committed mappings denotes: each code maps to
/// its URL, later entries taking precedence (the store never holds two
/// entries with one code, so precedence never matters there).
pub open spec fn map_of(entries: Seq<UrlMapping>) -> Map<Seq<char>, Seq<char>>
    decreases entries.len(),
{
    if entries.len() == 0 {
        Map::empty()
    } else {
        map_of(entries.drop_last()).insert(entries.last().code@, entries.last().original_url@)
    }
}

/// No two committed mappings share a code.
pub open spec fn codes_unique(entries: Seq<UrlMapping>) -> bool {
    forall|i: int, j: int|
        0 <= i < j < entries.len() ==> (#[trigger] entries[i].code@) != (#[trigger] entries[j].code@)
}

/// A code occurs in the denoted map exactly when some entry carries it.
proof fn lemma_map_of_contains(entries: Seq<UrlMapping>, code: Seq<char>)
    ensures
        map_of(entries).contains_key(code) <==> exists|i: int|
            0 <= i < entries.len() && (#[trigger] entries[i].code@) == code,
    decreases entries.len(),
{
    if entries.len() > 0 {
        lemma_map_of_contains(entries.drop_last(), code);
        if entries.last().code@ == code {
            assert(entries[entries.len() - 1].code@ == code);
        } else if map_of(entries).contains_key(code) {
            let i = choose|i: int|
                0 <= i < entries.drop_last().len() && (#[trigger] entries.drop_last()[i].code@)
                    == code;
            assert(entries[i].code@ == code);
        } else {
            assert forall|i: int| 0 <= i < entries.len() implies (#[trigger] entries[i].code@)
                != code by {
                if i < entries.len() - 1 {
                    assert(entries.drop_last()[i].code@ != code);
                }
            }
        }
    }
}

/// Under uniqueness, each entry's code is bound to exactly that entry's URL.
proof fn lemma_map_of_index(entries: Seq<UrlMapping>, i: int)
    requires
        codes_unique(entries),
        0 <= i < entries.len(),
    ensures
        map_of(entries).contains_key(entries[i].code@),
        map_of(entries)[entries[i].code@] == entries[i].original_url@,
    decreases entries.len(),
{
    if i == entries.len() - 1 {
    } else {
        lemma_map_of_index(entries.drop_last(), i);
        assert(entries.drop_last()[i] == entries[i]);
        assert(entries[i].code@ != entries.last().code@);
    }
}

/// Under uniqueness, the denoted map is finite and has exactly one key per
/// entry.
proof fn lemma_map_of_len(entries: Seq<UrlMapping>)
    requires
        codes_unique(entries),
    ensures
        map_of(entries).dom().finite(),
        map_of(entries).dom().len() == entries.len(),
    decreases entries.len(),
{
    if entries.len() > 0 {
        lemma_map_of_len(entries.drop_last());
        lemma_map_of_contains(entries.drop_last(), entries.last().code@);
        assert(forall|i: int|
            0 <= i < entries.drop_last().len() ==> (#[trigger] entries.drop_last()[i].code@)
                != entries.last().code@);
        assert(!map_of(entries.drop_last()).contains_key(entries.last().code@));
    }
}

/// The durable relation from short code to original URL.
///
/// Its abstract value (the view) is the map from each committed code to its
/// URL; `well_formed` is the store's invariant, established by `new` and
/// preserved by every operation.
pub struct MappingStore {
    mappings: Vec<UrlMapping>,
}

impl View for MappingStore {
    type V = Map<Seq<char>, Seq<char>>;

    closed spec fn view(&self) -> Map<Seq<char>, Seq<char>> {
        map_of(self.mappings@)
    }
}

impl MappingStore {
    /// The store's invariant: committed codes are unique, so an insert that
    /// would bind an existing code is refused rather than overwriting.
    pub closed spec fn well_formed(&self) -> bool {
        codes_unique(self.mappings@)
    }

    /// Idempotently set up an empty relation (the in-memory counterpart of
    /// ensuring the schema exists on process start).
    pub fn new() -> (s: Self)
        ensures
            s.well_formed(),
            s@ == Map::<Seq<char>, Seq<char>>::empty(),
    {
        let s = MappingStore { mappings: Vec::new() };
        proof {
            assert(s@ =~= Map::<Seq<char>, Seq<char>>::empty());
        }
        s
    }

    /// Attempt to commit a new mapping. Succeeds exactly when `code` is not
    /// yet bound, and then binds it to `url`; fails with `DuplicateCode`
    /// exactly when `code` is already bound, and then changes nothing, so
    /// that of two attempts sharing a code exactly one commits.
    pub fn insert_unique(&mut self, code: &str, url: &str) -> (r: Result<(), InsertError>)
        requires
            old(self).well_formed(),
        ensures
            final(self).well_formed(),
            match r {
                Ok(()) => !old(self)@.contains_key(code@) && final(self)@ == old(self)@.insert(
                    code@,
                    url@,
                ),
                Err(InsertError::DuplicateCode) => old(self)@.contains_key(code@) && *final(self)
                    == *old(self),
            },
    {
        let code_owned: String = code.to_owned();
        let n = self.mappings.len();
        let mut i: usize = 0;
        while i < n
            invariant
                old(self).well_formed(),
                *self == *old(self),
                n == self.mappings@.len(),
                i <= n,
                code_owned@ == code@,
                forall|j: int| 0 <= j < i ==> (#[trigger] self.mappings@[j].code@) != code@,
            decreases n - i,
        {
            if self.mappings[i].code == code_owned {
                proof {
                    lemma_map_of_contains(self.mappings@, code@);
                }
                return Err(InsertError::DuplicateCode);
            }
            i = i + 1;
        }
        proof {
            lemma_map_of_contains(self.mappings@, code@);
        }
        let mapping = UrlMapping { code: code_owned, original_url: url.to_owned() };
        self.mappings.push(mapping);
        proof {
            assert(self.mappings@.drop_last() =~= old(self).mappings@);
            assert forall|a: int, b: int| 0 <= a < b < self.mappings@.len() implies (
            #[trigger] self.mappings@[a].code@) != (#[trigger] self.mappings@[b].code@) by {
                if b < self.mappings@.len() - 1 {
                    assert(old(self).mappings@[a].code@ != old(self).mappings@[b].code@);
                } else {
                    assert(old(self).mappings@[a].code@ != code@);
                }
            }
        }
        Ok(())
    }

    /// Point lookup: returns the URL bound to `code` exactly when one is,
    /// and nothing otherwise. Read-only and side-effect free.
    pub fn lookup(&self, code: &str) -> (r: Option<String>)
        requires
            self.well_formed(),
        ensures
            match r {
                Some(url) => self@.contains_key(code@) && url@ == self@[code@],
                None => !self@.contains_key(code@),
            },
    {
        let code_owned: String = code.to_owned();
        let n = self.mappings.len();
        let mut i: usize = 0;
        while i < n
            invariant
                self.well_formed(),
                n == self.mappings@.len(),
                i <= n,
                code_owned@ == code@,
                forall|j: int| 0 <= j < i ==> (#[trigger] self.mappings@[j].code@) != code@,
            decreases n - i,
        {
            if self.mappings[i].code == code_owned {
                proof {
                    lemma_map_of_index(self.mappings@, i as int);
                }
                return Some(self.mappings[i].original_url.clone());
            }
            i = i + 1;
        }
        proof {
            lemma_map_of_contains(self.mappings@, code@);
        }
        None
    }

    /// How many mappings have been committed.
    pub fn len(&self) -> (n: usize)
        requires
            self.well_formed(),
        ensures
            self@.dom().finite(),
            n == self@.dom().len(),
    {
        proof {
            lemma_map_of_len(self.mappings@);
        }
        self.mappings.len()
    }
}

} // verus!
