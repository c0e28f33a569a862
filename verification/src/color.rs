//! The table from color names to color cells.

use vstd::prelude::*;

verus! {

/// One insertion: a name and the cell it was given.
#[derive(Clone, Debug)]
struct ColorEntry {
    name: String,
    cell: usize,
}

/// A table from color names to the handles of allocated color cells.
///
/// Insertions are kept in order and never removed; a name stands for the
/// cell it was given last.
#[derive(Clone, Debug)]
pub struct Colors {
    entries: Vec<ColorEntry>,
}

/// The cell `name` was given last among `entries`, if it was given one.
spec fn lookup(entries: Seq<ColorEntry>, name: Seq<char>) -> Option<usize>
    decreases entries.len(),
{
    if entries.len() == 0 {
        None
    } else if entries.last().name@ == name {
        Some(entries.last().cell)
    } else {
        lookup(entries.drop_last(), name)
    }
}

impl View for Colors {
    type V = Map<Seq<char>, usize>;

    /// The cell of each name in the table.
    closed spec fn view(&self) -> Map<Seq<char>, usize> {
        Map::new(
            |name: Seq<char>| lookup(self.entries@, name) is Some,
            |name: Seq<char>| lookup(self.entries@, name).unwrap(),
        )
    }
}

impl Colors {
    /// The number of insertions made so far.
    pub closed spec fn spec_len(&self) -> nat {
        self.entries@.len()
    }

    /// A table without names.
    pub fn new() -> (colors: Self)
        ensures
            colors@ == Map::<Seq<char>, usize>::empty(),
            colors.spec_len() == 0,
    {
        let colors = Colors { entries: Vec::new() };
        assert(colors@ =~= Map::<Seq<char>, usize>::empty());
        colors
    }

    /// The number of insertions made so far.
    pub fn len(&self) -> (len: usize)
        ensures
            len == self.spec_len(),
    {
        self.entries.len()
    }

    /// Makes `name` stand for `cell`, whether it stood for a cell before or
    /// not. Every other name keeps its cell.
    pub fn insert(&mut self, name: &str, cell: usize)
        ensures
            final(self)@ == old(self)@.insert(name@, cell),
            final(self).spec_len() == old(self).spec_len() + 1,
    {
        let ghost before = self.entries@;
        let entry = ColorEntry { name: name.to_owned(), cell };
        self.entries.push(entry);
        proof {
            assert(self.entries@.drop_last() =~= before);
            assert(self@ =~= old(self)@.insert(name@, cell));
        }
    }

    /// The cell `name` stands for, if the table holds the name.
    pub fn get(&self, name: &str) -> (cell: Option<usize>)
        ensures
            cell == (if self@.dom().contains(name@) {
                Some(self@[name@])
            } else {
                None
            }),
    {
        let key = name.to_owned();
        let mut i: usize = self.entries.len();
        assert(self.entries@.take(i as int) =~= self.entries@);
        while i > 0
            invariant
                i <= self.entries@.len(),
                key@ == name@,
                lookup(self.entries@, name@) == lookup(self.entries@.take(i as int), name@),
            decreases i,
        {
            let ghost prefix = self.entries@.take(i as int);
            assert(prefix.last() == self.entries@[i - 1]);
            assert(prefix.drop_last() =~= self.entries@.take(i - 1));
            i = i - 1;
            if self.entries[i].name == key {
                return Some(self.entries[i].cell);
            }
        }
        assert(self.entries@.take(0).len() == 0);
        None
    }

    /// Whether the table holds `name`.
    pub fn contains(&self, name: &str) -> (found: bool)
        ensures
            found == self@.dom().contains(name@),
    {
        self.get(name).is_some()
    }
}

impl Default for Colors {
    fn default() -> (colors: Self)
        ensures
            colors@ == Map::<Seq<char>, usize>::empty(),
            colors.spec_len() == 0,
    {
        Colors::new()
    }
}

} // verus!
