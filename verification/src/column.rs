//! Column metadata and the shared name-to-index map.

use vstd::prelude::*;

use crate::value::SqliteDataType;

verus! {

/// One column descriptor: the column's name and its declared type.
/// Immutable after creation; shared by every row of one result set.
#[derive(Debug, PartialEq)]
pub struct SqliteColumn {
    pub name: String,
    pub type_info: SqliteDataType,
}

impl Clone for SqliteColumn {
    fn clone(&self) -> (res: Self)
        ensures
            res == *self,
    {
        SqliteColumn { name: self.name.clone(), type_info: self.type_info }
    }
}

/// The position of the first entry of `names` equal to `name`, scanning
/// forward from `i`; `None` if no entry from `i` on matches.
pub open spec fn first_match_from(names: Seq<Seq<char>>, name: Seq<char>, i: int) -> Option<int>
    decreases names.len() - i,
{
    if i < 0 || i >= names.len() {
        None
    } else if names[i] == name {
        Some(i)
    } else {
        first_match_from(names, name, i + 1)
    }
}

/// The position a name resolves to: the first column carrying that name
/// (first-wins when several columns share one name), or `None` if absent.
pub open spec fn first_match(names: Seq<Seq<char>>, name: Seq<char>) -> Option<int> {
    first_match_from(names, name, 0)
}

/// Mapping from column name to position, built once per statement
/// preparation and read-only thereafter. When several columns share a name,
/// lookup yields the smallest matching position (first-wins).
#[derive(Debug)]
pub struct NameIndexMap {
    names: Vec<String>,
}

impl View for NameIndexMap {
    type V = Seq<Seq<char>>;

    closed spec fn view(&self) -> Seq<Seq<char>> {
        self.names@.map_values(|s: String| s@)
    }
}

impl Clone for NameIndexMap {
    fn clone(&self) -> (res: Self)
        ensures
            res@ == self@,
    {
        let copy = self.names.clone();
        proof {
            assert forall|i: int| 0 <= i < copy@.len() implies copy@[i] == self.names@[i] by {
                assert(cloned::<String>(self.names@[i], copy@[i]));
            }
            assert(copy@ =~= self.names@);
        }
        NameIndexMap { names: copy }
    }
}

impl NameIndexMap {
    /// Builds the map from the ordered column descriptors: entry `i` is the
    /// name of column `i`.
    pub fn build(columns: &Vec<SqliteColumn>) -> (map: NameIndexMap)
        ensures
            map@ == columns@.map_values(|c: SqliteColumn| c.name@),
    {
        let mut names: Vec<String> = Vec::new();
        let mut i: usize = 0;
        while i < columns.len()
            invariant
                i <= columns@.len(),
                names@.len() == i,
                forall|j: int| 0 <= j < i ==> names@[j]@ == columns@[j].name@,
            decreases columns@.len() - i,
        {
            names.push(columns[i].name.clone());
            i = i + 1;
        }
        let map = NameIndexMap { names };
        proof {
            assert(map@ =~= columns@.map_values(|c: SqliteColumn| c.name@));
        }
        map
    }

    /// The number of entries (equal to the column count of the result set).
    pub fn len(&self) -> (n: usize)
        ensures
            n == self@.len(),
    {
        self.names.len()
    }

    /// Looks a name up: the first position whose column carries `name`
    /// (first-wins on duplicates), or `None` if no column does.
    pub fn lookup(&self, name: &String) -> (r: Option<usize>)
        ensures
            match r {
                Some(i) => first_match(self@, name@) == Some(i as int) && i < self@.len(),
                None => first_match(self@, name@) is None,
            },
    {
        let mut i: usize = 0;
        let n = self.names.len();
        while i < n
            invariant
                n == self@.len(),
                i <= n,
                first_match(self@, name@) == first_match_from(self@, name@, i as int),
            decreases n - i,
        {
            let hit = self.names[i] == *name;
            proof {
                assert(self@[i as int] == self.names@[i as int]@);
            }
            if hit {
                return Some(i);
            }
            i = i + 1;
        }
        None
    }
}

} // verus!
