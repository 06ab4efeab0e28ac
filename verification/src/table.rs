//! A small table from names to values.
use vstd::prelude::*;

use crate::text::same;

verus! {

broadcast use vstd::string::group_string_axioms;

/// A table with at most one value per name.
pub struct Table<V> {
    rows: Vec<(String, V)>,
}

pub closed spec fn distinct_names<V>(rows: Seq<(String, V)>) -> bool {
    forall|i: int, j: int| 0 <= i < j < rows.len() ==> (#[trigger] rows[i]).0@ != (#[trigger] rows[j]).0@
}

pub closed spec fn contents<V>(rows: Seq<(String, V)>) -> Map<Seq<char>, V>
    decreases rows.len(),
{
    if rows.len() == 0 {
        Map::empty()
    } else {
        contents(rows.drop_last()).insert(rows.last().0@, rows.last().1)
    }
}

impl<V> View for Table<V> {
    type V = Map<Seq<char>, V>;

    closed spec fn view(&self) -> Map<Seq<char>, V> {
        contents(self.rows@)
    }
}

proof fn lemma_contents<V>(rows: Seq<(String, V)>)
    requires
        distinct_names(rows),
    ensures
        forall|i: int| 0 <= i < rows.len() ==> #[trigger] contents(rows).contains_key(rows[i].0@),
        forall|i: int| 0 <= i < rows.len() ==> #[trigger] contents(rows)[rows[i].0@] == rows[i].1,
        forall|name: Seq<char>| #[trigger]
            contents(rows).contains_key(name) ==> exists|i: int|
                0 <= i < rows.len() && (#[trigger] rows[i]).0@ == name,
        contents(rows).dom().finite(),
        contents(rows).len() == rows.len(),
    decreases rows.len(),
{
    if rows.len() > 0 {
        let init = rows.drop_last();
        assert(forall|i: int| 0 <= i < init.len() ==> init[i] == rows[i]);
        lemma_contents(init);
        if contents(init).contains_key(rows.last().0@) {
            let i = choose|i: int| 0 <= i < init.len() && (#[trigger] init[i]).0@ == rows.last().0@;
            assert(rows[i].0@ == rows[rows.len() - 1].0@);
        }
        assert forall|name: Seq<char>| #[trigger] contents(rows).contains_key(name) implies exists|
            i: int,
        |
            0 <= i < rows.len() && (#[trigger] rows[i]).0@ == name by {
            if name == rows.last().0@ {
                assert(rows[rows.len() - 1].0@ == name);
            } else {
                assert(contents(init).contains_key(name));
                let i = choose|i: int| 0 <= i < init.len() && (#[trigger] init[i]).0@ == name;
                assert(rows[i].0@ == name);
            }
        }
        assert forall|i: int| 0 <= i < rows.len() implies #[trigger] contents(rows)[rows[i].0@]
            == rows[i].1 && contents(rows).contains_key(rows[i].0@) by {
            if i < rows.len() - 1 {
                assert(rows[i].0@ != rows[rows.len() - 1].0@);
                assert(rows[i] == init[i]);
            }
        }
    }
}

impl<V> Table<V> {
    #[verifier::type_invariant]
    spec fn names_are_distinct(self) -> bool {
        distinct_names(self.rows@)
    }

    /// The empty table.
    pub fn new() -> (table: Self)
        ensures
            table@ == Map::<Seq<char>, V>::empty(),
    {
        Table { rows: Vec::new() }
    }

    /// Position of `name`, if it is in the table.
    fn position(&self, name: &str) -> (found: Option<usize>)
        ensures
            match found {
                Some(i) => i < self.rows@.len() && self.rows@[i as int].0@ == name@
                    && self@.contains_key(name@) && self@[name@] == self.rows@[i as int].1,
                None => !self@.contains_key(name@) && forall|i: int|
                    0 <= i < self.rows@.len() ==> (#[trigger] self.rows@[i]).0@ != name@,
            },
    {
        proof {
            use_type_invariant(self);
            lemma_contents(self.rows@);
        }
        let mut i: usize = 0;
        while i < self.rows.len()
            invariant
                i <= self.rows@.len(),
                distinct_names(self.rows@),
                forall|j: int| 0 <= j < i ==> (#[trigger] self.rows@[j]).0@ != name@,
            decreases self.rows@.len() - i,
        {
            if same(self.rows[i].0.as_str(), name) {
                proof {
                    lemma_contents(self.rows@);
                }
                return Some(i);
            }
            i += 1;
        }
        None
    }

    /// The names in the table, in the order in which they are kept.
    pub closed spec fn names(&self) -> Seq<Seq<char>> {
        self.rows@.map_values(|row: (String, V)| row.0@)
    }

    /// The names are distinct, and they are the names that have a value.
    pub fn reveal_names(&self)
        ensures
            self.names().no_duplicates(),
            forall|i: int| 0 <= i < self.names().len() ==> self@.contains_key(#[trigger] self.names()[i]),
            forall|name: Seq<char>| self@.contains_key(name) ==> #[trigger] self.names().contains(name),
            self@.dom().finite(),
            self@.len() == self.names().len(),
    {
        proof {
            use_type_invariant(self);
            lemma_contents(self.rows@);
            let names = self.names();
            assert forall|i: int, j: int| 0 <= i < names.len() && 0 <= j < names.len() && i != j implies names[i]
                != names[j] by {
                if i < j {
                    assert(self.rows@[i].0@ != self.rows@[j].0@);
                } else {
                    assert(self.rows@[j].0@ != self.rows@[i].0@);
                }
            }
            assert forall|i: int| 0 <= i < names.len() implies self@.contains_key(#[trigger] names[i]) by {
                assert(contents(self.rows@).contains_key(self.rows@[i].0@));
            }
            assert forall|name: Seq<char>| self@.contains_key(name) implies #[trigger] names.contains(name) by {
                let i = choose|i: int| 0 <= i < self.rows@.len() && (#[trigger] self.rows@[i]).0@ == name;
                assert(names[i] == name);
            }
        }
    }

    /// How many names there are.
    pub fn len(&self) -> (len: usize)
        ensures
            len == self.names().len(),
    {
        self.rows.len()
    }

    /// The `i`-th name with its value.
    pub fn row(&self, i: usize) -> (row: (&String, &V))
        requires
            i < self.names().len(),
        ensures
            row.0@ == self.names()[i as int],
            self@.contains_key(row.0@),
            *row.1 == self@[row.0@],
    {
        proof {
            use_type_invariant(self);
            lemma_contents(self.rows@);
            assert(contents(self.rows@).contains_key(self.rows@[i as int].0@));
            assert(contents(self.rows@)[self.rows@[i as int].0@] == self.rows@[i as int].1);
        }
        let row = &self.rows[i];
        (&row.0, &row.1)
    }

    /// The value under `name`.
    pub fn get(&self, name: &str) -> (value: Option<&V>)
        ensures
            match value {
                Some(v) => self@.contains_key(name@) && *v == self@[name@],
                None => !self@.contains_key(name@),
            },
    {
        match self.position(name) {
            Some(i) => Some(&self.rows[i].1),
            None => None,
        }
    }

    /// Puts `value` under `name`, in place of what was there.
    pub fn insert(&mut self, name: String, value: V)
        ensures
            final(self)@ == old(self)@.insert(name@, value),
    {
        let _ = self.remove(name.as_str());
        proof {
            use_type_invariant(&*self);
            lemma_contents(self.rows@);
        }
        let ghost before = self.rows@;
        let mut rows: Vec<(String, V)> = Vec::new();
        std::mem::swap(&mut rows, &mut self.rows);
        rows.push((name, value));
        proof {
            assert(rows@.drop_last() =~= before);
            assert forall|i: int, j: int| 0 <= i < j < rows@.len() implies (#[trigger] rows@[i]).0@
                != (#[trigger] rows@[j]).0@ by {
                assert(before[i].0@ == rows@[i].0@);
                assert(contents(before).contains_key(before[i].0@));
            }
        }
        self.rows = rows;
        assert(self@ =~= old(self)@.insert(name@, value));
    }

    /// Takes `name` out of the table.
    pub fn remove(&mut self, name: &str) -> (value: Option<V>)
        ensures
            final(self)@ == old(self)@.remove(name@),
            match value {
                Some(v) => old(self)@.contains_key(name@) && v == old(self)@[name@],
                None => !old(self)@.contains_key(name@),
            },
    {
        match self.position(name) {
            Some(at) => {
                proof {
                    use_type_invariant(&*self);
                    lemma_contents(self.rows@);
                }
                let ghost before = self.rows@;
                let mut rows: Vec<(String, V)> = Vec::new();
                std::mem::swap(&mut rows, &mut self.rows);
                let row = rows.remove(at);
                proof {
                    let after = rows@;
                    assert(after =~= before.remove(at as int));
                    assert forall|i: int, j: int| 0 <= i < j < after.len() implies (
                    #[trigger] after[i]).0@ != (#[trigger] after[j]).0@ by {
                        let x = if i < at { i } else { i + 1 };
                        let y = if j < at { j } else { j + 1 };
                        assert(before[x].0@ != before[y].0@);
                    }
                    lemma_contents(after);
                    assert forall|k: Seq<char>| #[trigger] contents(after).contains_key(k)
                        == contents(before).remove(name@).contains_key(k) by {
                        if contents(after).contains_key(k) {
                            let i = choose|i: int| 0 <= i < after.len() && (#[trigger] after[i]).0@ == k;
                            let x = if i < at { i } else { i + 1 };
                            assert(before[x].0@ == k);
                            assert(before[at as int].0@ != before[x].0@);
                            assert(contents(before).contains_key(before[x].0@));
                        }
                        if contents(before).contains_key(k) && k != name@ {
                            let x = choose|x: int| 0 <= x < before.len() && (#[trigger] before[x]).0@ == k;
                            let i = if x < at { x } else { x - 1 };
                            assert(after[i].0@ == k);
                            assert(contents(after).contains_key(after[i].0@));
                        }
                    }
                    assert forall|k: Seq<char>| #[trigger] contents(after).contains_key(k)
                        implies contents(after)[k] == contents(before)[k] by {
                        let i = choose|i: int| 0 <= i < after.len() && (#[trigger] after[i]).0@ == k;
                        let x = if i < at { i } else { i + 1 };
                        assert(contents(after)[after[i].0@] == after[i].1);
                        assert(contents(before)[before[x].0@] == before[x].1);
                    }
                    assert(contents(after) =~= contents(before).remove(name@));
                }
                self.rows = rows;
                Some(row.1)
            },
            None => {
                assert(self@.remove(name@) =~= self@);
                None
            },
        }
    }
}

} // verus!
