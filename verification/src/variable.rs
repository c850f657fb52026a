//! The flat variable environment: one namespace shared by the whole
//! program and every call.  A name maps to nothing (never declared), to a
//! declared-but-unbound marker, or to a numeric or boolean value; numbers
//! are carried as IEEE-754 single-precision bit patterns.

use vstd::prelude::*;

use crate::structs::{assoc_get, assoc_set, lemma_assoc_get_at, lemma_assoc_get_none, lemma_assoc_set_at, lemma_assoc_set_none};

verus! {

/// A stored value: a boolean or a number as its bit pattern.
#[derive(Debug, Clone, Copy, PartialEq, Eq, Structural)]
pub enum Type {
    B(bool),
    F(u32),
}

/// The environment: insertion-ordered entries with unique keys; `None`
/// marks a declared parameter that holds no value yet.
#[derive(Debug, PartialEq)]
pub struct Variable {
    map: Vec<(Vec<char>, Option<Type>)>,
}

pub open spec fn env_view(m: Seq<(Vec<char>, Option<Type>)>) -> Seq<(Seq<char>, Option<Type>)> {
    Seq::new(
        m.len(),
        |i: int|
            if 0 <= i < m.len() {
                (m[i].0@, m[i].1)
            } else {
                arbitrary()
            },
    )
}

impl View for Variable {
    type V = Seq<(Seq<char>, Option<Type>)>;

    closed spec fn view(&self) -> Seq<(Seq<char>, Option<Type>)> {
        env_view(self.map@)
    }
}

impl Variable {
    pub fn new() -> (r: Variable)
        ensures
            r@ == Seq::<(Seq<char>, Option<Type>)>::empty(),
    {
        let r = Variable { map: Vec::new() };
        proof {
            assert(r@ =~= Seq::<(Seq<char>, Option<Type>)>::empty());
        }
        r
    }

    /// Binds or rebinds a name, replacing any earlier entry.
    pub fn set(&mut self, name: Vec<char>, value: Option<Type>)
        ensures
            final(self)@ == assoc_set(old(self)@, name@, value),
    {
        let mut i: usize = 0;
        while i < self.map.len()
            invariant
                0 <= i <= self@.len(),
                self@.len() == self.map@.len(),
                self.map@ == old(self).map@,
                forall|j: int| 0 <= j < i ==> (#[trigger] self@[j]).0 != name@,
            decreases self@.len() - i,
        {
            if crate::text::chars_eq(&self.map[i].0, &name) {
                proof {
                    assert(self@[i as int].0 == name@);
                }
                self.map.set(i, (name, value));
                proof {
                    lemma_assoc_set_at(old(self)@, i as int, name@, value);
                    assert(self@ =~= old(self)@.update(i as int, (name@, value)));
                }
                return ;
            }
            i += 1;
        }
        self.map.push((name, value));
        proof {
            lemma_assoc_set_none(old(self)@, name@, value);
            assert(self@ =~= old(self)@.push((name@, value)));
        }
    }

    /// Binds a number, or the declared-but-unbound marker.
    pub fn insert_num(&mut self, name: Vec<char>, var: Option<u32>)
        ensures
            final(self)@ == assoc_set(
                old(self)@,
                name@,
                match var {
                    Some(bits) => Some(Type::F(bits)),
                    None => None,
                },
            ),
    {
        match var {
            Some(bits) => self.set(name, Some(Type::F(bits))),
            None => self.set(name, None),
        }
    }

    /// Binds a boolean, or the declared-but-unbound marker.
    pub fn insert_bool(&mut self, name: Vec<char>, var: Option<bool>)
        ensures
            final(self)@ == assoc_set(
                old(self)@,
                name@,
                match var {
                    Some(b) => Some(Type::B(b)),
                    None => None,
                },
            ),
    {
        match var {
            Some(b) => self.set(name, Some(Type::B(b))),
            None => self.set(name, None),
        }
    }

    /// Looks a name up: `None` when never declared, `Some(None)` when
    /// declared without a value, `Some(Some(v))` when bound.
    pub fn get(&self, name: &Vec<char>) -> (r: Option<Option<Type>>)
        ensures
            r == assoc_get(self@, name@),
    {
        let mut i: usize = 0;
        while i < self.map.len()
            invariant
                0 <= i <= self@.len(),
                self@.len() == self.map@.len(),
                forall|j: int| 0 <= j < i ==> (#[trigger] self@[j]).0 != name@,
            decreases self@.len() - i,
        {
            if crate::text::chars_eq(&self.map[i].0, name) {
                proof {
                    assert(self@[i as int].0 == name@);
                    lemma_assoc_get_at(self@, i as int);
                }
                return Some(self.map[i].1);
            }
            i += 1;
        }
        proof {
            lemma_assoc_get_none(self@, name@);
        }
        None
    }
}

} // verus!
