//! A snapshot of the process environment: names and their values.

use crate::text::same;
use vstd::prelude::*;
use vstd::string::*;

verus! {

/// One variable of the environment.
#[derive(Debug)]
pub struct Variable {
    /// The variable's name.
    pub name: String,
    /// The variable's value.
    pub value: String,
}

/// The variables that are set, each with one value.
#[derive(Debug)]
pub struct Environment {
    vars: Vec<Variable>,
}

/// The map that a list of settings amounts to: a later setting of a name
/// replaces an earlier one.
pub closed spec fn bindings(vars: Seq<Variable>) -> Map<Seq<char>, Seq<char>>
    decreases vars.len(),
{
    if vars.len() == 0 {
        Map::empty()
    } else {
        bindings(vars.drop_last()).insert(vars.last().name@, vars.last().value@)
    }
}

impl View for Environment {
    type V = Map<Seq<char>, Seq<char>>;

    closed spec fn view(&self) -> Map<Seq<char>, Seq<char>> {
        bindings(self.vars@)
    }
}

impl Environment {
    /// The environment in which no variable is set.
    pub fn new() -> (r: Environment)
        ensures
            r@ == Map::<Seq<char>, Seq<char>>::empty(),
    {
        Environment { vars: Vec::new() }
    }

    /// Sets `name` to `value`, whatever it was before.
    pub fn set(&mut self, name: &str, value: &str)
        ensures
            final(self)@ == old(self)@.insert(name@, value@),
    {
        let ghost before = self.vars@;
        self.vars.push(Variable { name: String::from_str(name), value: String::from_str(value) });
        proof {
            assert(self.vars@.drop_last() =~= before);
        }
    }

    /// The value of `name`, if it is set.
    pub fn get(&self, name: &str) -> (r: Option<&str>)
        ensures
            r is Some == self@.contains_key(name@),
            r matches Some(value) ==> value@ == self@[name@],
    {
        let mut i: usize = self.vars.len();
        proof {
            assert(self.vars@.take(i as int) =~= self.vars@);
        }
        while i > 0
            invariant
                i <= self.vars.len(),
                bindings(self.vars@.take(i as int)).contains_key(name@) == self@.contains_key(
                    name@,
                ),
                self@.contains_key(name@) ==> bindings(self.vars@.take(i as int))[name@]
                    == self@[name@],
            decreases i,
        {
            proof {
                assert(self.vars@.take(i as int).drop_last() =~= self.vars@.take(i - 1));
                assert(self.vars@.take(i as int).last() == self.vars@[i - 1]);
            }
            i -= 1;
            if same(self.vars[i].name.as_str(), name) {
                return Some(self.vars[i].value.as_str());
            }
        }
        None
    }
}

} // verus!
