//! The environment of the session program: variable names with their values,
//! each name at most once.

use vstd::prelude::*;
use vstd::string::StringExecFns;

verus! {

/// One environment variable.
#[derive(Debug, Clone, PartialEq, Eq)]
pub struct EnvVar {
    pub name: String,
    pub value: String,
}

/// A set of environment variables. To a contract it is the map from each name
/// to its value; the order in which the variables were given plays no part.
#[derive(Debug)]
pub struct Envs {
    vars: Vec<EnvVar>,
}

/// Whether some variable of `vars` has the name `name`.
pub open spec fn names(vars: Seq<EnvVar>, name: Seq<char>) -> bool {
    exists|i: int| 0 <= i < vars.len() && #[trigger] vars[i].name@ == name
}

/// The place of a variable of `vars` that has the name `name`.
pub open spec fn place(vars: Seq<EnvVar>, name: Seq<char>) -> int {
    choose|i: int| 0 <= i < vars.len() && #[trigger] vars[i].name@ == name
}

/// Whether no two variables of `vars` share a name.
pub open spec fn distinct_names(vars: Seq<EnvVar>) -> bool {
    forall|i: int, j: int|
        0 <= i < j < vars.len() ==> #[trigger] vars[i].name@ != #[trigger] vars[j].name@
}

/// The map from the names of `vars` to their values.
pub open spec fn vars_map(vars: Seq<EnvVar>) -> Map<Seq<char>, Seq<char>> {
    Map::new(|name: Seq<char>| names(vars, name), |name: Seq<char>| vars[place(vars, name)].value@)
}

/// With distinct names, the variable at `i` is the one that the map has for
/// its name.
pub proof fn map_has_each(vars: Seq<EnvVar>, i: int)
    requires
        distinct_names(vars),
        0 <= i < vars.len(),
    ensures
        vars_map(vars).contains_key(vars[i].name@),
        vars_map(vars)[vars[i].name@] == vars[i].value@,
{
    let name = vars[i].name@;
    assert(names(vars, name));
    let at = place(vars, name);
    assert(0 <= at < vars.len() && vars[at].name@ == name);
    if at < i {
        assert(vars[at].name@ != vars[i].name@);
    } else if i < at {
        assert(vars[i].name@ != vars[at].name@);
    }
}

impl View for Envs {
    type V = Map<Seq<char>, Seq<char>>;

    closed spec fn view(&self) -> Map<Seq<char>, Seq<char>> {
        vars_map(self.vars@)
    }
}

impl Clone for Envs {
    /// A second set with the same variables.
    fn clone(&self) -> (envs: Envs)
        ensures
            envs@ == self@,
    {
        Envs { vars: self.entries() }
    }
}

impl Envs {
    /// The invariant of the type: no name occurs twice.
    #[verifier::type_invariant]
    spec fn distinct(&self) -> bool {
        distinct_names(self.vars@)
    }

    /// No variables.
    pub fn new() -> (envs: Envs)
        ensures
            envs@ == Map::<Seq<char>, Seq<char>>::empty(),
    {
        let envs = Envs { vars: Vec::new() };
        assert(envs@ =~= Map::<Seq<char>, Seq<char>>::empty());
        envs
    }

    /// Gives the variable `name` the value `value`, whether or not it had one.
    pub fn insert(&mut self, name: String, value: String)
        ensures
            final(self)@ == old(self)@.insert(name@, value@),
    {
        let mut vars = self.entries();
        let ghost before = vars@;
        let mut i: usize = 0;
        let mut found = false;
        while i < vars.len() && !found
            invariant
                i <= vars@.len(),
                vars@ == before,
                forall|j: int| 0 <= j < i ==> (#[trigger] before[j]).name@ != name@,
                found ==> i < vars@.len() && before[i as int].name@ == name@,
            decreases vars@.len() - i + if found { 0int } else { 1int },
        {
            if vars[i].name == name {
                found = true;
            } else {
                i += 1;
            }
        }
        if found {
            vars.set(i, EnvVar { name, value });
            proof {
                replaced_is_inserted(before, i as int, vars@);
            }
        } else {
            vars.push(EnvVar { name, value });
            proof {
                pushed_is_inserted(before, vars@);
            }
        }
        *self = Envs { vars };
    }

    /// The value of the variable `name`, if it has one.
    pub fn get(&self, name: &str) -> (value: Option<String>)
        ensures
            match value {
                Some(text) => self@.contains_key(name@) && self@[name@] == text@,
                None => !self@.contains_key(name@),
            },
    {
        proof {
            use_type_invariant(self);
        }
        let wanted = String::from_str(name);
        let mut i: usize = 0;
        while i < self.vars.len()
            invariant
                i <= self.vars@.len(),
                wanted@ == name@,
                distinct_names(self.vars@),
                forall|j: int| 0 <= j < i ==> (#[trigger] self.vars@[j]).name@ != name@,
            decreases self.vars@.len() - i,
        {
            if self.vars[i].name == wanted {
                proof {
                    map_has_each(self.vars@, i as int);
                }
                return Some(self.vars[i].value.clone());
            }
            i += 1;
        }
        proof {
            if names(self.vars@, name@) {
                let at = place(self.vars@, name@);
                assert(self.vars@[at].name@ == name@);
            }
        }
        None
    }

    /// The variables, each name once, in no order that a caller may rely on.
    pub fn entries(&self) -> (vars: Vec<EnvVar>)
        ensures
            distinct_names(vars@),
            vars_map(vars@) == self@,
            vars@.len() == self@.len(),
    {
        proof {
            use_type_invariant(self);
        }
        let mut vars: Vec<EnvVar> = Vec::new();
        let mut i: usize = 0;
        while i < self.vars.len()
            invariant
                i <= self.vars@.len(),
                vars@.len() == i,
                forall|j: int|
                    0 <= j < i ==> (#[trigger] vars@[j]).name@ == self.vars@[j].name@ && vars@[j].value@
                        == self.vars@[j].value@,
            decreases self.vars@.len() - i,
        {
            let var = &self.vars[i];
            vars.push(EnvVar { name: var.name.clone(), value: var.value.clone() });
            i += 1;
        }
        proof {
            map_size(self.vars@);
            same_texts_same_map(self.vars@, vars@);
        }
        vars
    }
}

/// Putting a variable in the place of one with the same name keeps the names
/// distinct and gives the name its new value.
proof fn replaced_is_inserted(before: Seq<EnvVar>, at: int, after: Seq<EnvVar>)
    requires
        distinct_names(before),
        0 <= at < before.len(),
        after.len() == before.len(),
        after[at].name@ == before[at].name@,
        forall|j: int| 0 <= j < before.len() && j != at ==> after[j] == before[j],
    ensures
        distinct_names(after),
        vars_map(after) == vars_map(before).insert(after[at].name@, after[at].value@),
{
    assert(distinct_names(after)) by {
        assert forall|a: int, b: int| 0 <= a < b < after.len() implies after[a].name@
            != after[b].name@ by {
            assert(before[a].name@ != before[b].name@);
        }
    }
    assert forall|key: Seq<char>| names(after, key) == names(before, key) by {
        if names(before, key) {
            let found = place(before, key);
            assert(after[found].name@ == key);
        }
        if names(after, key) {
            let found = place(after, key);
            assert(before[found].name@ == key);
        }
    }
    assert forall|key: Seq<char>| names(after, key) implies vars_map(after)[key] == vars_map(
        before,
    ).insert(after[at].name@, after[at].value@)[key] by {
        let found = place(after, key);
        map_has_each(after, found);
        map_has_each(before, found);
    }
    map_has_each(before, at);
    assert(vars_map(after) =~= vars_map(before).insert(after[at].name@, after[at].value@));
}

/// Adding a variable with a new name keeps the names distinct and gives the
/// name its value.
proof fn pushed_is_inserted(before: Seq<EnvVar>, after: Seq<EnvVar>)
    requires
        distinct_names(before),
        after.len() == before.len() + 1,
        forall|j: int| 0 <= j < before.len() ==> after[j] == before[j],
        forall|j: int| 0 <= j < before.len() ==> (#[trigger] before[j]).name@ != after.last().name@,
    ensures
        distinct_names(after),
        vars_map(after) == vars_map(before).insert(after.last().name@, after.last().value@),
{
    let added = after.last();
    assert(distinct_names(after)) by {
        assert forall|a: int, b: int| 0 <= a < b < after.len() implies after[a].name@
            != after[b].name@ by {
            if b < before.len() {
                assert(before[a].name@ != before[b].name@);
            } else {
                assert(before[a].name@ != added.name@);
            }
        }
    }
    assert forall|key: Seq<char>| names(after, key) == (names(before, key) || key
        == added.name@) by {
        if names(before, key) {
            let found = place(before, key);
            assert(after[found].name@ == key);
        }
        if key == added.name@ {
            assert(after[before.len() as int].name@ == key);
        }
        if names(after, key) {
            let found = place(after, key);
            if found < before.len() {
                assert(before[found].name@ == key);
            }
        }
    }
    assert forall|key: Seq<char>| names(after, key) implies vars_map(after)[key] == vars_map(
        before,
    ).insert(added.name@, added.value@)[key] by {
        let found = place(after, key);
        map_has_each(after, found);
        if found < before.len() {
            assert(before[found].name@ == key);
            map_has_each(before, found);
        }
    }
    assert(vars_map(after) =~= vars_map(before).insert(added.name@, added.value@));
}

/// Two lists that agree name by name and value by value stand for one map.
proof fn same_texts_same_map(first: Seq<EnvVar>, second: Seq<EnvVar>)
    requires
        distinct_names(first),
        first.len() == second.len(),
        forall|j: int|
            0 <= j < first.len() ==> (#[trigger] second[j]).name@ == first[j].name@ && second[j].value@
                == first[j].value@,
    ensures
        distinct_names(second),
        vars_map(second) == vars_map(first),
{
    assert(distinct_names(second)) by {
        assert forall|a: int, b: int| 0 <= a < b < second.len() implies second[a].name@
            != second[b].name@ by {
            assert(first[a].name@ != first[b].name@);
        }
    }
    assert forall|key: Seq<char>| names(second, key) == names(first, key) by {
        if names(first, key) {
            let at = place(first, key);
            assert(second[at].name@ == key);
        }
        if names(second, key) {
            let at = place(second, key);
            assert(first[at].name@ == key);
        }
    }
    assert forall|key: Seq<char>| names(second, key) implies vars_map(second)[key] == vars_map(
        first,
    )[key] by {
        let at = place(second, key);
        map_has_each(second, at);
        map_has_each(first, at);
    }
    assert(vars_map(second) =~= vars_map(first));
}

/// The variables of a fresh environment document.
pub open spec fn default_variables() -> Map<Seq<char>, Seq<char>> {
    Map::<Seq<char>, Seq<char>>::empty().insert("XDG_CURRENT_DESKTOP"@, "wlroots"@).insert(
        "XDG_SESSION_TYPE"@,
        "wayland"@,
    )
}

/// The variables that are written when the user has none: the desktop is
/// `wlroots`, the session type is `wayland`.
pub fn default_envs() -> (envs: Envs)
    ensures
        envs@ == default_variables(),
{
    let mut envs = Envs::new();
    envs.insert(String::from_str("XDG_CURRENT_DESKTOP"), String::from_str("wlroots"));
    envs.insert(String::from_str("XDG_SESSION_TYPE"), String::from_str("wayland"));
    envs
}

/// A map of variables with distinct names has as many names as there are
/// variables.
proof fn map_size(vars: Seq<EnvVar>)
    requires
        distinct_names(vars),
    ensures
        vars_map(vars).dom().finite(),
        vars_map(vars).len() == vars.len(),
    decreases vars.len(),
{
    if vars.len() == 0 {
        assert(vars_map(vars) =~= Map::<Seq<char>, Seq<char>>::empty());
    } else {
        let rest = vars.drop_last();
        let last = vars.last();
        assert(distinct_names(rest)) by {
            assert forall|i: int, j: int| 0 <= i < j < rest.len() implies rest[i].name@
                != rest[j].name@ by {
                assert(vars[i].name@ != vars[j].name@);
            }
        }
        map_size(rest);
        assert(!names(rest, last.name@)) by {
            if names(rest, last.name@) {
                let at = place(rest, last.name@);
                assert(vars[at].name@ != vars[vars.len() - 1].name@);
            }
        }
        assert forall|key: Seq<char>| names(vars, key) == (names(rest, key) || key
            == last.name@) by {
            if names(rest, key) {
                let at = place(rest, key);
                assert(vars[at].name@ == key);
            }
            if key == last.name@ {
                assert(vars[vars.len() - 1].name@ == key);
            }
            if names(vars, key) {
                let at = place(vars, key);
                if at < rest.len() {
                    assert(rest[at].name@ == key);
                }
            }
        }
        assert(vars_map(vars).dom() =~= vars_map(rest).dom().insert(last.name@));
    }
}

} // verus!
