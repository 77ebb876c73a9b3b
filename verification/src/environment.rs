//! Environment variables: snapshots, and the changes made for one launch.
//!
//! A launch first removes the variables that the runtime's configuration
//! unsets, then sets the variables that it sets, then sets the overrides of
//! the invocation. Later changes win over earlier ones.

use crate::search::first_match;
use crate::search::lemma_first_index_is;
use crate::search::lemma_first_index_none;
use crate::text::same_text;
use crate::text::text_of;
use vstd::prelude::*;
use vstd::string::StringExecFns;

verus! {

/// Environment variables as pairs of name and value.
pub type Environment = Vec<(String, String)>;

/// The mathematical content of an [`Environment`].
pub type EnvironmentView = Seq<(Seq<char>, Seq<char>)>;

/// The variables of a process: a value for each name that is set.
pub type Variables = Map<Seq<char>, Seq<char>>;

/// The predicate "this variable is named `key`".
pub open spec fn named(key: Seq<char>) -> spec_fn((Seq<char>, Seq<char>)) -> bool {
    |entry: (Seq<char>, Seq<char>)| entry.0 == key
}

/// The value of the variable `key` in a list of pairs: that of the first pair
/// with this name.
pub open spec fn env_string(env: EnvironmentView, key: Seq<char>) -> Option<Seq<char>> {
    match first_match(env, named(key)) {
        Some(entry) => Some(entry.1),
        None => None,
    }
}

/// The value of the variable `key` in a list of pairs.
pub fn lookup(env: &Environment, key: &str) -> (value: Option<String>)
    ensures
        text_of(value) == env_string(env.deep_view(), key@),
{
    let ghost view = env.deep_view();
    let mut i: usize = 0;
    while i < env.len()
        invariant
            i <= env.len(),
            view == env.deep_view(),
            view.len() == env.len(),
            forall|j: int| 0 <= j < i ==> (#[trigger] view[j]).0 != key@,
        decreases env.len() - i,
    {
        assert(view[i as int] == (env[i as int].0@, env[i as int].1@));
        if same_text(env[i].0.as_str(), key) {
            proof {
                lemma_first_index_is(view, named(key@), i as int);
            }
            return Some(env[i].1.clone());
        }
        i += 1;
    }
    proof {
        lemma_first_index_none(view, named(key@));
    }
    None
}

/// The variables to remove and to set for a runtime, before the overrides of
/// an invocation.
#[derive(Debug, Clone, PartialEq, Eq)]
pub struct EnvironmentPlan {
    /// The names of the variables to remove.
    pub unset: Vec<String>,
    /// The variables to set, in order.
    pub set: Environment,
}

/// The mathematical content of an [`EnvironmentPlan`].
pub ghost struct PlanView {
    pub unset: Seq<Seq<char>>,
    pub set: EnvironmentView,
}

impl View for EnvironmentPlan {
    type V = PlanView;

    open spec fn view(&self) -> PlanView {
        PlanView { unset: self.unset.deep_view(), set: self.set.deep_view() }
    }
}

/// One change to the variables of the process to launch.
#[derive(Debug, Clone, PartialEq, Eq)]
pub enum EnvChange {
    /// The variable of this name is removed.
    Remove(String),
    /// The variable of this name gets this value.
    Assign(String, String),
}

/// The mathematical content of an [`EnvChange`].
pub ghost enum Change {
    Remove(Seq<char>),
    Assign(Seq<char>, Seq<char>),
}

impl View for EnvChange {
    type V = Change;

    open spec fn view(&self) -> Change {
        match self {
            EnvChange::Remove(name) => Change::Remove(name@),
            EnvChange::Assign(name, value) => Change::Assign(name@, value@),
        }
    }
}

impl Change {
    /// The name of the variable that the change is about.
    pub open spec fn name(self) -> Seq<char> {
        match self {
            Change::Remove(name) => name,
            Change::Assign(name, _) => name,
        }
    }

    /// The value that the variable has once the change is made.
    pub open spec fn outcome(self) -> Option<Seq<char>> {
        match self {
            Change::Remove(_) => None,
            Change::Assign(_, value) => Some(value),
        }
    }

    /// The variables once the change is made.
    pub open spec fn apply(self, vars: Variables) -> Variables {
        match self {
            Change::Remove(name) => vars.remove(name),
            Change::Assign(name, value) => vars.insert(name, value),
        }
    }
}

/// The views of a list of changes.
pub open spec fn change_views(changes: Seq<EnvChange>) -> Seq<Change> {
    changes.map_values(|change: EnvChange| change@)
}

/// The variables once all the changes are made, in order.
pub open spec fn apply_all(vars: Variables, changes: Seq<Change>) -> Variables
    decreases changes.len(),
{
    if changes.len() == 0 {
        vars
    } else {
        changes.last().apply(apply_all(vars, changes.drop_last()))
    }
}

/// The value of a variable, if it is set.
pub open spec fn value_in(vars: Variables, name: Seq<char>) -> Option<Seq<char>> {
    if vars.contains_key(name) {
        Some(vars[name])
    } else {
        None
    }
}

/// The value of the variable `name` once all the changes are made, given the
/// value that it had before.
pub open spec fn value_after(
    changes: Seq<Change>,
    name: Seq<char>,
    inherited: Option<Seq<char>>,
) -> Option<Seq<char>>
    decreases changes.len(),
{
    if changes.len() == 0 {
        inherited
    } else if changes.last().name() == name {
        changes.last().outcome()
    } else {
        value_after(changes.drop_last(), name, inherited)
    }
}

/// The removal of each name, in order.
pub open spec fn removals(names: Seq<Seq<char>>) -> Seq<Change> {
    Seq::new(names.len(), |i: int| Change::Remove(names[i]))
}

/// The setting of each pair, in order.
pub open spec fn assignments(pairs: EnvironmentView) -> Seq<Change> {
    Seq::new(pairs.len(), |i: int| Change::Assign(pairs[i].0, pairs[i].1))
}

/// The changes of one launch: the plan's removals, then what the plan sets,
/// then the overrides.
pub open spec fn assembled(plan: PlanView, overrides: EnvironmentView) -> Seq<Change> {
    removals(plan.unset) + assignments(plan.set) + assignments(overrides)
}

/// The variables of the launched process, given those that it inherits.
pub open spec fn merged(base: Variables, plan: PlanView, overrides: EnvironmentView) -> Variables {
    apply_all(base, assembled(plan, overrides))
}

/// The changes of one launch, in the order in which they are to be made.
pub fn assemble(plan: &EnvironmentPlan, overrides: &Vec<(&'static str, String)>) -> (changes: Vec<
    EnvChange,
>)
    ensures
        change_views(changes@) == assembled(plan@, overrides.deep_view()),
{
    let ghost unset = plan.unset.deep_view();
    let ghost set = plan.set.deep_view();
    let ghost over = overrides.deep_view();
    let ghost target = assembled(plan@, over);
    let mut changes: Vec<EnvChange> = Vec::new();
    let mut i: usize = 0;
    while i < plan.unset.len()
        invariant
            i <= plan.unset.len(),
            unset == plan.unset.deep_view(),
            unset.len() == plan.unset.len(),
            target == removals(unset) + assignments(set) + assignments(over),
            changes.len() == i,
            forall|k: int| 0 <= k < changes.len() ==> (#[trigger] changes[k])@ == target[k],
        decreases plan.unset.len() - i,
    {
        assert(unset[i as int] == plan.unset[i as int]@);
        assert(target[i as int] == Change::Remove(unset[i as int]));
        changes.push(EnvChange::Remove(plan.unset[i].clone()));
        i += 1;
    }
    let mut i: usize = 0;
    while i < plan.set.len()
        invariant
            i <= plan.set.len(),
            set == plan.set.deep_view(),
            set.len() == plan.set.len(),
            target == removals(unset) + assignments(set) + assignments(over),
            changes.len() == unset.len() + i,
            forall|k: int| 0 <= k < changes.len() ==> (#[trigger] changes[k])@ == target[k],
        decreases plan.set.len() - i,
    {
        assert(set[i as int] == (plan.set[i as int].0@, plan.set[i as int].1@));
        assert(target[unset.len() + i] == Change::Assign(set[i as int].0, set[i as int].1));
        changes.push(EnvChange::Assign(plan.set[i].0.clone(), plan.set[i].1.clone()));
        i += 1;
    }
    let mut i: usize = 0;
    while i < overrides.len()
        invariant
            i <= overrides.len(),
            over == overrides.deep_view(),
            over.len() == overrides.len(),
            target == removals(unset) + assignments(set) + assignments(over),
            changes.len() == unset.len() + set.len() + i,
            forall|k: int| 0 <= k < changes.len() ==> (#[trigger] changes[k])@ == target[k],
        decreases overrides.len() - i,
    {
        assert(over[i as int] == (overrides[i as int].0@, overrides[i as int].1@));
        assert(target[unset.len() + set.len() + i] == Change::Assign(
            over[i as int].0,
            over[i as int].1,
        ));
        changes.push(EnvChange::Assign(String::from_str(overrides[i].0), overrides[i].1.clone()));
        i += 1;
    }
    assert(change_views(changes@) =~= target);
    changes
}

/// The value that the variable `name` has once the changes are made, given
/// the value that it inherits.
pub fn effective_value(changes: &Vec<EnvChange>, name: &str, inherited: Option<String>) -> (value:
    Option<String>)
    ensures
        text_of(value) == value_after(change_views(changes@), name@, text_of(inherited)),
{
    let ghost views = change_views(changes@);
    let mut i: usize = changes.len();
    assert(views.take(i as int) == views);
    while i > 0
        invariant
            i <= changes.len(),
            views == change_views(changes@),
            value_after(views, name@, text_of(inherited)) == value_after(
                views.take(i as int),
                name@,
                text_of(inherited),
            ),
        decreases i,
    {
        i -= 1;
        proof {
            assert(views.take(i + 1).drop_last() == views.take(i as int));
            assert(views.take(i + 1).last() == changes[i as int]@);
        }
        match &changes[i] {
            EnvChange::Remove(changed) => {
                if same_text(changed.as_str(), name) {
                    return None;
                }
            },
            EnvChange::Assign(changed, value) => {
                if same_text(changed.as_str(), name) {
                    return Some(value.clone());
                }
            },
        }
    }
    proof {
        assert(views.take(0) == Seq::<Change>::empty());
    }
    inherited
}

/// Walking the changes from the last one back gives the value of a variable
/// in the variables that the changes lead to.
pub proof fn lemma_value_after(base: Variables, changes: Seq<Change>, name: Seq<char>)
    ensures
        value_in(apply_all(base, changes), name) == value_after(
            changes,
            name,
            value_in(base, name),
        ),
    decreases changes.len(),
{
    if changes.len() > 0 {
        lemma_value_after(base, changes.drop_last(), name);
    }
}

/// The last change that names a variable decides its value.
pub proof fn lemma_last_change_decides(
    changes: Seq<Change>,
    name: Seq<char>,
    inherited: Option<Seq<char>>,
    i: int,
)
    requires
        0 <= i < changes.len(),
        changes[i].name() == name,
        forall|j: int| i < j < changes.len() ==> (#[trigger] changes[j]).name() != name,
    ensures
        value_after(changes, name, inherited) == changes[i].outcome(),
    decreases changes.len(),
{
    if i < changes.len() - 1 {
        lemma_last_change_decides(changes.drop_last(), name, inherited, i);
    }
}

/// A variable that no change names keeps the value that it inherits.
pub proof fn lemma_untouched_is_inherited(
    changes: Seq<Change>,
    name: Seq<char>,
    inherited: Option<Seq<char>>,
)
    requires
        forall|j: int| 0 <= j < changes.len() ==> (#[trigger] changes[j]).name() != name,
    ensures
        value_after(changes, name, inherited) == inherited,
    decreases changes.len(),
{
    if changes.len() > 0 {
        lemma_untouched_is_inherited(changes.drop_last(), name, inherited);
    }
}

/// An override is never shadowed: whatever the process inherits and whatever
/// the plan removes or sets, a variable named by the overrides ends with the
/// value of the last override that names it.
pub proof fn lemma_override_wins(
    base: Variables,
    plan: PlanView,
    overrides: EnvironmentView,
    i: int,
)
    requires
        0 <= i < overrides.len(),
        forall|j: int| i < j < overrides.len() ==> (#[trigger] overrides[j]).0 != overrides[i].0,
    ensures
        value_in(merged(base, plan, overrides), overrides[i].0) == Some(overrides[i].1),
{
    let changes = assembled(plan, overrides);
    let name = overrides[i].0;
    let before = plan.unset.len() + plan.set.len();
    assert(changes[before + i] == Change::Assign(name, overrides[i].1));
    assert forall|j: int| before + i < j < changes.len() implies (#[trigger] changes[j]).name()
        != name by {
        assert(changes[j] == Change::Assign(overrides[j - before].0, overrides[j - before].1));
    }
    lemma_last_change_decides(changes, name, value_in(base, name), before + i);
    lemma_value_after(base, changes, name);
}

/// What the plan sets wins over what it removes and over what the process
/// inherits: a variable that the plan sets and that no override names ends
/// with the value of the last pair of the plan that names it.
pub proof fn lemma_set_wins_over_unset(
    base: Variables,
    plan: PlanView,
    overrides: EnvironmentView,
    i: int,
)
    requires
        0 <= i < plan.set.len(),
        forall|j: int| i < j < plan.set.len() ==> (#[trigger] plan.set[j]).0 != plan.set[i].0,
        forall|j: int| 0 <= j < overrides.len() ==> (#[trigger] overrides[j]).0 != plan.set[i].0,
    ensures
        value_in(merged(base, plan, overrides), plan.set[i].0) == Some(plan.set[i].1),
{
    let changes = assembled(plan, overrides);
    let name = plan.set[i].0;
    let before = plan.unset.len();
    let over_at = plan.unset.len() + plan.set.len();
    assert(changes[before + i] == Change::Assign(name, plan.set[i].1));
    assert forall|j: int| before + i < j < changes.len() implies (#[trigger] changes[j]).name()
        != name by {
        if j < over_at {
            assert(changes[j] == Change::Assign(plan.set[j - before].0, plan.set[j - before].1));
        } else {
            assert(changes[j] == Change::Assign(overrides[j - over_at].0, overrides[j - over_at].1));
        }
    }
    lemma_last_change_decides(changes, name, value_in(base, name), before + i);
    lemma_value_after(base, changes, name);
}

/// A variable that the plan removes and that nothing sets afterwards is not
/// set in the launched process, whatever the process inherits.
pub proof fn lemma_unset_removes(
    base: Variables,
    plan: PlanView,
    overrides: EnvironmentView,
    i: int,
)
    requires
        0 <= i < plan.unset.len(),
        forall|j: int| 0 <= j < plan.set.len() ==> (#[trigger] plan.set[j]).0 != plan.unset[i],
        forall|j: int| 0 <= j < overrides.len() ==> (#[trigger] overrides[j]).0 != plan.unset[i],
    ensures
        value_in(merged(base, plan, overrides), plan.unset[i]) is None,
{
    let changes = assembled(plan, overrides);
    let name = plan.unset[i];
    let set_at = plan.unset.len();
    let over_at = plan.unset.len() + plan.set.len();
    let last = choose|k: int|
        0 <= k < set_at && plan.unset[k] == name && forall|j: int|
            k < j < set_at ==> plan.unset[j] != name;
    lemma_last_occurrence(plan.unset, name, i);
    assert(changes[last] == Change::Remove(name));
    assert forall|j: int| last < j < changes.len() implies (#[trigger] changes[j]).name()
        != name by {
        if j < set_at {
            assert(changes[j] == Change::Remove(plan.unset[j]));
        } else if j < over_at {
            assert(changes[j] == Change::Assign(plan.set[j - set_at].0, plan.set[j - set_at].1));
        } else {
            assert(changes[j] == Change::Assign(overrides[j - over_at].0, overrides[j - over_at].1));
        }
    }
    lemma_last_change_decides(changes, name, value_in(base, name), last);
    lemma_value_after(base, changes, name);
}

/// A value that occurs in a sequence has a last occurrence.
pub proof fn lemma_last_occurrence<T>(s: Seq<T>, x: T, i: int)
    requires
        0 <= i < s.len(),
        s[i] == x,
    ensures
        exists|k: int|
            0 <= k < s.len() && s[k] == x && forall|j: int| k < j < s.len() ==> s[j] != x,
    decreases s.len() - i,
{
    if exists|j: int| i < j < s.len() && s[j] == x {
        let j = choose|j: int| i < j < s.len() && s[j] == x;
        lemma_last_occurrence(s, x, j);
    } else {
        assert(0 <= i < s.len() && s[i] == x && forall|j: int| i < j < s.len() ==> s[j] != x);
    }
}

} // verus!
