use rv_exec::environment::assemble;
use rv_exec::environment::effective_value;
use rv_exec::environment::lookup;
use rv_exec::environment::EnvChange;
use rv_exec::environment::EnvironmentPlan;

fn pairs(list: &[(&str, &str)]) -> Vec<(String, String)> {
    list.iter()
        .map(|(name, value)| (name.to_string(), value.to_string()))
        .collect()
}

fn plan(unset: &[&str], set: &[(&str, &str)]) -> EnvironmentPlan {
    EnvironmentPlan {
        unset: unset.iter().map(|name| name.to_string()).collect(),
        set: pairs(set),
    }
}

fn remove(name: &str) -> EnvChange {
    EnvChange::Remove(name.to_string())
}

fn assign(name: &str, value: &str) -> EnvChange {
    EnvChange::Assign(name.to_string(), value.to_string())
}

fn text(value: &str) -> Option<String> {
    Some(value.to_string())
}

#[test]
fn changes_come_in_three_phases() {
    let plan = plan(
        &["RUBYOPT", "GEM_HOME"],
        &[("GEM_HOME", "/rubies/3.4/gems"), ("PATH", "/rubies/3.4/bin")],
    );
    let overrides = vec![("RV_TEST", "1".to_string()), ("PATH", "/forced".to_string())];
    assert_eq!(
        assemble(&plan, &overrides),
        vec![
            remove("RUBYOPT"),
            remove("GEM_HOME"),
            assign("GEM_HOME", "/rubies/3.4/gems"),
            assign("PATH", "/rubies/3.4/bin"),
            assign("RV_TEST", "1"),
            assign("PATH", "/forced"),
        ]
    );
}

#[test]
fn an_empty_plan_without_overrides_changes_nothing() {
    let changes = assemble(&plan(&[], &[]), &Vec::new());
    assert_eq!(changes, Vec::new());
    assert_eq!(effective_value(&changes, "HOME", text("/home/me")), text("/home/me"));
    assert_eq!(effective_value(&changes, "HOME", None), None);
}

#[test]
fn an_override_wins_over_the_plan_and_the_inherited_value() {
    let plan = plan(&["GEM_HOME"], &[("GEM_HOME", "/rubies/gems"), ("GEM_PATH", "/rubies/path")]);
    let overrides = vec![("GEM_HOME", "/forced".to_string())];
    let changes = assemble(&plan, &overrides);
    assert_eq!(effective_value(&changes, "GEM_HOME", text("/inherited")), text("/forced"));
    assert_eq!(effective_value(&changes, "GEM_HOME", None), text("/forced"));
    assert_eq!(effective_value(&changes, "GEM_PATH", text("/inherited")), text("/rubies/path"));
}

#[test]
fn the_later_of_two_overrides_wins() {
    let overrides = vec![
        ("A", "first".to_string()),
        ("B", "only".to_string()),
        ("A", "second".to_string()),
    ];
    let changes = assemble(&plan(&[], &[("A", "planned")]), &overrides);
    assert_eq!(effective_value(&changes, "A", None), text("second"));
    assert_eq!(effective_value(&changes, "B", None), text("only"));
}

#[test]
fn what_the_plan_sets_wins_over_what_it_removes() {
    let changes = assemble(&plan(&["A", "B"], &[("A", "set")]), &Vec::new());
    assert_eq!(effective_value(&changes, "A", text("inherited")), text("set"));
    assert_eq!(effective_value(&changes, "B", text("inherited")), None);
    assert_eq!(effective_value(&changes, "C", text("inherited")), text("inherited"));
    assert_eq!(effective_value(&changes, "C", None), None);
}

#[test]
fn an_override_brings_back_a_removed_variable() {
    let overrides = vec![("RUBYOPT", "-w".to_string())];
    let changes = assemble(&plan(&["RUBYOPT"], &[]), &overrides);
    assert_eq!(effective_value(&changes, "RUBYOPT", None), text("-w"));
    assert_eq!(effective_value(&changes, "RUBYOPT", text("-d")), text("-w"));
}

#[test]
fn names_are_compared_exactly() {
    let changes = vec![assign("Path", "a"), remove("PATH "), assign("PATH", "b")];
    assert_eq!(effective_value(&changes, "PATH", None), text("b"));
    assert_eq!(effective_value(&changes, "Path", None), text("a"));
    assert_eq!(effective_value(&changes, "PATH ", text("x")), None);
    assert_eq!(effective_value(&changes, "path", text("x")), text("x"));
}

#[test]
fn lookup_takes_the_first_pair_of_a_name() {
    let env = pairs(&[("PATH", "/a"), ("HOME", "/h"), ("PATH", "/b"), ("EMPTY", "")]);
    assert_eq!(lookup(&env, "PATH"), text("/a"));
    assert_eq!(lookup(&env, "HOME"), text("/h"));
    assert_eq!(lookup(&env, "EMPTY"), text(""));
    assert_eq!(lookup(&env, "MISSING"), None);
    assert_eq!(lookup(&Vec::new(), "PATH"), None);
}
