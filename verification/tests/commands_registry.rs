use pine::commands::{Commands, Engine, index_of_entry, index_of_name};

type Cmds = Commands<&'static str, i32>;

fn names(ids: &[&str]) -> Vec<String> {
    ids.iter().map(|s| s.to_string()).collect()
}

fn vars(cmds: &Cmds) -> Vec<(String, i32)> {
    cmds.global_variables.clone()
}

#[test]
fn index_lookups_find_first_match() {
    let ids = names(&["a", "b", "a"]);
    assert_eq!(index_of_name(&ids, "a"), Some(0));
    assert_eq!(index_of_name(&ids, "b"), Some(1));
    assert_eq!(index_of_name(&ids, "c"), None);
    let entries = vec![("x".to_string(), 1), ("y".to_string(), 2), ("y".to_string(), 3)];
    assert_eq!(index_of_entry(&entries, "y"), Some(1));
    assert_eq!(index_of_entry(&entries, ""), None);
}

#[test]
fn new_context_is_empty() {
    let cmds: Cmds = Commands::new((800, 600));
    assert!(cmds.active_components.is_empty());
    assert!(cmds.global_variables.is_empty());
    assert_eq!(cmds.window_bounds, (800, 600));
}

#[test]
fn spawn_appends() {
    let mut cmds: Cmds = Commands::new((800, 600));
    cmds.spawn("first");
    cmds.spawn("second");
    assert_eq!(cmds.active_components, vec!["first", "second"]);
}

#[test]
fn destroy_removes_first_match_only() {
    let mut cmds: Cmds = Commands::new((800, 600));
    cmds.spawn("c0");
    cmds.spawn("c1");
    cmds.spawn("c2");
    cmds.destroy(&names(&["A", "B", "A"]), "A");
    assert_eq!(cmds.active_components, vec!["c1", "c2"]);
    cmds.destroy(&names(&["B", "A"]), "missing");
    assert_eq!(cmds.active_components, vec!["c1", "c2"]);
}

#[test]
fn find_index_of_component() {
    let mut cmds: Cmds = Commands::new((800, 600));
    cmds.spawn("label");
    cmds.spawn("actor");
    let ids = names(&["Label1", "Player"]);
    assert_eq!(cmds.find_index(&ids, "Player"), Some(1));
    assert_eq!(cmds.find_index(&ids, "Enemy"), None);
}

#[test]
fn global_variables_add_and_get() {
    let mut cmds: Cmds = Commands::new((800, 600));
    cmds.add_global_var("score", 0);
    cmds.add_global_var("lives", 3);
    cmds.add_global_var("score", 99);
    assert_eq!(cmds.get_global_var("score"), Some(&0));
    assert_eq!(cmds.get_global_var("lives"), Some(&3));
    assert_eq!(cmds.get_global_var("level"), None);
}

#[test]
fn delete_single_global_var() {
    let mut cmds: Cmds = Commands::new((800, 600));
    cmds.add_global_var("jumping", 0);
    cmds.add_global_var("collision", 1);
    cmds.delete_global_var("jumping");
    assert_eq!(vars(&cmds), vec![("collision".to_string(), 1)]);
    assert_eq!(cmds.get_global_var("jumping"), None);
}

#[test]
fn delete_absent_global_var_is_noop() {
    let mut cmds: Cmds = Commands::new((800, 600));
    cmds.add_global_var("a", 1);
    cmds.delete_global_var("b");
    assert_eq!(vars(&cmds), vec![("a".to_string(), 1)]);
}

#[test]
fn delete_removes_every_variable_of_the_name() {
    let mut cmds: Cmds = Commands::new((800, 600));
    cmds.add_global_var("a", 1);
    cmds.add_global_var("a", 2);
    cmds.add_global_var("x", 3);
    cmds.add_global_var("y", 4);
    cmds.delete_global_var("a");
    assert_eq!(vars(&cmds), vec![("x".to_string(), 3), ("y".to_string(), 4)]);
    assert_eq!(cmds.get_global_var("a"), None);
}

#[test]
fn delete_repeated_name_only() {
    let mut cmds: Cmds = Commands::new((800, 600));
    cmds.add_global_var("a", 1);
    cmds.add_global_var("a", 2);
    cmds.delete_global_var("a");
    assert!(cmds.global_variables.is_empty());
    let mut mixed: Cmds = Commands::new((800, 600));
    mixed.add_global_var("b", 0);
    mixed.add_global_var("a", 1);
    mixed.add_global_var("c", 2);
    mixed.add_global_var("a", 3);
    mixed.delete_global_var("a");
    assert_eq!(vars(&mixed), vec![("b".to_string(), 0), ("c".to_string(), 2)]);
}

#[test]
fn window_measures() {
    let cmds: Cmds = Commands::new((801, 600));
    assert_eq!(cmds.width(), 801);
    assert_eq!(cmds.height(), 600);
    assert_eq!(cmds.half_width(), 400);
    assert_eq!(cmds.half_height(), 300);
    assert_eq!(cmds.center(), (400, 300));
    let odd: Cmds = Commands::new((-3, -5));
    assert_eq!(odd.half_width(), -1);
    assert_eq!(odd.center(), (-1, -2));
}

#[test]
fn engine_destroy_without_window() {
    let r = Engine::destroy::<&str, i32>(None, &Vec::new(), "Player");
    assert_eq!(r.unwrap_err().0, "Failed to destroy component 'Player'");
}

#[test]
fn engine_destroy_with_window() {
    let mut cmds: Cmds = Commands::new((800, 600));
    cmds.spawn("player");
    let r = Engine::destroy(Some(&mut cmds), &names(&["Player"]), "Player");
    assert!(r.is_ok());
    assert!(cmds.active_components.is_empty());
}

#[test]
fn engine_global_vars() {
    let mut cmds: Cmds = Commands::new((800, 600));
    assert!(Engine::add_global_var(&mut cmds, "counter", 0).is_ok());
    assert_eq!(*Engine::get_global_var(&cmds, "counter"), 0);
    Engine::delete_global_var(Some(&mut cmds), "counter");
    assert!(cmds.global_variables.is_empty());
    Engine::delete_global_var::<&str, i32>(None, "counter");
}

#[test]
fn get_after_add_law_example() {
    let mut cmds: Cmds = Commands::new((800, 600));
    cmds.add_global_var("a", 1);
    cmds.add_global_var("b", 2);
    assert_eq!(cmds.get_global_var("b"), Some(&2));
}

#[test]
fn delete_undoes_add_law_example() {
    let mut cmds: Cmds = Commands::new((800, 600));
    cmds.add_global_var("a", 1);
    let before = vars(&cmds);
    cmds.add_global_var("fresh", 5);
    cmds.delete_global_var("fresh");
    assert_eq!(vars(&cmds), before);
}

#[test]
fn destroy_undoes_spawn_law_example() {
    let mut cmds: Cmds = Commands::new((800, 600));
    cmds.spawn("c0");
    let before = cmds.active_components.clone();
    cmds.spawn("new");
    let ids = names(&["Actor1", "Actor2"]);
    assert_eq!(cmds.find_index(&ids, "Actor2"), Some(1));
    cmds.destroy(&ids, "Actor2");
    assert_eq!(cmds.active_components, before);
}
