use metamath_blueprints::graph::{DepGraph, item_node, COLOR_BLACK, COLOR_BLUE, COLOR_GREEN, COLOR_WHITE, FILL_FORMALIZED, FILL_READY_FOR_PROOF};
use metamath_blueprints::item::{Item, ItemInfo, ItemPage, ItemState, ItemType};
use metamath_blueprints::nav::{IndexPage, Nav};
use metamath_blueprints::project::ProjectPage;
use metamath_blueprints::project::{is_project_entry, Project, ScanEntry};
use metamath_blueprints::watch::{watch_step, WatchAction, WatchEvent};
use metamath_blueprints::Error;

fn item(name: &str, state: ItemState, kind: ItemType, deps: &[&str]) -> Item {
    let mut info = ItemInfo::default();
    info.state = state;
    info.kind = kind;
    info.dependencies = deps.iter().map(|d| d.to_string()).collect();
    Item { name: name.to_string(), info, body: String::new() }
}

fn entry(name: &str, text: &str) -> ScanEntry {
    ScanEntry { name: name.to_string(), is_dir: false, text: text.to_string() }
}

#[test]
fn two_items_one_edge_no_synthetic() {
    let items = vec![
        item("A", ItemState::Formalized, ItemType::Theorem, &["B"]),
        item("B", ItemState::Draft, ItemType::Theorem, &[]),
    ];
    let g = DepGraph::build(&items).unwrap();
    assert_eq!(g.nodes.len(), 2);
    assert_eq!(g.edges.len(), 1);
    assert_eq!(g.edges[0], (0, 1));
    assert!(g.nodes.iter().all(|n| !n.synthetic));
    assert_eq!(g.nodes[0].label, "A");
    assert_eq!(g.nodes[1].label, "B");
}

#[test]
fn unresolved_dependency_synthesizes_node() {
    let items = vec![item("C", ItemState::Draft, ItemType::Theorem, &["Ghost"])];
    let g = DepGraph::build(&items).unwrap();
    assert_eq!(g.nodes.len(), 2);
    assert_eq!(g.edges.len(), 1);
    assert_eq!(g.edges[0], (0, 1));
    assert!(g.nodes[1].synthetic);
    assert_eq!(g.nodes[1].label, "Ghost");
    assert_eq!(g.nodes[1].url, "Ghost.html");
    assert!(g.nodes[1].boxed);
    assert_eq!(g.nodes[1].line_color, COLOR_BLACK);
    assert_eq!(g.nodes[1].fill_color, FILL_FORMALIZED);
}

#[test]
fn synthetic_node_reused_for_repeated_name() {
    let items = vec![
        item("A", ItemState::Draft, ItemType::Theorem, &["X", "X"]),
        item("B", ItemState::Draft, ItemType::Theorem, &["X"]),
    ];
    let g = DepGraph::build(&items).unwrap();
    assert_eq!(g.nodes.len(), 3);
    assert_eq!(g.edges, vec![(0, 2), (0, 2), (1, 2)]);
}

#[test]
fn dependency_resolves_regardless_of_declaration_order() {
    let items = vec![
        item("Early", ItemState::Draft, ItemType::Theorem, &["Late"]),
        item("Late", ItemState::Draft, ItemType::Definition, &["Early"]),
    ];
    let g = DepGraph::build(&items).unwrap();
    assert_eq!(g.nodes.len(), 2);
    assert!(g.nodes.iter().all(|n| !n.synthetic));
    assert_eq!(g.edges, vec![(0, 1), (1, 0)]);
}

#[test]
fn self_dependency_makes_self_loop() {
    let items = vec![item("A", ItemState::Draft, ItemType::Theorem, &["A"])];
    let g = DepGraph::build(&items).unwrap();
    assert_eq!(g.nodes.len(), 1);
    assert_eq!(g.edges, vec![(0, 0)]);
}

#[test]
fn styling_is_a_function_of_kind_and_state() {
    let n = item_node(&item("T", ItemState::Formalized, ItemType::Theorem, &[]));
    assert!(n.boxed);
    assert_eq!(n.line_color, COLOR_BLACK);
    assert_eq!(n.fill_color, FILL_FORMALIZED);
    assert_eq!(n.url, "T.html");

    let n = item_node(&item("D", ItemState::ReadyForStmt, ItemType::Definition, &[]));
    assert!(!n.boxed);
    assert_eq!(n.line_color, COLOR_BLUE);
    assert_eq!(n.fill_color, COLOR_WHITE);

    let n = item_node(&item("S", ItemState::StmtFormalized, ItemType::Theorem, &[]));
    assert_eq!(n.line_color, COLOR_GREEN);
    assert_eq!(n.fill_color, COLOR_WHITE);

    let n = item_node(&item("P", ItemState::ReadyForProof, ItemType::Theorem, &[]));
    assert_eq!(n.line_color, COLOR_BLACK);
    assert_eq!(n.fill_color, FILL_READY_FOR_PROOF);

    let n = item_node(&item("R", ItemState::Draft, ItemType::Definition, &[]));
    assert_eq!(n.line_color, COLOR_BLACK);
    assert_eq!(n.fill_color, COLOR_WHITE);
}

#[test]
fn item_from_source_decodes_front_matter() {
    let text = "+++\ntype = \"Definition\"\nstate = \"Formalized\"\ndependencies = [\"X\", \"Y\"]\nstatement = \"All is well\"\n+++\nBody *text*";
    let r = Item::from_source(&"thm1".to_string(), false, &text.to_string()).unwrap();
    let it = r.unwrap();
    assert_eq!(it.name, "thm1");
    assert!(matches!(it.info.kind, ItemType::Definition));
    assert!(matches!(it.info.state, ItemState::Formalized));
    assert_eq!(it.info.dependencies, vec!["X".to_string(), "Y".to_string()]);
    assert_eq!(it.info.statement.as_deref(), Some("All is well"));
    assert!(!it.info.hide);
    assert!(it.body.contains("<em>text</em>"));
    assert_ne!(it.body, "Body *text*");
}

#[test]
fn item_defaults_applied_when_fields_unset() {
    let text = "+++\n+++\nhello";
    let it = Item::from_source(&"a".to_string(), false, &text.to_string())
        .unwrap()
        .unwrap();
    assert!(matches!(it.info.kind, ItemType::Theorem));
    assert!(matches!(it.info.state, ItemState::Draft));
    assert!(it.info.dependencies.is_empty());
    assert!(it.info.statement.is_none());
    assert!(!it.info.hide);
}

#[test]
fn hidden_item_is_dropped() {
    let text = "+++\nhide = true\n+++\nbody";
    let r = Item::from_source(&"h".to_string(), false, &text.to_string()).unwrap();
    assert!(r.is_none());
}

#[test]
fn directory_and_readme_entries_are_no_items() {
    let r = Item::from_source(&"sub".to_string(), true, &String::new()).unwrap();
    assert!(r.is_none());
    let r = Item::from_source(&"README".to_string(), false, &"text".to_string()).unwrap();
    assert!(r.is_none());
}

#[test]
fn missing_front_matter_is_fatal() {
    let r = Item::from_source(&"bad".to_string(), false, &"no matter here".to_string());
    match r {
        Err(Error::Custom(m)) => assert_eq!(m, "Could not parse front matter for bad"),
        _ => panic!("expected a front matter error"),
    }
}

#[test]
fn ill_typed_field_is_fatal() {
    let text = "+++\ntype = 3\n+++\nbody";
    match Item::from_source(&"x".to_string(), false, &text.to_string()) {
        Err(Error::Toml(m)) => assert_eq!(m, "invalid front matter field: type"),
        _ => panic!("expected a decode error"),
    }
}

#[test]
fn unknown_state_name_is_fatal() {
    let text = "+++\nstate = \"Done\"\n+++\nbody";
    match Item::from_source(&"x".to_string(), false, &text.to_string()) {
        Err(Error::Toml(m)) => assert_eq!(m, "invalid front matter field: state"),
        _ => panic!("expected a decode error"),
    }
}

#[test]
fn malformed_toml_is_fatal() {
    let text = "+++\n= = =\n+++\nbody";
    match Item::from_source(&"x".to_string(), false, &text.to_string()) {
        Err(Error::Toml(_)) => {},
        _ => panic!("expected a decode error"),
    }
}

#[test]
fn project_without_readme_fails_by_name() {
    let entries = vec![entry("a", "+++\n+++\nbody")];
    match Project::from_scan("P".to_string(), None, &entries) {
        Err(Error::Custom(m)) => assert_eq!(m, "No README.md file for project P"),
        _ => panic!("expected the missing README error"),
    }
}

#[test]
fn project_scan_collects_non_hidden_items() {
    let entries = vec![
        entry("a", "+++\n+++\nbody a"),
        entry("hidden", "+++\nhide = true\n+++\nbody h"),
        ScanEntry { name: "sub".to_string(), is_dir: true, text: String::new() },
        entry("README", "ignored"),
        entry("b", "+++\ndependencies = [\"hidden\"]\n+++\nbody b"),
    ];
    let p = Project::from_scan("P".to_string(), Some("# P\nabout".to_string()), &entries)
        .unwrap();
    assert_eq!(p.name, "P");
    assert_eq!(p.items.len(), 2);
    assert_eq!(p.items[0].name, "a");
    assert_eq!(p.items[1].name, "b");
    assert!(p.body.contains("about"));

    // A dependency on the hidden item's name yields a synthetic node:
    // hiding removed the item, not the name.
    let g = DepGraph::build(&p.items).unwrap();
    assert_eq!(g.nodes.len(), 3);
    assert!(g.nodes[2].synthetic);
    assert_eq!(g.nodes[2].label, "hidden");
    assert_eq!(g.edges, vec![(1, 2)]);
}

#[test]
fn project_scan_fails_on_first_bad_item() {
    let entries = vec![entry("good", "+++\n+++\nok"), entry("bad", "plain text")];
    match Project::from_scan("P".to_string(), Some("readme".to_string()), &entries) {
        Err(Error::Custom(m)) => assert_eq!(m, "Could not parse front matter for bad"),
        _ => panic!("expected the scan to fail"),
    }
}

#[test]
fn output_file_names_cover_exactly_the_items() {
    let entries = vec![entry("x", "+++\n+++\n."), entry("y", "+++\n+++\n.")];
    let p = Project::from_scan("P".to_string(), Some("r".to_string()), &entries).unwrap();
    let names = p.output_file_names();
    assert_eq!(names, vec!["x.html".to_string(), "y.html".to_string(), "index.html".to_string()]);
}

#[test]
fn get_item_finds_by_name() {
    let entries = vec![entry("x", "+++\n+++\n."), entry("y", "+++\n+++\n.")];
    let p = Project::from_scan("P".to_string(), Some("r".to_string()), &entries).unwrap();
    assert_eq!(p._get_item(&"y".to_string()).unwrap().name, "y");
    assert!(p._get_item(&"z".to_string()).is_none());
}

#[test]
fn diagram_embeds_links_and_scales() {
    let items = vec![
        item("Alpha", ItemState::Formalized, ItemType::Theorem, &["Beta"]),
        item("Beta", ItemState::Draft, ItemType::Definition, &[]),
    ];
    let p = Project { name: "P".to_string(), items, body: String::new() };
    let svg = p.render_dependency_graph().unwrap();
    assert!(svg.contains("Alpha"));
    assert!(svg.contains("Alpha.html"));
    assert!(svg.contains("<ellipse"), "definitions are drawn as ellipses");
    assert!(svg.contains("<rect"), "theorems are drawn as rectangles");
    assert!(!svg.contains("<svg width=\""), "fixed dimensions are stripped");
}

#[test]
fn project_without_visible_items_yields_empty_diagram() {
    let entries = vec![
        entry("README", "about"),
        entry("ghost", "+++\nhide = true\n+++\nbody"),
    ];
    let p = Project::from_scan("P".to_string(), Some("about".to_string()), &entries).unwrap();
    assert!(p.items.is_empty());
    assert_eq!(p.render_dependency_graph().unwrap(), "");
}

#[test]
fn diagram_rendering_is_idempotent() {
    let items = vec![
        item("A", ItemState::ReadyForProof, ItemType::Theorem, &["B", "Ghost"]),
        item("B", ItemState::StmtFormalized, ItemType::Definition, &["A"]),
    ];
    let p = Project { name: "P".to_string(), items, body: String::new() };
    let first = p.render_dependency_graph().unwrap();
    let second = p.render_dependency_graph().unwrap();
    assert_eq!(first, second);
}

#[test]
fn index_body_strips_heading_and_requires_readme() {
    let nav_projects: Vec<Project> = Vec::new();
    let nav = Nav { projects: &nav_projects };
    let body = nav
        .body(Some(&"# Metamath Blueprints\n\nwelcome".to_string()))
        .unwrap();
    assert!(body.contains("welcome"));
    assert!(!body.contains("Metamath Blueprints"));
    match nav.body(None) {
        Err(Error::Custom(m)) => assert_eq!(m, "No README.md file for index"),
        _ => panic!("expected the missing README error"),
    }
}

#[test]
fn watch_event_triggers_exactly_one_rebuild() {
    assert!(matches!(watch_step(&WatchEvent::Changed), WatchAction::Rebuild));
    match watch_step(&WatchEvent::Faulted("boom".to_string())) {
        WatchAction::Report(m) => assert_eq!(m, "Watch error: boom"),
        WatchAction::Rebuild => panic!("a fault must not rebuild"),
    }
}

#[test]
fn page_data_carries_its_parts() {
    let projects = vec![Project {
        name: "P".to_string(),
        items: vec![item("A", ItemState::Draft, ItemType::Theorem, &[])],
        body: "about".to_string(),
    }];
    let nav = Nav { projects: &projects };
    let index = IndexPage { body: "home".to_string(), nav: &nav };
    assert_eq!(index.body, "home");
    let project_page =
        ProjectPage { project: &projects[0], nav: &nav, dependencies: "<svg/>".to_string() };
    assert_eq!(project_page.dependencies, "<svg/>");
    let item_page = ItemPage { project: &projects[0], item: &projects[0].items[0], nav: &nav };
    assert_eq!(item_page.item.name, "A");
    assert_eq!(item_page.project.name, "P");
}

#[test]
fn project_entries_skip_output_dir_and_dot_entries() {
    assert!(is_project_entry(&"algebra".to_string(), true));
    assert!(!is_project_entry(&"algebra".to_string(), false));
    assert!(!is_project_entry(&"build".to_string(), true));
    assert!(!is_project_entry(&".git".to_string(), true));
}

#[test]
fn info_defaults_are_the_documented_ones() {
    let info = ItemInfo::default();
    assert!(matches!(info.kind, ItemType::Theorem));
    assert!(matches!(info.state, ItemState::Draft));
    assert!(info.statement.is_none());
    assert!(info.dependencies.is_empty());
    assert!(!info.hide);
    assert!(info.reference.is_none());
    assert!(info.wikipedia.is_none());
}

#[test]
fn error_messages_carry_their_category() {
    assert_eq!(Error::Io("f".to_string()).message(), "I/O Error: f");
    assert_eq!(Error::Custom("c".to_string()).message(), "Error: c");
    assert_eq!(Error::Toml("t".to_string()).message(), "TOML Decoding Error: t");
    assert_eq!(Error::Template("p".to_string()).message(), "Template Error: p");
    assert_eq!(Error::Render("r".to_string()).message(), "Rendering Error: r");
    assert_eq!(Error::Watch("w".to_string()).message(), "Watch Error: w");
}
