use std::collections::HashMap;

use scaffoldify::cli::AvailablePatterns;
use scaffoldify::cli::AvailableScaffolds;
use scaffoldify::cli::CssOptions;
use scaffoldify::cli::CssVariants;
use scaffoldify::cli::PatternScaffolds;
use scaffoldify::cli::Scaffolds;
use scaffoldify::cli::Subcommands;
use scaffoldify::plan::plan_invocation;
use scaffoldify::plan::Action;
use scaffoldify::templates::global_reset_css;
use scaffoldify::templates::root_css;

fn create(name: Option<&str>, variant: AvailableScaffolds) -> Subcommands {
    Subcommands::Create(Scaffolds {
        name: name.map(|n| n.to_string()),
        available_scaffolds: variant,
    })
}

fn new_project(name: Option<&str>, variant: AvailableScaffolds) -> Subcommands {
    Subcommands::New(Scaffolds {
        name: name.map(|n| n.to_string()),
        available_scaffolds: variant,
    })
}

fn pattern(variant: CssVariants) -> Subcommands {
    Subcommands::Pattern(PatternScaffolds {
        name: None,
        available_patterns: AvailablePatterns::Css(CssOptions { css_variants: variant }),
    })
}

/// The filesystem writer's effect on a map from path to content: a write
/// overwrites; every other action leaves the files alone.
fn apply_writes(files: &mut HashMap<String, String>, plan: &[Action]) {
    for action in plan {
        if let Action::WriteFile { path, content } = action {
            files.insert(path.clone(), content.clone());
        }
    }
}

#[test]
fn new_go_project_scaffolds_a_module() {
    let plan = plan_invocation(new_project(Some("mysvc"), AvailableScaffolds::Go));
    assert_eq!(plan.len(), 7);
    assert!(matches!(&plan[0], Action::CreateDir { path } if path == "mysvc"));
    match &plan[1] {
        Action::Run { program, args, dir } => {
            assert_eq!(program, "go");
            assert_eq!(args, &["mod", "init", "mysvc"]);
            assert_eq!(dir, "mysvc");
        },
        _ => unreachable!(),
    }
    match &plan[2] {
        Action::Run { program, args, .. } => {
            assert_eq!(program, "go");
            assert_eq!(args, &["get", "github.com/charmbracelet/log"]);
        },
        _ => unreachable!(),
    }
    match &plan[3] {
        Action::Run { args, .. } => {
            assert_eq!(args, &["get", "github.com/stretchr/testify"]);
        },
        _ => unreachable!(),
    }
    match &plan[4] {
        Action::WriteFile { path, content } => {
            assert_eq!(path, "mysvc/main.go");
            assert!(content.contains("func main()"));
            assert!(content.contains("Hello, main!"));
        },
        _ => unreachable!(),
    }
    match &plan[5] {
        Action::WriteFile { path, content } => {
            assert_eq!(path, "mysvc/main_test.go");
            assert!(content.contains("func TestMain(t *testing.T)"));
        },
        _ => unreachable!(),
    }
    match &plan[6] {
        Action::Run { program, args, dir } => {
            assert_eq!(program, "go");
            assert_eq!(args, &["fmt"]);
            assert_eq!(dir, "mysvc");
        },
        _ => unreachable!(),
    }
}

#[test]
fn new_go_project_without_a_name_uses_the_default() {
    let plan = plan_invocation(new_project(None, AvailableScaffolds::Go));
    assert!(matches!(&plan[0], Action::CreateDir { path } if path == "new"));
}

#[test]
fn create_lit_writes_two_component_files() {
    let plan = plan_invocation(create(Some("widget"), AvailableScaffolds::Lit));
    assert_eq!(plan.len(), 3);
    assert!(matches!(&plan[0], Action::CreateDir { path } if path == "widget"));
    match &plan[1] {
        Action::WriteFile { path, content } => {
            assert_eq!(path, "widget/widget-css.ts");
            assert!(content.contains(global_reset_css().as_str()));
        },
        _ => unreachable!(),
    }
    match &plan[2] {
        Action::WriteFile { path, content } => {
            assert_eq!(path, "widget/widget-element.ts");
            assert!(content.contains("customElement('widget-element')"));
            assert!(content.contains("export class WidgetElement"));
        },
        _ => unreachable!(),
    }
}

#[test]
fn create_lit_without_a_name_uses_the_default() {
    let plan = plan_invocation(create(None, AvailableScaffolds::Lit));
    assert!(matches!(&plan[0], Action::CreateDir { path } if path == "default.ts"));
}

#[test]
fn create_react_title_cases_the_component() {
    let plan = plan_invocation(create(Some("Card"), AvailableScaffolds::React));
    assert_eq!(plan.len(), 3);
    assert!(matches!(&plan[0], Action::CreateDir { path } if path == "Card"));
    match &plan[1] {
        Action::WriteFile { path, content } => {
            assert_eq!(path, "Card/Card.tsx");
            assert!(content.contains("import './Card.css'"));
            assert!(content.contains("function Card()"));
            assert!(content.contains("export default Card"));
        },
        _ => unreachable!(),
    }
    match &plan[2] {
        Action::WriteFile { path, content } => {
            assert_eq!(path, "Card/Card.css");
            assert_eq!(content, "");
        },
        _ => unreachable!(),
    }
}

#[test]
fn create_react_capitalizes_a_lower_case_name() {
    let plan = plan_invocation(create(Some("card"), AvailableScaffolds::React));
    assert!(matches!(&plan[0], Action::CreateDir { path } if path == "Card"));
    assert!(matches!(&plan[1], Action::WriteFile { path, .. } if path == "Card/Card.tsx"));
}

#[test]
fn create_go_writes_into_the_working_directory() {
    let plan = plan_invocation(create(None, AvailableScaffolds::Go));
    assert_eq!(plan.len(), 3);
    assert!(matches!(&plan[0], Action::WriteFile { path, .. } if path == "./util.go"));
    assert!(matches!(&plan[1], Action::WriteFile { path, .. } if path == "./util_test.go"));
    match &plan[2] {
        Action::Run { program, args, dir } => {
            assert_eq!(program, "go");
            assert_eq!(args, &["fmt"]);
            assert_eq!(dir, ".");
        },
        _ => unreachable!(),
    }
}

#[test]
fn new_lit_clones_the_template_repository() {
    let plan = plan_invocation(new_project(Some("site"), AvailableScaffolds::Lit));
    assert_eq!(plan.len(), 2);
    assert!(matches!(&plan[0], Action::CreateDir { path } if path == "site"));
    match &plan[1] {
        Action::Run { program, args, dir } => {
            assert_eq!(program, "git");
            assert_eq!(args, &["clone", "https://github.com/serranoio/lit.git", "."]);
            assert_eq!(dir, "site");
        },
        _ => unreachable!(),
    }
}

#[test]
fn new_react_clones_then_installs() {
    let plan = plan_invocation(new_project(None, AvailableScaffolds::React));
    assert_eq!(plan.len(), 5);
    assert!(matches!(&plan[0], Action::CreateDir { path } if path == "react"));
    assert!(matches!(&plan[1], Action::Print { text } if text == "Cloning...\n"));
    match &plan[2] {
        Action::Run { program, args, .. } => {
            assert_eq!(program, "git");
            assert_eq!(args, &["clone", "https://github.com/serranoio/react.git", "."]);
        },
        _ => unreachable!(),
    }
    assert!(matches!(&plan[3], Action::Print { text } if text == "installing dep...\n"));
    match &plan[4] {
        Action::Run { program, args, dir } => {
            assert_eq!(program, "npm");
            assert_eq!(args, &["i"]);
            assert_eq!(dir, "react");
        },
        _ => unreachable!(),
    }
}

#[test]
fn pattern_root_prints_the_full_sheet() {
    let plan = plan_invocation(pattern(CssVariants::Root));
    assert_eq!(plan.len(), 1);
    match &plan[0] {
        Action::Print { text } => {
            assert_eq!(text, &root_css());
            assert!(text.contains("--brandColor:"));
        },
        _ => unreachable!(),
    }
}

#[test]
fn pattern_global_prints_only_the_reset() {
    let plan = plan_invocation(pattern(CssVariants::Global));
    assert_eq!(plan.len(), 1);
    match &plan[0] {
        Action::Print { text } => {
            assert_eq!(text, &global_reset_css());
            assert!(!text.contains("--brandColor"));
        },
        _ => unreachable!(),
    }
}

#[test]
fn planning_twice_gives_the_identical_plan() {
    let cmd = new_project(Some("mysvc"), AvailableScaffolds::Go);
    assert_eq!(plan_invocation(cmd.clone()), plan_invocation(cmd));
    let cmd = create(Some("widget"), AvailableScaffolds::Lit);
    assert_eq!(plan_invocation(cmd.clone()), plan_invocation(cmd));
    let cmd = pattern(CssVariants::Root);
    assert_eq!(plan_invocation(cmd.clone()), plan_invocation(cmd));
}

#[test]
fn rerunning_overwrites_instead_of_appending() {
    let once_plan = plan_invocation(create(Some("svc"), AvailableScaffolds::Go));
    let again_plan = plan_invocation(create(Some("svc"), AvailableScaffolds::Go));

    let mut files: HashMap<String, String> = HashMap::new();
    files.insert("./svc.go".to_string(), "stale content".to_string());
    apply_writes(&mut files, &once_plan);
    let after_once = files.clone();
    apply_writes(&mut files, &again_plan);

    assert_eq!(files, after_once);
    let source = &files["./svc.go"];
    assert_eq!(source.matches("package main").count(), 1);
    assert!(!source.contains("stale content"));
}
