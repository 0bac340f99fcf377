//! The scaffold orchestrator.
//!
//! Each orchestration path is a pure function from an invocation to a plan:
//! the exact sequence of actions — create a directory, write a file, run a
//! program, print text — that the unverified shell then carries out in
//! order. The contracts pin every plan down to the sequence given by the
//! matching spec function, so the whole orchestration is deterministic.

use vstd::prelude::*;
use vstd::string::StringExecFns;

use crate::cli::AvailablePatterns;
use crate::cli::AvailableScaffolds;
use crate::cli::CssVariants;
use crate::cli::Subcommands;
use crate::names::get_name;
use crate::names::opt_name_view;
use crate::names::resolved;
use crate::names::title_of;
use crate::names::to_title_case;
use crate::templates::global_reset_css;
use crate::templates::go_source_text;
use crate::templates::go_test_text;
use crate::templates::lit_css_text;
use crate::templates::lit_element_text;
use crate::templates::react_component_text;
use crate::templates::render_go_source;
use crate::templates::render_go_test;
use crate::templates::render_lit_css;
use crate::templates::render_lit_element;
use crate::templates::render_react_component;
use crate::templates::reset_sheet;
use crate::templates::root_css;
use crate::templates::root_sheet;

verus! {

/// One step of a plan, to be carried out by the unverified shell. A `Run`
/// is handed to the process runner with the given working directory; its
/// exit status never changes the rest of the plan.
#[derive(Debug, Clone, PartialEq, Eq)]
pub enum Action {
    CreateDir { path: String },
    Run { program: String, args: Vec<String>, dir: String },
    WriteFile { path: String, content: String },
    Print { text: String },
}

/// The mathematical form of an action: every path, program and text as a
/// character sequence.
#[verifier::ext_equal]
pub ghost enum SpecAction {
    CreateDir { path: Seq<char> },
    Run { program: Seq<char>, args: Seq<Seq<char>>, dir: Seq<char> },
    WriteFile { path: Seq<char>, content: Seq<char> },
    Print { text: Seq<char> },
}

impl View for Action {
    type V = SpecAction;

    open spec fn view(&self) -> SpecAction {
        match self {
            Action::CreateDir { path } => SpecAction::CreateDir { path: path@ },
            Action::Run { program, args, dir } => SpecAction::Run {
                program: program@,
                args: args@.map_values(|s: String| s@),
                dir: dir@,
            },
            Action::WriteFile { path, content } => SpecAction::WriteFile {
                path: path@,
                content: content@,
            },
            Action::Print { text } => SpecAction::Print { text: text@ },
        }
    }
}

/// The view of a whole plan.
pub open spec fn plan_view(p: Seq<Action>) -> Seq<SpecAction> {
    p.map_values(|a: Action| a@)
}

/// `dir`, a separator, and a file name made of a stem and a suffix.
pub open spec fn path_in(dir: Seq<char>, stem: Seq<char>, suffix: Seq<char>) -> Seq<char> {
    dir + "/"@ + stem + suffix
}

fn join_path(dir: &str, stem: &str, suffix: &str) -> (r: String)
    ensures
        r@ == path_in(dir@, stem@, suffix@),
{
    let mut r = String::from_str(dir);
    r.append("/");
    r.append(stem);
    r.append(suffix);
    proof {
        assert(r@ =~= path_in(dir@, stem@, suffix@));
    }
    r
}

/// The plan that adds a backend-language unit `name` to `dir`: write the
/// source and test modules, then run the toolchain formatter there.
pub open spec fn create_go_plan(name: Seq<char>, dir: Seq<char>) -> Seq<SpecAction> {
    seq![
        SpecAction::WriteFile { path: path_in(dir, name, ".go"@), content: go_source_text(name) },
        SpecAction::WriteFile {
            path: path_in(dir, name, "_test.go"@),
            content: go_test_text(name),
        },
        SpecAction::Run { program: "go"@, args: seq!["fmt"@], dir: dir },
    ]
}

/// Renders the plan that adds a backend-language unit to a directory.
pub fn create_go_file(file_name: &str, current_dir: &str) -> (r: Vec<Action>)
    ensures
        plan_view(r@) == create_go_plan(file_name@, current_dir@),
{
    let mut r: Vec<Action> = Vec::new();
    r.push(
        Action::WriteFile {
            path: join_path(current_dir, file_name, ".go"),
            content: render_go_source(file_name),
        },
    );
    r.push(
        Action::WriteFile {
            path: join_path(current_dir, file_name, "_test.go"),
            content: render_go_test(file_name),
        },
    );
    let mut args: Vec<String> = Vec::new();
    args.push(String::from_str("fmt"));
    r.push(
        Action::Run {
            program: String::from_str("go"),
            args,
            dir: String::from_str(current_dir),
        },
    );
    proof {
        assert(plan_view(r@) =~~= create_go_plan(file_name@, current_dir@));
    }
    r
}

/// The plan that initializes a backend-language project `name`: create the
/// directory, initialize the module there, fetch the two fixed
/// dependencies, then add a `main` unit inside it.
pub open spec fn new_go_plan(name: Seq<char>) -> Seq<SpecAction> {
    seq![
        SpecAction::CreateDir { path: name },
        SpecAction::Run { program: "go"@, args: seq!["mod"@, "init"@, name], dir: name },
        SpecAction::Run {
            program: "go"@,
            args: seq!["get"@, "github.com/charmbracelet/log"@],
            dir: name,
        },
        SpecAction::Run {
            program: "go"@,
            args: seq!["get"@, "github.com/stretchr/testify"@],
            dir: name,
        },
    ] + create_go_plan("main"@, name)
}

/// Renders the plan that initializes a backend-language project.
pub fn new_go_project(project_name: &str) -> (r: Vec<Action>)
    ensures
        plan_view(r@) == new_go_plan(project_name@),
{
    let mut r: Vec<Action> = Vec::new();
    r.push(Action::CreateDir { path: String::from_str(project_name) });

    let mut init_args: Vec<String> = Vec::new();
    init_args.push(String::from_str("mod"));
    init_args.push(String::from_str("init"));
    init_args.push(String::from_str(project_name));
    r.push(
        Action::Run {
            program: String::from_str("go"),
            args: init_args,
            dir: String::from_str(project_name),
        },
    );

    let mut log_args: Vec<String> = Vec::new();
    log_args.push(String::from_str("get"));
    log_args.push(String::from_str("github.com/charmbracelet/log"));
    r.push(
        Action::Run {
            program: String::from_str("go"),
            args: log_args,
            dir: String::from_str(project_name),
        },
    );

    let mut testify_args: Vec<String> = Vec::new();
    testify_args.push(String::from_str("get"));
    testify_args.push(String::from_str("github.com/stretchr/testify"));
    r.push(
        Action::Run {
            program: String::from_str("go"),
            args: testify_args,
            dir: String::from_str(project_name),
        },
    );

    let mut tail = create_go_file("main", project_name);
    r.append(&mut tail);
    proof {
        assert(plan_view(r@) =~~= new_go_plan(project_name@));
    }
    r
}

/// The plan that adds a web-component unit `name`: create a directory of
/// that name, then write the stylesheet and element modules into it.
pub open spec fn create_lit_plan(name: Seq<char>) -> Seq<SpecAction> {
    seq![
        SpecAction::CreateDir { path: name },
        SpecAction::WriteFile { path: path_in(name, name, "-css.ts"@), content: lit_css_text() },
        SpecAction::WriteFile {
            path: path_in(name, name, "-element.ts"@),
            content: lit_element_text(name),
        },
    ]
}

/// Renders the plan that adds a web-component unit.
pub fn create_lit_files(component_name: &str) -> (r: Vec<Action>)
    ensures
        plan_view(r@) == create_lit_plan(component_name@),
{
    let mut r: Vec<Action> = Vec::new();
    r.push(Action::CreateDir { path: String::from_str(component_name) });
    r.push(
        Action::WriteFile {
            path: join_path(component_name, component_name, "-css.ts"),
            content: render_lit_css(),
        },
    );
    r.push(
        Action::WriteFile {
            path: join_path(component_name, component_name, "-element.ts"),
            content: render_lit_element(component_name),
        },
    );
    proof {
        assert(plan_view(r@) =~~= create_lit_plan(component_name@));
    }
    r
}

/// The plan that initializes a web-component project `name`: create the
/// directory and clone the fixed template repository into it.
pub open spec fn new_lit_plan(name: Seq<char>) -> Seq<SpecAction> {
    seq![
        SpecAction::CreateDir { path: name },
        SpecAction::Run {
            program: "git"@,
            args: seq!["clone"@, "https://github.com/serranoio/lit.git"@, "."@],
            dir: name,
        },
    ]
}

/// Renders the plan that initializes a web-component project.
pub fn new_lit_project(project_name: &str) -> (r: Vec<Action>)
    ensures
        plan_view(r@) == new_lit_plan(project_name@),
{
    let mut r: Vec<Action> = Vec::new();
    r.push(Action::CreateDir { path: String::from_str(project_name) });
    let mut clone_args: Vec<String> = Vec::new();
    clone_args.push(String::from_str("clone"));
    clone_args.push(String::from_str("https://github.com/serranoio/lit.git"));
    clone_args.push(String::from_str("."));
    r.push(
        Action::Run {
            program: String::from_str("git"),
            args: clone_args,
            dir: String::from_str(project_name),
        },
    );
    proof {
        assert(plan_view(r@) =~~= new_lit_plan(project_name@));
    }
    r
}

/// The plan that adds a component-framework unit: create a directory named
/// by the identifier form of `name`, then write the component source and an
/// empty stylesheet into it.
pub open spec fn create_react_plan(name: Seq<char>) -> Seq<SpecAction> {
    seq![
        SpecAction::CreateDir { path: title_of(name) },
        SpecAction::WriteFile {
            path: path_in(title_of(name), title_of(name), ".tsx"@),
            content: react_component_text(title_of(name)),
        },
        SpecAction::WriteFile {
            path: path_in(title_of(name), title_of(name), ".css"@),
            content: Seq::<char>::empty(),
        },
    ]
}

/// Renders the plan that adds a component-framework unit.
pub fn create_react_files(component_name: &str) -> (r: Vec<Action>)
    ensures
        plan_view(r@) == create_react_plan(component_name@),
{
    let title = to_title_case(component_name);
    let mut r: Vec<Action> = Vec::new();
    r.push(Action::CreateDir { path: title.clone() });
    r.push(
        Action::WriteFile {
            path: join_path(title.as_str(), title.as_str(), ".tsx"),
            content: render_react_component(title.as_str()),
        },
    );
    r.push(
        Action::WriteFile {
            path: join_path(title.as_str(), title.as_str(), ".css"),
            content: String::new(),
        },
    );
    proof {
        assert(plan_view(r@) =~~= create_react_plan(component_name@));
    }
    r
}

/// The plan that initializes a component-framework project `name`: create
/// the directory, clone the fixed template repository into it, then run the
/// package-manager install step.
pub open spec fn new_react_plan(name: Seq<char>) -> Seq<SpecAction> {
    seq![
        SpecAction::CreateDir { path: name },
        SpecAction::Print { text: "Cloning...\n"@ },
        SpecAction::Run {
            program: "git"@,
            args: seq!["clone"@, "https://github.com/serranoio/react.git"@, "."@],
            dir: name,
        },
        SpecAction::Print { text: "installing dep...\n"@ },
        SpecAction::Run { program: "npm"@, args: seq!["i"@], dir: name },
    ]
}

/// Renders the plan that initializes a component-framework project.
pub fn new_react_project(project_name: &str) -> (r: Vec<Action>)
    ensures
        plan_view(r@) == new_react_plan(project_name@),
{
    let mut r: Vec<Action> = Vec::new();
    r.push(Action::CreateDir { path: String::from_str(project_name) });
    r.push(Action::Print { text: String::from_str("Cloning...\n") });
    let mut clone_args: Vec<String> = Vec::new();
    clone_args.push(String::from_str("clone"));
    clone_args.push(String::from_str("https://github.com/serranoio/react.git"));
    clone_args.push(String::from_str("."));
    r.push(
        Action::Run {
            program: String::from_str("git"),
            args: clone_args,
            dir: String::from_str(project_name),
        },
    );
    r.push(Action::Print { text: String::from_str("installing dep...\n") });
    let mut install_args: Vec<String> = Vec::new();
    install_args.push(String::from_str("i"));
    r.push(
        Action::Run {
            program: String::from_str("npm"),
            args: install_args,
            dir: String::from_str(project_name),
        },
    );
    proof {
        assert(plan_view(r@) =~~= new_react_plan(project_name@));
    }
    r
}

/// The plan of a whole invocation. `create` with the backend variant adds
/// the unit to the current working directory, written `.`.
pub open spec fn invocation_plan(cmd: Subcommands) -> Seq<SpecAction> {
    match cmd {
        Subcommands::New(s) => match s.available_scaffolds {
            AvailableScaffolds::React => new_react_plan(resolved(opt_name_view(s.name), "react"@)),
            AvailableScaffolds::Lit => new_lit_plan(resolved(opt_name_view(s.name), "new"@)),
            AvailableScaffolds::Go => new_go_plan(resolved(opt_name_view(s.name), "new"@)),
        },
        Subcommands::Create(s) => match s.available_scaffolds {
            AvailableScaffolds::React => create_react_plan(
                resolved(opt_name_view(s.name), "Default.tsx"@),
            ),
            AvailableScaffolds::Lit => create_lit_plan(
                resolved(opt_name_view(s.name), "default.ts"@),
            ),
            AvailableScaffolds::Go => create_go_plan(resolved(opt_name_view(s.name), "util"@), "."@),
        },
        Subcommands::Pattern(p) => match p.available_patterns {
            AvailablePatterns::Css(o) => match o.css_variants {
                CssVariants::Root => seq![SpecAction::Print { text: root_sheet() }],
                CssVariants::Global => seq![SpecAction::Print { text: reset_sheet() }],
            },
        },
    }
}

/// Turns one invocation into the exact plan that the shell carries out.
pub fn plan_invocation(cmd: Subcommands) -> (r: Vec<Action>)
    ensures
        plan_view(r@) == invocation_plan(cmd),
{
    match cmd {
        Subcommands::New(s) => {
            let crate::cli::Scaffolds { name, available_scaffolds } = s;
            match available_scaffolds {
                AvailableScaffolds::React => {
                    let n = get_name(name, "react");
                    new_react_project(n.as_str())
                },
                AvailableScaffolds::Lit => {
                    let n = get_name(name, "new");
                    new_lit_project(n.as_str())
                },
                AvailableScaffolds::Go => {
                    let n = get_name(name, "new");
                    new_go_project(n.as_str())
                },
            }
        },
        Subcommands::Create(s) => {
            let crate::cli::Scaffolds { name, available_scaffolds } = s;
            match available_scaffolds {
                AvailableScaffolds::React => {
                    let n = get_name(name, "Default.tsx");
                    create_react_files(n.as_str())
                },
                AvailableScaffolds::Lit => {
                    let n = get_name(name, "default.ts");
                    create_lit_files(n.as_str())
                },
                AvailableScaffolds::Go => {
                    let n = get_name(name, "util");
                    create_go_file(n.as_str(), ".")
                },
            }
        },
        Subcommands::Pattern(p) => {
            let crate::cli::PatternScaffolds { name: _, available_patterns } = p;
            match available_patterns {
                AvailablePatterns::Css(o) => match o.css_variants {
                    CssVariants::Root => {
                        let mut r: Vec<Action> = Vec::new();
                        r.push(Action::Print { text: root_css() });
                        proof {
                            assert(plan_view(r@) =~~= invocation_plan(cmd));
                        }
                        r
                    },
                    CssVariants::Global => {
                        let mut r: Vec<Action> = Vec::new();
                        r.push(Action::Print { text: global_reset_css() });
                        proof {
                            assert(plan_view(r@) =~~= invocation_plan(cmd));
                        }
                        r
                    },
                },
            }
        },
    }
}

/// Planning is deterministic: two invocations with the same selection and
/// name yield the same plan.
pub proof fn lemma_plan_deterministic(cmd1: Subcommands, cmd2: Subcommands)
    requires
        cmd1 == cmd2,
    ensures
        invocation_plan(cmd1) == invocation_plan(cmd2),
{
}

} // verus!
