use scaffoldify::names::get_name;
use scaffoldify::names::to_title_case;
use scaffoldify::templates::global_reset_css;
use scaffoldify::templates::render_go_source;
use scaffoldify::templates::render_go_test;
use scaffoldify::templates::render_lit_css;
use scaffoldify::templates::render_lit_element;
use scaffoldify::templates::render_react_component;
use scaffoldify::templates::root_css;

#[test]
fn resolve_absent_name_takes_default() {
    assert_eq!(get_name(None, "util"), "util");
    assert_eq!(get_name(None, "new"), "new");
}

#[test]
fn resolve_present_name_is_kept() {
    assert_eq!(get_name(Some("mysvc".to_string()), "new"), "mysvc");
    assert_eq!(get_name(Some("x".to_string()), "util"), "x");
}

#[test]
fn resolve_empty_name_takes_default() {
    assert_eq!(get_name(Some(String::new()), "util"), "util");
}

#[test]
fn title_case_of_main_is_capitalized() {
    assert_eq!(to_title_case("main"), "Main");
}

#[test]
fn title_case_of_empty_is_empty() {
    assert_eq!(to_title_case(""), "");
}

#[test]
fn title_case_of_single_letter() {
    assert_eq!(to_title_case("x"), "X");
}

#[test]
fn title_case_touches_only_the_first_character() {
    assert_eq!(to_title_case("widget"), "Widget");
    assert_eq!(to_title_case("Card"), "Card");
    assert_eq!(to_title_case("myComponent"), "MyComponent");
    assert_eq!(to_title_case("9lives"), "9lives");
}

#[test]
fn title_case_leaves_non_ascii_first_character() {
    assert_eq!(to_title_case("über"), "über");
}

#[test]
fn reset_sheet_has_reset_rules_and_no_tokens() {
    let reset = global_reset_css();
    assert!(reset.contains("box-sizing: border-box;"));
    assert!(reset.contains("margin: 0;"));
    assert!(reset.contains("padding: 0;"));
    assert!(reset.contains("font-size: 62.5%;"));
    assert!(!reset.contains("--"));
}

#[test]
fn root_sheet_is_tokens_then_reset() {
    let root = root_css();
    let reset = global_reset_css();
    assert!(root.ends_with(reset.as_str()));
    let head = &root[..root.len() - reset.len()];
    assert!(head.ends_with(' '));
    let tokens = &head[..head.len() - 1];
    assert!(tokens.starts_with(":root {"));
    assert!(tokens.contains("--brandColor: #5cc05c;"));
    assert!(tokens.contains("--zindexModal: 1050;"));
    assert!(tokens.contains("--spacing: 2.0rem;"));
    assert!(!tokens.contains("box-sizing"));
}

#[test]
fn go_source_declares_the_named_function() {
    let source = render_go_source("main");
    assert!(source.starts_with("package main"));
    assert!(source.contains("func main()"));
    assert!(source.contains("clog.Info(\"Hello, main!\")"));
}

#[test]
fn go_test_names_the_test_after_the_identifier_form() {
    let test = render_go_test("main");
    assert!(test.starts_with("package main"));
    assert!(test.contains("func TestMain(t *testing.T)"));
    assert!(test.contains("assert.Equal(t, 123, 123, \"\")"));
}

#[test]
fn lit_css_module_wraps_the_reset_sheet() {
    let module = render_lit_css();
    assert!(module.starts_with("import { css } from \"lit\";"));
    assert!(module.contains(global_reset_css().as_str()));
    assert!(module.ends_with("`;"));
}

#[test]
fn lit_element_module_registers_the_tag_and_class() {
    let module = render_lit_element("widget");
    assert!(module.contains("customElement('widget-element')"));
    assert!(module.contains("export class WidgetElement extends LitElement"));
    assert!(module.contains("import widgetCss from './widget-css'"));
    assert!(module.contains("count: number;"));
}

#[test]
fn react_component_imports_its_stylesheet() {
    let component = render_react_component("Card");
    assert!(component.starts_with("import './Card.css'"));
    assert!(component.contains("function Card()"));
    assert!(component.ends_with("export default Card"));
}

#[test]
fn rendering_twice_gives_identical_text() {
    assert_eq!(render_go_source("svc"), render_go_source("svc"));
    assert_eq!(render_go_test("svc"), render_go_test("svc"));
    assert_eq!(render_lit_css(), render_lit_css());
    assert_eq!(render_lit_element("widget"), render_lit_element("widget"));
    assert_eq!(render_react_component("Card"), render_react_component("Card"));
    assert_eq!(root_css(), root_css());
    assert_eq!(global_reset_css(), global_reset_css());
}
