use tohum::render::{
    holds_tag_start, marker_path, render_file, render_text, settle_render, walk_failure_report,
    wants_render, write_failure_report, FileOutcome, RenderFailure, TEMPLATE_NAME,
};
use tohum::io::FileHead;
use tohum::seed::{SeedAuthor, SeedTemplateVariable};
use tohum::variables::{
    bind_arguments, bind_reserved, parse_assignment, resolve_variables, VariableError,
};

fn var_schema(default: Option<serde_json::Value>, required: bool) -> SeedTemplateVariable {
    SeedTemplateVariable {
        var_type: "string".to_string(),
        default,
        description: "d".to_string(),
        required,
    }
}

fn var_text(value: &str) -> serde_json::Value {
    serde_json::Value::String(value.to_string())
}

fn var_args(args: &[&str]) -> Vec<String> {
    args.iter().map(|a| a.to_string()).collect()
}

fn var_engine(template: &str, bindings: &tera::Context) -> Result<String, RenderFailure> {
    let mut engine = tera::Tera::default();
    let answer = match engine.add_raw_template(TEMPLATE_NAME, template) {
        Ok(()) => engine.render(TEMPLATE_NAME, bindings),
        Err(error) => Err(error),
    };
    answer.map_err(|error| RenderFailure {
        message: error.to_string(),
        causes: std::iter::successors(std::error::Error::source(&error), |cause| cause.source())
            .map(|cause| cause.to_string())
            .collect(),
    })
}

fn var_render_file(path: &str, text: &str, bindings: &tera::Context) -> FileOutcome {
    let head = FileHead::Bytes(text.as_bytes().to_vec());
    match render_file(path, true, &head, Ok(text.to_string()), bindings) {
        FileOutcome::Engine { template } => settle_render(path, var_engine(&template, bindings)),
        settled => settled,
    }
}

#[test]
fn assignment_splits_at_first_equals() {
    assert_eq!(parse_assignment("title=World").unwrap(), ("title".to_string(), "World".to_string()));
    assert_eq!(parse_assignment("a=b=c").unwrap(), ("a".to_string(), "b=c".to_string()));
    assert_eq!(parse_assignment("=v").unwrap(), (String::new(), "v".to_string()));
    assert_eq!(parse_assignment("k=").unwrap(), ("k".to_string(), String::new()));
    assert_eq!(parse_assignment("=").unwrap(), (String::new(), String::new()));
    assert_eq!(parse_assignment("é=ü").unwrap(), ("é".to_string(), "ü".to_string()));
}

#[test]
fn assignment_without_equals_is_a_format_error() {
    match parse_assignment("title") {
        Err(error) => {
            assert!(matches!(&error, VariableError::Format { argument } if argument == "title"));
            assert_eq!(error.message(), "Invalid variable format: title. Use 'key=value'");
        }
        Ok(pair) => panic!("unexpected pair: {:?}", pair),
    }
    assert!(parse_assignment("").is_err());
}

#[test]
fn arguments_are_bound_in_order() {
    let mut bindings = tera::Context::new();
    bind_arguments(&mut bindings, &var_args(&["a=1", "b=2", "a=3"])).unwrap();
    assert_eq!(bindings.get("a"), Some(&var_text("3")));
    assert_eq!(bindings.get("b"), Some(&var_text("2")));
    assert!(!bindings.contains_key("c"));
}

#[test]
fn malformed_argument_stops_the_binding() {
    let mut bindings = tera::Context::new();
    let outcome = bind_arguments(&mut bindings, &var_args(&["a=1", "oops", "b=2", "worse"]));
    assert!(matches!(outcome, Err(VariableError::Format { argument }) if argument == "oops"));
    assert_eq!(bindings.get("a"), Some(&var_text("1")));
    assert!(!bindings.contains_key("b"));
}

#[test]
fn missing_required_variable_is_named() {
    let schema = Some(vec![
        ("color".to_string(), var_schema(Some(var_text("red")), false)),
        ("title".to_string(), var_schema(None, true)),
        ("other".to_string(), var_schema(None, true)),
    ]);
    let mut bindings = tera::Context::new();
    match resolve_variables(&mut bindings, &schema) {
        Err(error) => {
            assert!(matches!(&error, VariableError::MissingRequired { name } if name == "title"));
            assert_eq!(error.message(), "Template variable title is required but not a value given");
        }
        Ok(()) => panic!("resolution must fail"),
    }
}

#[test]
fn supplied_required_variable_resolves() {
    let schema = Some(vec![("title".to_string(), var_schema(None, true))]);
    let mut bindings = tera::Context::new();
    bind_arguments(&mut bindings, &var_args(&["title=World"])).unwrap();
    assert!(resolve_variables(&mut bindings, &schema).is_ok());
    assert_eq!(bindings.get("title"), Some(&var_text("World")));
}

#[test]
fn omitted_variable_takes_its_default() {
    let schema = Some(vec![
        ("title".to_string(), var_schema(Some(var_text("Untitled")), false)),
        ("port".to_string(), var_schema(Some(serde_json::Value::from(8080)), true)),
        ("loose".to_string(), var_schema(None, false)),
    ]);
    let mut bindings = tera::Context::new();
    assert!(resolve_variables(&mut bindings, &schema).is_ok());
    assert_eq!(bindings.get("title"), Some(&var_text("Untitled")));
    assert_eq!(bindings.get("port"), Some(&serde_json::Value::from(8080)));
    assert!(!bindings.contains_key("loose"));
    assert_eq!(var_engine("{{ title }}:{{ port }}", &bindings).unwrap(), "Untitled:8080");
}

#[test]
fn supplied_value_beats_default() {
    let schema = Some(vec![("title".to_string(), var_schema(Some(var_text("Untitled")), true))]);
    let mut bindings = tera::Context::new();
    bind_arguments(&mut bindings, &var_args(&["title=Mine"])).unwrap();
    assert!(resolve_variables(&mut bindings, &schema).is_ok());
    assert_eq!(bindings.get("title"), Some(&var_text("Mine")));
}

#[test]
fn seed_without_variables_asks_nothing() {
    let mut bindings = tera::Context::new();
    assert!(resolve_variables(&mut bindings, &None).is_ok());
    assert_eq!(bindings, tera::Context::new());
    assert!(resolve_variables(&mut bindings, &Some(Vec::new())).is_ok());
    assert_eq!(bindings, tera::Context::new());
}

#[test]
fn reserved_names_take_precedence() {
    let authors = vec![
        SeedAuthor { name: "Ada".to_string(), email: Some("ada@example.org".to_string()), website: None },
        SeedAuthor { name: "Bob".to_string(), email: None, website: Some("https://bob.example.org".to_string()) },
    ];
    let mut bindings = tera::Context::new();
    bind_arguments(&mut bindings, &var_args(&["project_name=mine", "authors=me", "title=T"])).unwrap();
    bind_reserved(&mut bindings, "demo", &authors);
    assert_eq!(bindings.get("project_name"), Some(&var_text("demo")));
    assert_eq!(bindings.get("title"), Some(&var_text("T")));
    let rendered = var_engine(
        "{{ project_name }}|{% for a in authors %}{{ a.name }}<{{ a.email }}>({{ a.website }});{% endfor %}",
        &bindings,
    )
    .unwrap();
    assert_eq!(rendered, "demo|Ada<ada@example.org>();Bob<>(https://bob.example.org);");
    assert!(bindings.get("authors").unwrap().as_array().unwrap()[0].get("website").unwrap().is_null());
}

#[test]
fn placeholder_is_rendered_with_its_binding() {
    let mut bindings = tera::Context::new();
    bind_arguments(&mut bindings, &var_args(&["title=World"])).unwrap();
    assert!(matches!(
        var_render_file("index.txt", "Hello {{ title }}", &bindings),
        FileOutcome::Rewrite { content } if content == "Hello World"
    ));
    assert_eq!(render_text("no placeholders", &bindings).unwrap(), "no placeholders");
    assert_eq!(render_text("", &bindings).unwrap(), "");
}

#[test]
fn rendered_placeholders_leave_no_braces() {
    let mut bindings = tera::Context::new();
    bind_arguments(&mut bindings, &var_args(&["a=1", "b=two", "c=3"])).unwrap();
    let rendered = var_engine("{{ a }}{{b}} {{  c  }}\n{{ a }}", &bindings).unwrap();
    assert_eq!(rendered, "1two 3\n1");
    assert!(!rendered.contains("{{"));
    assert!(!rendered.contains("}}"));
}

#[test]
fn unbound_placeholder_fails_with_causes() {
    let bindings = tera::Context::new();
    match var_render_file("index.txt", "Hello {{ title }}", &bindings) {
        FileOutcome::Kept { report } => {
            assert_eq!(report[0], "Could not render index.txt");
            assert!(report.len() >= 2);
        }
        other => panic!("unexpected outcome: {:?}", other),
    }
}

#[test]
fn broken_template_fails_like_a_render() {
    let bindings = tera::Context::new();
    match var_render_file("index.txt", "Hello {{ title", &bindings) {
        FileOutcome::Kept { report } => assert_eq!(report[0], "Could not render index.txt"),
        other => panic!("unexpected outcome: {:?}", other),
    }
}

#[test]
fn settled_render_overwrites_or_keeps() {
    match settle_render("a.txt", Ok("new".to_string())) {
        FileOutcome::Rewrite { content } => assert_eq!(content, "new"),
        other => panic!("unexpected outcome: {:?}", other),
    }
    let failure = RenderFailure {
        message: "Failed to render 'template'".to_string(),
        causes: vec!["Variable `title` not found".to_string(), "deeper".to_string()],
    };
    match settle_render("dir/a.txt", Err(failure)) {
        FileOutcome::Kept { report } => {
            assert_eq!(
                report,
                vec![
                    "Could not render dir/a.txt".to_string(),
                    "  ╰─> Variable `title` not found".to_string(),
                    "  ╰─> deeper".to_string(),
                ]
            );
        }
        other => panic!("unexpected outcome: {:?}", other),
    }
    let bare = RenderFailure { message: "m".to_string(), causes: Vec::new() };
    match settle_render("b", Err(bare)) {
        FileOutcome::Kept { report } => assert_eq!(report, vec!["Could not render b".to_string()]),
        other => panic!("unexpected outcome: {:?}", other),
    }
}

#[test]
fn directories_and_binaries_are_not_rendered() {
    let text = FileHead::Bytes(b"Hello".to_vec());
    let binary = FileHead::Bytes(vec![0, 1, 2]);
    assert!(wants_render(true, &text));
    assert!(!wants_render(false, &text));
    assert!(!wants_render(true, &binary));
    assert!(!wants_render(true, &FileHead::Unopened));
    let bindings = tera::Context::new();
    assert!(matches!(
        render_file("d", false, &text, Ok("{{ x }}".to_string()), &bindings),
        FileOutcome::Skipped
    ));
    assert!(matches!(
        render_file("b.bin", true, &binary, Ok("{{ x }}".to_string()), &bindings),
        FileOutcome::Skipped
    ));
}

#[test]
fn unread_file_is_reported_and_left() {
    let bindings = tera::Context::new();
    let head = FileHead::Bytes(vec![0xff, 0xfe]);
    match render_file("odd.txt", true, &head, Err("stream did not contain valid UTF-8".to_string()), &bindings) {
        FileOutcome::Unread { report } => {
            assert_eq!(report, "Could not read odd.txt: stream did not contain valid UTF-8")
        }
        other => panic!("unexpected outcome: {:?}", other),
    }
}

#[test]
fn one_bad_file_does_not_stop_the_next() {
    let mut bindings = tera::Context::new();
    bind_arguments(&mut bindings, &var_args(&["title=World"])).unwrap();
    let bad = var_render_file("bad.txt", "{{ missing }}", &bindings);
    match bad {
        FileOutcome::Kept { report } => assert_eq!(report[0], "Could not render bad.txt"),
        other => panic!("unexpected outcome: {:?}", other),
    }
    let good = var_render_file("good.txt", "Hello {{ title }}", &bindings);
    assert!(matches!(good, FileOutcome::Rewrite { content } if content == "Hello World"));
}

#[test]
fn reports_of_the_walk_and_of_writing() {
    assert_eq!(write_failure_report("a.txt", "disk full"), "Could not write to a.txt: disk full");
    assert_eq!(walk_failure_report("loop detected"), "Couldn't read the file/directory: loop detected");
    assert_eq!(marker_path("out/demo"), "out/demo/.tohumrc");
}

#[test]
fn text_without_tag_start_renders_to_itself() {
    let mut bindings = tera::Context::new();
    bind_arguments(&mut bindings, &var_args(&["title=World", "x=1"])).unwrap();
    let texts = [
        "",
        "plain text",
        "a { b } c",
        "{",
        "}",
        "}}",
        "%} #} -}}",
        "{ { x } }",
        "{x} {title} {-",
        "100% {\n}\r\n\ttabs and é ü 🌱",
        "trailing brace {",
        "  leading and trailing space  \n",
        "fn main() { println!(\"hi\"); }",
    ];
    for text in texts {
        assert_eq!(render_text(text, &bindings).unwrap(), text);
        assert_eq!(render_text(text, &tera::Context::new()).unwrap(), text);
    }
}

#[test]
fn text_without_tag_start_is_rewritten_unchanged() {
    let bindings = tera::Context::new();
    let head = FileHead::Bytes(b"x".to_vec());
    let outcome = render_file("a.json", true, &head, Ok("{ \"k\": { } }".to_string()), &bindings);
    assert!(matches!(outcome, FileOutcome::Rewrite { content } if content == "{ \"k\": { } }"));
}

#[test]
fn tag_starts_are_told_from_lone_braces() {
    for tagged in ["{{", "a{%b", "x{#", "{ {{", "{{{", "é{{ü", "{%- if x %}", "}{#"] {
        assert!(holds_tag_start(tagged), "{}", tagged);
    }
    for plain in ["", "{", "}", "{ {", "{x{y", "%{", "#{", "a{", "{\n{", "{-{ "] {
        assert!(!holds_tag_start(plain), "{}", plain);
    }
}

#[test]
fn text_with_tags_is_handed_to_the_engine() {
    let bindings = tera::Context::new();
    let head = FileHead::Bytes(b"x".to_vec());
    for text in ["Hello {{ title }}", "{% if a %}x{% endif %}", "{# note #}", "{{ -9223372036854775808 % -1 }}"] {
        let outcome = render_file("f", true, &head, Ok(text.to_string()), &bindings);
        assert!(matches!(outcome, FileOutcome::Engine { template } if template == text));
    }
}
