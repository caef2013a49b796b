use foro::config::codec::{decode_pure_flow, decode_write_flow};
use foro::config::model::{CommandWithControlFlow, PureCommand, WriteCommand};
use foro::flow::{flow_assign, flow_decide, flow_resume, flow_start, FlowError, FlowStep};
use foro::json::Json;
use foro::leaf::{
    finish_pipe, finish_plugin, finish_shell, plan_pure_leaf, plan_write_leaf, program_and_args,
    pure_leaf_template, require_str, split_command, write_after_leaf, write_after_run,
    write_leaf_template, LeafError, PurePlan, SplitStyle, WritePlan,
};

fn s(text: &str) -> Json {
    Json::Str(text.to_string())
}

fn object(members: &[(&str, Json)]) -> Json {
    Json::Object(members.iter().map(|(k, v)| (k.to_string(), v.clone())).collect())
}

fn from_text(text: &str) -> Json {
    Json::from_text(text).unwrap()
}

fn seen(context: &Json) -> serde_json::Value {
    serde_json::from_str(&context.to_text()).unwrap()
}

/// The template engine, asked whether a condition holds.
fn truth(cond: &str, context: &Json) -> Result<bool, String> {
    let env = minijinja::Environment::new();
    let compiled = env.compile_expression(cond).map_err(|e| e.to_string())?;
    let value = compiled.eval(seen(context)).map_err(|e| e.to_string())?;
    Ok(value.is_true())
}

/// The template engine, asked what an expression is worth.
fn worth(expr: &str, context: &Json) -> Result<Json, String> {
    let env = minijinja::Environment::new();
    let compiled = env.compile_expression(expr).map_err(|e| e.to_string())?;
    let value = compiled.eval(seen(context)).map_err(|e| e.to_string())?;
    let text = serde_json::to_string(&value).map_err(|e| e.to_string())?;
    Json::from_text(&text)
}

/// The template engine, asked to render a template.
fn render(template: &str, context: &Json) -> Result<String, String> {
    minijinja::Environment::new()
        .render_str(template, seen(context))
        .map_err(|e| e.to_string())
}

fn pure_tree(text: &str) -> CommandWithControlFlow<PureCommand> {
    decode_pure_flow(&from_text(text)).unwrap()
}

/// Runs a pure tree with plugins that record their URL under `trace`.
fn run(tree: &CommandWithControlFlow<PureCommand>, context: Json) -> Result<Json, FlowError> {
    let mut step = flow_start(tree, context);
    loop {
        match step {
            FlowStep::Done(outcome) => return outcome,
            FlowStep::Leaf { leaf, context, pending } => {
                let outcome = match leaf {
                    PureCommand::PluginUrl(url) => {
                        if url.contains("fail") {
                            Err(FlowError::Leaf(url.clone()))
                        } else {
                            let seen = context.get_str("trace").unwrap_or_default();
                            Ok(context
                                .set("trace".to_string(), s(&format!("{seen}{url};")))
                                .unwrap())
                        }
                    }
                    PureCommand::CommandIO { io } => Err(FlowError::Leaf(io.clone())),
                };
                step = flow_resume(pending, outcome);
            }
            FlowStep::Condition(pending) => {
                let answer = truth(pending.cond, &pending.context);
                step = flow_decide(pending, answer);
            }
            FlowStep::Expression(pending) => {
                let answer = worth(pending.expr, &pending.context);
                step = flow_assign(pending, answer);
            }
        }
    }
}

fn assign_all(set: &[(String, String)], context: Json) -> Result<Json, FlowError> {
    let tree: CommandWithControlFlow<PureCommand> =
        CommandWithControlFlow::Assign { set: set.to_vec() };
    run(&tree, context)
}

fn eval_condition(cond: &str, context: &Json) -> Result<bool, FlowError> {
    let tree: CommandWithControlFlow<PureCommand> = CommandWithControlFlow::If {
        run: Box::new(CommandWithControlFlow::Sequential(vec![])),
        cond: cond.to_string(),
        on_true: Box::new(CommandWithControlFlow::Assign {
            set: vec![("chosen".to_string(), "'true'".to_string())],
        }),
        on_false: Box::new(CommandWithControlFlow::Assign {
            set: vec![("chosen".to_string(), "'false'".to_string())],
        }),
    };
    run(&tree, context.clone()).map(|result| result.get_str("chosen").as_deref() == Some("true"))
}

fn plan_pure(leaf: &PureCommand, context: &Json) -> Result<PurePlan, LeafError> {
    let rendered = pure_leaf_template(leaf).map(|template| render(template, context));
    plan_pure_leaf(leaf, context, SplitStyle::Posix, rendered)
}

fn plan_write(leaf: &WriteCommand, context: &Json) -> Result<WritePlan, LeafError> {
    let rendered = write_leaf_template(leaf).map(|template| render(template, context));
    plan_write_leaf(leaf, context, SplitStyle::Posix, rendered)
}

#[test]
fn sequence_runs_its_children_left_to_right() {
    let tree = pure_tree(r#"["https://a/", "https://b/", "https://c/"]"#);
    let result = run(&tree, object(&[])).unwrap();
    assert_eq!(
        result.get_str("trace"),
        Some("https://a/;https://b/;https://c/;".to_string())
    );
}

#[test]
fn empty_sequence_returns_the_context() {
    let tree = pure_tree("[]");
    let result = run(&tree, object(&[("k", s("v"))])).unwrap();
    assert_eq!(result.get_str("k"), Some("v".to_string()));
}

#[test]
fn branch_takes_the_side_that_the_condition_selects() {
    let tree = pure_tree(
        r#"{"run": {"set": {"lang": "'rust'"}},
            "cond": "lang == 'rust'",
            "on_true": "https://true/",
            "on_false": "https://false/"}"#,
    );
    let result = run(&tree, object(&[])).unwrap();
    assert_eq!(result.get_str("trace"), Some("https://true/;".to_string()));
    assert_eq!(result.get_str("lang"), Some("rust".to_string()));

    let tree = pure_tree(
        r#"{"run": [], "cond": "missing", "on_true": "https://true/", "on_false": "https://false/"}"#,
    );
    let result = run(&tree, object(&[])).unwrap();
    assert_eq!(result.get_str("trace"), Some("https://false/;".to_string()));
}

#[test]
fn condition_sees_what_run_produced() {
    let tree = pure_tree(
        r#"{"run": "https://first/",
            "cond": "trace == 'https://first/;'",
            "on_true": ["https://then/", "https://more/"],
            "on_false": "https://else/"}"#,
    );
    let result = run(&tree, object(&[])).unwrap();
    assert_eq!(
        result.get_str("trace"),
        Some("https://first/;https://then/;https://more/;".to_string())
    );
}

#[test]
fn first_failure_ends_the_evaluation() {
    let tree = pure_tree(r#"["https://a/", "https://fail/", "https://c/"]"#);
    match run(&tree, object(&[])) {
        Err(FlowError::Leaf(message)) => assert_eq!(message, "https://fail/"),
        _ => panic!("Expected the leaf's failure"),
    }
    let tree = pure_tree(
        r#"[{"run": "https://fail/", "cond": "true", "on_true": "https://a/", "on_false": "https://b/"}]"#,
    );
    assert!(matches!(run(&tree, object(&[])), Err(FlowError::Leaf(_))));
}

#[test]
fn bad_condition_is_a_template_failure() {
    let tree = pure_tree(
        r#"{"run": [], "cond": "((", "on_true": "https://a/", "on_false": "https://b/"}"#,
    );
    assert!(matches!(run(&tree, object(&[])), Err(FlowError::Template(_))));
}

#[test]
fn evaluation_is_repeatable() {
    let tree = pure_tree(
        r#"["https://a/", {"run": {"set": {"n": "1 + 2"}}, "cond": "n == 3",
            "on_true": "https://b/", "on_false": "https://c/"}]"#,
    );
    let first = run(&tree, object(&[("x", s("y"))])).unwrap();
    let second = run(&tree, object(&[("x", s("y"))])).unwrap();
    assert_eq!(first.to_text(), second.to_text());
    assert_eq!(
        first.to_text(),
        r#"{"n":3,"trace":"https://a/;https://b/;","x":"y"}"#
    );
}

#[test]
fn assignments_are_made_in_order_on_the_growing_context() {
    let set = vec![
        ("a".to_string(), "'x'".to_string()),
        ("b".to_string(), "a ~ 'y'".to_string()),
        ("a".to_string(), "b ~ 'z'".to_string()),
    ];
    let result = assign_all(&set, Json::Null).unwrap();
    match &result {
        Json::Object(members) => {
            assert_eq!(members.iter().map(|m| m.0.as_str()).collect::<Vec<_>>(), vec!["a", "b"])
        }
        _ => panic!("Expected an object"),
    }
    assert_eq!(result.to_text(), r#"{"a":"xyz","b":"xy"}"#);
    assert!(matches!(
        assign_all(&set, Json::Bool(true)),
        Err(FlowError::NotAnObject)
    ));
    assert!(matches!(
        assign_all(&vec![("a".to_string(), "1 +".to_string())], object(&[])),
        Err(FlowError::Template(_))
    ));
    assert_eq!(assign_all(&vec![], Json::Bool(true)).unwrap().to_text(), "true");
}

#[test]
fn conditions_follow_the_template_engine() {
    let context = object(&[("n", Json::Number("0".to_string())), ("t", s("text")), ("e", s(""))]);
    assert!(!eval_condition("n", &context).unwrap());
    assert!(eval_condition("t", &context).unwrap());
    assert!(!eval_condition("e", &context).unwrap());
    assert!(!eval_condition("false", &context).unwrap());
    assert!(eval_condition("n == 0", &context).unwrap());
    assert!(eval_condition("1", &Json::Null).unwrap());
}

#[test]
fn a_branch_goes_where_the_answer_sends_it() {
    let tree = pure_tree(
        r#"{"run": [], "cond": "''[::-1]", "on_true": "https://true/", "on_false": "https://false/"}"#,
    );
    let chosen = |answer: Result<bool, String>| match flow_start(&tree, object(&[])) {
        FlowStep::Condition(pending) => {
            assert_eq!(pending.cond, "''[::-1]");
            assert_eq!(pending.context.to_text(), "{}");
            flow_decide(pending, answer)
        }
        _ => panic!("Expected a condition"),
    };
    match chosen(Ok(true)) {
        FlowStep::Leaf { leaf: PureCommand::PluginUrl(url), .. } => assert_eq!(url, "https://true/"),
        _ => panic!("Expected the true side"),
    }
    match chosen(Ok(false)) {
        FlowStep::Leaf { leaf: PureCommand::PluginUrl(url), .. } => assert_eq!(url, "https://false/"),
        _ => panic!("Expected the false side"),
    }
    match chosen(Err("the engine gave up".to_string())) {
        FlowStep::Done(Err(FlowError::Template(message))) => assert_eq!(message, "the engine gave up"),
        _ => panic!("Expected a template failure"),
    }
}

#[test]
fn an_assignment_binds_the_value_it_is_given() {
    let tree: CommandWithControlFlow<PureCommand> = CommandWithControlFlow::Assign {
        set: vec![("a".to_string(), "first".to_string()), ("b".to_string(), "second".to_string())],
    };
    let first = match flow_start(&tree, object(&[("k", s("v"))])) {
        FlowStep::Expression(pending) => {
            assert_eq!((pending.key.as_str(), pending.expr.as_str()), ("a", "first"));
            flow_assign(pending, Ok(Json::Bool(true)))
        }
        _ => panic!("Expected an expression"),
    };
    let second = match first {
        FlowStep::Expression(pending) => {
            assert_eq!((pending.key.as_str(), pending.expr.as_str()), ("b", "second"));
            assert_eq!(pending.context.to_text(), r#"{"a":true,"k":"v"}"#);
            flow_assign(pending, Ok(s("x")))
        }
        _ => panic!("Expected the second expression"),
    };
    match second {
        FlowStep::Done(Ok(result)) => assert_eq!(result.to_text(), r#"{"a":true,"b":"x","k":"v"}"#),
        _ => panic!("Expected the end"),
    }
    match flow_start(&tree, Json::Bool(false)) {
        FlowStep::Expression(pending) => assert!(matches!(
            flow_assign(pending, Ok(Json::Null)),
            FlowStep::Done(Err(FlowError::NotAnObject))
        )),
        _ => panic!("Expected an expression"),
    }
    match flow_start(&tree, object(&[])) {
        FlowStep::Expression(pending) => assert!(matches!(
            flow_assign(pending, Err("no value".to_string())),
            FlowStep::Done(Err(FlowError::Template(_)))
        )),
        _ => panic!("Expected an expression"),
    }
}

#[test]
fn command_lines_are_split_in_the_style_asked_for() {
    let line = r#"fmt "a b" 'c d' e\ f"#;
    assert_eq!(
        split_command(SplitStyle::Posix, Some(Ok(line.to_string()))).unwrap(),
        vec!["fmt", "a b", "c d", "e f"]
    );
    assert_eq!(
        split_command(SplitStyle::Windows, Some(Ok(line.to_string()))).unwrap(),
        vec!["fmt", "a b", "'c", "d'", "e\\", "f"]
    );
    assert_eq!(
        split_command(SplitStyle::Windows, Some(Ok("fmt \"open".to_string()))).unwrap(),
        vec!["fmt", "open"]
    );
    match split_command(SplitStyle::Posix, Some(Ok("fmt \"open".to_string()))) {
        Err(LeafError::Split(message)) => assert_eq!(message, "missing closing quote"),
        _ => panic!("Expected the splitter's failure"),
    }
    match split_command(SplitStyle::Posix, Some(Err("bad template".to_string()))) {
        Err(LeafError::Template(message)) => assert_eq!(message, "bad template"),
        _ => panic!("Expected a template failure"),
    }
    match split_command(SplitStyle::Windows, None) {
        Err(LeafError::Template(message)) => assert_eq!(message, "The command was not rendered"),
        _ => panic!("Expected a template failure"),
    }
    assert!(split_command(SplitStyle::Posix, Some(Ok("  ".to_string()))).unwrap().is_empty());
}

#[test]
fn the_first_word_is_the_program() {
    let words = vec!["fmt".to_string(), "-w".to_string(), "a b".to_string()];
    let (program, args) = program_and_args(words).unwrap();
    assert_eq!(program, "fmt");
    assert_eq!(args, vec!["-w", "a b"]);
    let (program, args) = program_and_args(vec!["fmt".to_string()]).unwrap();
    assert_eq!((program.as_str(), args.len()), ("fmt", 0));
    assert!(matches!(program_and_args(vec![]), Err(LeafError::EmptyCommand)));
}

#[test]
fn only_command_lines_name_a_template() {
    assert_eq!(pure_leaf_template(&PureCommand::PluginUrl("https://p/".to_string())), None);
    assert_eq!(
        pure_leaf_template(&PureCommand::CommandIO { io: "cat {{ a }}".to_string() }),
        Some(&"cat {{ a }}".to_string())
    );
    assert_eq!(
        write_leaf_template(&WriteCommand::SimpleCommand("fmt".to_string())),
        Some(&"fmt".to_string())
    );
    assert_eq!(
        write_leaf_template(&WriteCommand::Pure(PureCommand::CommandIO { io: "cat".to_string() })),
        Some(&"cat".to_string())
    );
    assert_eq!(
        write_leaf_template(&WriteCommand::Pure(PureCommand::PluginUrl("https://p/".to_string()))),
        None
    );
    let leaf = PureCommand::CommandIO { io: "cat".to_string() };
    assert!(matches!(
        plan_pure_leaf(&leaf, &context(), SplitStyle::Posix, None),
        Err(LeafError::Template(_))
    ));
}

#[test]
fn plugin_leaf_asks_for_its_plugin() {
    let leaf = PureCommand::PluginUrl("https://example.com/p.dllpack".to_string());
    match plan_pure(&leaf, &Json::Null).unwrap() {
        PurePlan::Plugin { url } => assert_eq!(url, "https://example.com/p.dllpack"),
        _ => panic!("Expected a plugin"),
    }
}

fn context() -> Json {
    object(&[
        ("file", s("/w/my file.py")),
        ("os-target", s("/w/my file.py")),
        ("target-content", s("print( 1 )")),
        ("current-dir", s("/w")),
    ])
}

#[test]
fn filter_leaf_renders_and_splits_its_command() {
    let leaf = PureCommand::CommandIO {
        io: "ruff format --stdin-filename '{{ file }}' -".to_string(),
    };
    match plan_pure(&leaf, &context()).unwrap() {
        PurePlan::Pipe(spawn) => {
            assert_eq!(spawn.program, "ruff");
            assert_eq!(spawn.args, vec!["format", "--stdin-filename", "/w/my file.py", "-"]);
            assert_eq!(spawn.current_dir, "/w");
            assert_eq!(spawn.stdin.as_deref(), Some("print( 1 )"));
        }
        _ => panic!("Expected a filter"),
    }
}

#[test]
fn filter_leaf_failures() {
    let plan = |io: &str, context: &Json| {
        plan_pure(&PureCommand::CommandIO { io: io.to_string() }, context)
    };
    assert!(matches!(plan("{{", &context()), Err(LeafError::Template(_))));
    assert!(matches!(plan("echo 'open", &context()), Err(LeafError::Split(_))));
    assert!(matches!(plan("   ", &context()), Err(LeafError::EmptyCommand)));
    assert!(matches!(plan("", &context()), Err(LeafError::EmptyCommand)));
    match plan("cat", &object(&[("target-content", s("x")), ("current-dir", s("/"))])) {
        Err(LeafError::MissingKey(key)) => assert_eq!(key, "os-target"),
        _ => panic!("Expected a missing key"),
    }
    match plan("cat", &object(&[("os-target", s("x")), ("current-dir", s("/"))])) {
        Err(LeafError::MissingKey(key)) => assert_eq!(key, "target-content"),
        _ => panic!("Expected a missing key"),
    }
    match plan("cat", &object(&[("os-target", s("x")), ("target-content", s("/"))])) {
        Err(LeafError::MissingKey(key)) => assert_eq!(key, "current-dir"),
        _ => panic!("Expected a missing key"),
    }
}

#[test]
fn render_command_differs_from_its_template() {
    let rendered = render("fmt {{ a }} \"b c\"", &object(&[("a", s("x"))]));
    assert_eq!(
        split_command(SplitStyle::Posix, Some(rendered)).unwrap(),
        vec!["fmt", "x", "b c"]
    );
    assert!(matches!(require_str(&Json::Null, "k"), Err(LeafError::MissingKey(_))));
    assert_eq!(
        require_str(&object(&[("k", Json::Bool(true))]), "k").unwrap_err().to_owned_key(),
        "k"
    );
}

trait KeyOf {
    fn to_owned_key(&self) -> String;
}

impl KeyOf for LeafError {
    fn to_owned_key(&self) -> String {
        match self {
            LeafError::MissingKey(key) => key.clone(),
            _ => String::new(),
        }
    }
}

#[test]
fn plugin_output_is_merged_shallowly() {
    let context = object(&[("a", object(&[("x", s("1"))])), ("b", s("old"))]);
    let output = object(&[("a", object(&[("y", s("2"))])), ("c", s("new"))]);
    let next = finish_plugin(context, &output).unwrap();
    assert_eq!(next.to_text(), r#"{"a":{"y":"2"},"b":"old","c":"new"}"#);
}

#[test]
fn plugin_panic_is_an_error_when_not_empty() {
    match finish_plugin(context(), &object(&[("plugin-panic", s("index out of bounds"))])) {
        Err(LeafError::PluginPanic(message)) => assert_eq!(message, "index out of bounds"),
        _ => panic!("Expected the plugin's panic"),
    }
    let next = finish_plugin(object(&[]), &object(&[("plugin-panic", s(""))])).unwrap();
    assert_eq!(next.get_str("plugin-panic"), Some("".to_string()));
    let next = finish_plugin(object(&[]), &object(&[("plugin-panic", Json::Bool(true))])).unwrap();
    assert_eq!(next.to_text(), r#"{"plugin-panic":true}"#);
}

#[test]
fn filter_result_is_recorded_in_the_context() {
    let ok = finish_pipe(context(), true, "print(1)".to_string()).unwrap();
    assert_eq!(ok.get_str("format-status"), Some("success".to_string()));
    assert_eq!(ok.get_str("formatted-content"), Some("print(1)".to_string()));
    assert_eq!(ok.get_str("format-error"), None);
    let bad = finish_pipe(context(), false, "syntax error".to_string()).unwrap();
    assert_eq!(bad.get_str("format-status"), Some("error".to_string()));
    assert_eq!(bad.get_str("format-error"), Some("syntax error".to_string()));
    assert_eq!(bad.get_str("formatted-content"), None);
    assert!(matches!(
        finish_pipe(Json::Array(vec![]), true, String::new()),
        Err(LeafError::NotAnObject)
    ));
}

#[test]
fn shell_leaf_gets_nothing_piped_and_leaves_an_empty_context() {
    let leaf = WriteCommand::SimpleCommand("rustfmt {{ target }}".to_string());
    match plan_write(&leaf, &object(&[("target", s("/w/a.rs")), ("current-dir", s("/w"))]))
        .unwrap()
    {
        WritePlan::Shell(spawn) => {
            assert_eq!(spawn.program, "rustfmt");
            assert_eq!(spawn.args, vec!["/w/a.rs"]);
            assert_eq!(spawn.current_dir, "/w");
            assert_eq!(spawn.stdin, None);
        }
        _ => panic!("Expected a shell command"),
    }
    assert_eq!(finish_shell().to_text(), "{}");
    assert!(matches!(
        plan_write(&leaf, &object(&[("target", s("/w/a.rs"))])),
        Err(LeafError::MissingKey(_))
    ));
    let hyphen = WriteCommand::SimpleCommand("rustfmt {{ os-target }}".to_string());
    assert!(matches!(
        plan_write(&hyphen, &object(&[("os-target", s("/w/a.rs")), ("current-dir", s("/w"))])),
        Err(LeafError::Template(_))
    ));
}

#[test]
fn pure_leaf_in_a_write_tree_writes_its_result_to_the_target() {
    let leaf = WriteCommand::Pure(PureCommand::PluginUrl("https://p/".to_string()));
    match plan_write(&leaf, &context()).unwrap() {
        WritePlan::Pure { target, plan: PurePlan::Plugin { url } } => {
            assert_eq!(target, "/w/my file.py");
            assert_eq!(url, "https://p/");
        }
        _ => panic!("Expected a pure leaf"),
    }
    assert!(matches!(
        plan_write(&leaf, &object(&[])),
        Err(LeafError::MissingKey(_))
    ));
    let write = write_after_leaf(
        "/w/a.py".to_string(),
        &object(&[("formatted-content", s("print(1)"))]),
    )
    .unwrap();
    assert_eq!((write.path.as_str(), write.content.as_str()), ("/w/a.py", "print(1)"));
    assert!(write_after_leaf("/w/a.py".to_string(), &object(&[])).is_none());
}

#[test]
fn run_writes_only_when_the_content_changed() {
    let changed = object(&[("formatted-content", s("print(1)"))]);
    let write = write_after_run("/w/a.py".to_string(), "print( 1 )", &changed).unwrap();
    assert_eq!(write.path, "/w/a.py");
    assert_eq!(write.content, "print(1)");
    assert!(write_after_run("/w/a.py".to_string(), "print(1)", &changed).is_none());
    assert!(write_after_run("/w/a.py".to_string(), "print(1)", &object(&[])).is_none());
    assert!(write_after_run(
        "/w/a.py".to_string(),
        "x",
        &object(&[("formatted-content", Json::Null)])
    )
    .is_none());
}

#[test]
fn write_tree_with_shell_leaves_is_read() {
    let tree = decode_write_flow(&from_text(
        r#"["rustfmt {{ os-target }}", "https://example.com/p.dllpack", {"io": "cat"}]"#,
    ))
    .unwrap();
    match tree {
        CommandWithControlFlow::Sequential(children) => {
            assert!(matches!(
                children[0],
                CommandWithControlFlow::Command(WriteCommand::SimpleCommand(_))
            ));
            assert!(matches!(
                children[1],
                CommandWithControlFlow::Command(WriteCommand::Pure(PureCommand::PluginUrl(_)))
            ));
            assert!(matches!(
                children[2],
                CommandWithControlFlow::Command(WriteCommand::Pure(PureCommand::CommandIO { .. }))
            ));
        }
        _ => panic!("Expected a sequence"),
    }
    assert!(decode_pure_flow(&from_text(r#"["rustfmt"]"#)).is_none());
}

#[test]
fn leaf_errors_have_messages() {
    assert_eq!(LeafError::EmptyCommand.message(), "Empty command");
    assert_eq!(
        LeafError::PluginPanic("index out of bounds".to_string()).message(),
        "Plugin panicked: index out of bounds"
    );
    assert_eq!(
        LeafError::MissingKey("os-target".to_string()).message(),
        "The context has no string under os-target"
    );
    assert_eq!(LeafError::NotAnObject.message(), "The context is no object");
    assert_eq!(LeafError::Template("t".to_string()).message(), "t");
    assert_eq!(LeafError::Split("s".to_string()).message(), "s");
}
