use foro::config::codec::{decode_pure_flow, decode_pure_leaf, decode_rule, decode_write_leaf, load_str, ConfigError};
use foro::config::model::{
    binds_once, none, path_extension, CommandWithControlFlow, Config, OnRule, PureCommand, Rule, SomeCommand,
    WriteCommand,
};
use foro::json::Json;

fn parse(text: &str) -> Json {
    let value: serde_json::Value = serde_json::from_str(text).expect("Should parse valid JSON");
    to_json(&value)
}

fn to_json(value: &serde_json::Value) -> Json {
    match value {
        serde_json::Value::Null => Json::Null,
        serde_json::Value::Bool(b) => Json::Bool(*b),
        serde_json::Value::Number(n) => Json::Number(n.to_string()),
        serde_json::Value::String(s) => Json::Str(s.clone()),
        serde_json::Value::Array(items) => Json::Array(items.iter().map(to_json).collect()),
        serde_json::Value::Object(map) => {
            Json::Object(map.iter().map(|(k, v)| (k.clone(), to_json(v))).collect())
        }
    }
}

#[test]
fn test_on_rule_extension_match() {
    let on_rule = OnRule::Extension(".rs".to_string());

    let path = "hello_world.rs";
    assert!(on_rule.on_match(path), "Should match `.rs` extension");

    let path_ts = "example.ts";
    assert!(
        !on_rule.on_match(path_ts),
        "Should not match `.ts` extension"
    );

    let path_no_ext = "Makefile";
    assert!(
        !on_rule.on_match(path_no_ext),
        "Should not match no extension path"
    );
}

#[test]
fn test_on_rule_or_logic() {
    let on_rule = OnRule::Or(vec![
        OnRule::Extension(".rs".to_string()),
        OnRule::Extension(".js".to_string()),
    ]);

    let path_rs = "main.rs";
    assert!(on_rule.on_match(path_rs), "Should match an `.rs` file");

    let path_js = "test.js";
    assert!(on_rule.on_match(path_js), "Should match a `.js` file");

    let path_ts = "hello.ts";
    assert!(
        !on_rule.on_match(path_ts),
        "Should not match `.ts` extension"
    );
}

#[test]
fn test_some_command_is_pure() {
    let pure_command = SomeCommand::Pure {
        cmd: CommandWithControlFlow::Command(PureCommand::PluginUrl(
            "https://example.com/plugin.dllpack".to_string(),
        )),
    };
    assert!(
        pure_command.is_pure(),
        "Expected a pure command to be recognized as pure"
    );

    let write_command = SomeCommand::Write {
        write_cmd: CommandWithControlFlow::Command(WriteCommand::SimpleCommand(
            "echo Hello".to_string(),
        )),
    };
    assert!(
        !write_command.is_pure(),
        "Expected a write command not to be recognized as pure"
    );
}

#[test]
fn test_rule_on_match() {
    let pure_rule = Rule {
        on: OnRule::Extension(".py".to_string()),
        some_cmd: SomeCommand::Pure {
            cmd: CommandWithControlFlow::Command(PureCommand::PluginUrl(
                "https://example.com/python_formatter.dllpack".to_string(),
            )),
        },
    };

    let path_py = "script.py";
    assert!(
        pure_rule.on_match(path_py, false),
        "Should match `.py` extension in non-pure mode"
    );
    assert!(
        pure_rule.on_match(path_py, true),
        "Should match `.py` extension in pure mode"
    );

    let write_rule = Rule {
        on: OnRule::Extension(".rs".to_string()),
        some_cmd: SomeCommand::Write {
            write_cmd: CommandWithControlFlow::Command(WriteCommand::SimpleCommand(
                "rustfmt {{ os-target }}".to_string(),
            )),
        },
    };

    let path_rs = "lib.rs";
    assert!(
        write_rule.on_match(path_rs, false),
        "Should match `.rs` extension in non-pure mode"
    );
    assert!(
        !write_rule.on_match(path_rs, true),
        "Should not match if forced pure, but is a write command"
    );
}

#[test]
fn test_config_find_matched_rule() {
    let json = r#"{
            "rules": [
                {
                    "on": ".ts",
                    "cmd": "https://example.com/typescript.dllpack"
                },
                {
                    "on": ".rs",
                    "write_cmd": "rustfmt {{ os-target }}"
                }
            ],
            "cache_dir": null,
            "socket_dir": null
        }"#;

    let config: Config = load_str(json).expect("Should parse valid JSON");

    let path_ts = "app.ts";
    let matched_ts = config.find_matched_rule(path_ts, false);
    assert!(
        matched_ts.is_some(),
        "Should find a matching rule for `.ts`"
    );
    assert!(
        matched_ts.unwrap().some_cmd.is_pure(),
        "Expected `.ts` rule to be a pure command"
    );

    let path_rs = "main.rs";
    let matched_rs = config.find_matched_rule(path_rs, false);
    assert!(
        matched_rs.is_some(),
        "Should find a matching rule for `.rs`"
    );
    assert!(
        !matched_rs.unwrap().some_cmd.is_pure(),
        "Expected `.rs` rule to be a write command"
    );

    let path_py = "script.py";
    let matched_py = config.find_matched_rule(path_py, false);
    assert!(matched_py.is_none(), "No rule should match `.py`");
}

#[test]
fn test_some_command_deserialize() {
    let json_str_cmd = r#"
        {
          "on": ".ts",
          "cmd": "https://example.com/plugin.dllpack"
        }
        "#;

    let rule_cmd: Rule = decode_rule(&parse(json_str_cmd)).unwrap();
    match &rule_cmd.some_cmd {
        SomeCommand::Pure { cmd } => match cmd {
            CommandWithControlFlow::Command(PureCommand::PluginUrl(url)) => {
                assert_eq!(url.as_str(), "https://example.com/plugin.dllpack");
            }
            _ => panic!("Expected a direct plugin URL in pure command"),
        },
        _ => panic!("Expected a pure command for `.ts`"),
    }

    let json_str_write_cmd = r#"
        {
          "on": ".rs",
          "write_cmd": "rustfmt {{ os-target }}"
        }
        "#;

    let rule_write_cmd: Rule = decode_rule(&parse(json_str_write_cmd)).unwrap();
    match &rule_write_cmd.some_cmd {
        SomeCommand::Write { write_cmd } => match write_cmd {
            CommandWithControlFlow::Command(WriteCommand::SimpleCommand(s)) => {
                assert!(s.contains("rustfmt"));
            }
            _ => panic!("Expected a simple command for `.rs`"),
        },
        _ => panic!("Expected a write command for `.rs`"),
    }
}

#[test]
fn test_command_with_control_flow_if() {
    let json = r#"{
            "run": "https://example.com/plugin.dllpack",
            "cond": "test_condition",
            "on_true": "https://example.com/true.dllpack",
            "on_false": "https://example.com/false.dllpack"
        }"#;

    let if_command: CommandWithControlFlow<PureCommand> =
        decode_pure_flow(&parse(json)).expect("Should parse valid JSON");

    match if_command {
        CommandWithControlFlow::If {
            run,
            cond,
            on_true,
            on_false,
        } => {
            assert_eq!(cond, "test_condition");
            match *run {
                CommandWithControlFlow::Command(_) => {}
                _ => panic!("Expected a Command variant"),
            }
            match *on_true {
                CommandWithControlFlow::Command(_) => {}
                _ => panic!("Expected a Command variant"),
            }
            match *on_false {
                CommandWithControlFlow::Command(_) => {}
                _ => panic!("Expected a Command variant"),
            }
        }
        _ => panic!("Expected an If variant"),
    }
}

#[test]
fn test_command_with_control_flow_sequential() {
    let json = r#"[
            "https://example.com/plugin1.dllpack",
            "https://example.com/plugin2.dllpack"
        ]"#;

    let sequential: CommandWithControlFlow<PureCommand> =
        decode_pure_flow(&parse(json)).expect("Should parse valid JSON");

    match sequential {
        CommandWithControlFlow::Sequential(commands) => {
            assert_eq!(commands.len(), 2);
        }
        _ => panic!("Expected a Sequential variant"),
    }
}

#[test]
fn test_command_with_control_flow_set() {
    let json = r#"{
            "set": {
                "key1": "value1",
                "key2": "value2"
            }
        }"#;

    let set_command: CommandWithControlFlow<PureCommand> =
        decode_pure_flow(&parse(json)).expect("Should parse valid JSON");

    match set_command {
        CommandWithControlFlow::Assign { set } => {
            assert_eq!(set.len(), 2);
            let get = |key: &str| set.iter().find(|(k, _)| k == key).map(|(_, v)| v);
            assert_eq!(get("key1"), Some(&"value1".to_string()));
            assert_eq!(get("key2"), Some(&"value2".to_string()));
        }
        _ => panic!("Expected a Set variant"),
    }
}

#[test]
fn test_load_str() {
    let json = r#"{"rules":[],"cache_dir":"/cache","socket_dir":"/socket"}"#;
    let config = load_str(json).expect("Should parse valid JSON");

    assert!(config.rules.is_empty());
    assert_eq!(config.cache_dir, Some("/cache".to_string()));
    assert_eq!(config.socket_dir, Some("/socket".to_string()));
}

#[test]
fn test_load_str_invalid_json() {
    let invalid_json = r#"{"rules":[],"cache_dir":"/cache","socket_dir":}"#; // Syntax error
    let result = load_str(invalid_json);

    assert!(result.is_err(), "Should fail with invalid JSON");
}

#[test]
fn test_none_helper_function() {
    let result: Option<String> = none();
    assert!(result.is_none(), "none() should return None");

    let result: Option<i32> = none();
    assert!(result.is_none(), "none() should return None for any type");
}

#[test]
fn test_pure_command_command_io() {
    let json = r#"{
            "io": "cat {{ input }} | grep pattern"
        }"#;

    let command_io: PureCommand = decode_pure_leaf(&parse(json)).expect("Should parse valid JSON");

    match command_io {
        PureCommand::CommandIO { io } => {
            assert_eq!(io, "cat {{ input }} | grep pattern");
        }
        _ => panic!("Expected CommandIO variant"),
    }
}

#[test]
fn test_write_command_variants() {
    let simple_cmd_json = r#""echo 'Hello World'""#;

    let simple_cmd: WriteCommand =
        decode_write_leaf(&parse(simple_cmd_json)).expect("Should parse valid JSON");
    match simple_cmd {
        WriteCommand::SimpleCommand(cmd) => {
            assert_eq!(cmd, "echo 'Hello World'");
        }
        _ => panic!("Expected SimpleCommand variant"),
    }

    let pure_cmd_json = r#""https://example.com/plugin.dllpack""#;

    let pure_cmd: WriteCommand =
        decode_write_leaf(&parse(pure_cmd_json)).expect("Should parse valid JSON");
    match pure_cmd {
        WriteCommand::Pure(_) => {}
        _ => panic!("Expected Pure variant"),
    }
}

#[test]
fn load_str_tells_bad_syntax_from_bad_shape() {
    assert!(matches!(load_str("{"), Err(ConfigError::Syntax(_))));
    assert!(matches!(load_str("[]"), Err(ConfigError::Shape)));
    assert!(matches!(load_str(r#"{"cache_dir":"/c"}"#), Err(ConfigError::Shape)));
    assert!(matches!(
        load_str(r#"{"rules":[{"on":".rs"}]}"#),
        Err(ConfigError::Shape)
    ));
    assert!(matches!(
        load_str(r#"{"rules":[],"cache_dir":7}"#),
        Err(ConfigError::Shape)
    ));
    assert!(matches!(
        load_str(r#"{"rules":[{"on":".rs","cmd":"rustfmt"}]}"#),
        Err(ConfigError::Shape)
    ));
}

#[test]
fn plugin_urls_are_kept_in_serialized_form() {
    let config = load_str(r#"{"rules":[{"on":".rs","cmd":"HTTPS://Example.COM"}]}"#).unwrap();
    match &config.rules[0].some_cmd {
        SomeCommand::Pure {
            cmd: CommandWithControlFlow::Command(PureCommand::PluginUrl(url)),
        } => assert_eq!(url, "https://example.com/"),
        _ => panic!("Expected a plugin URL"),
    }
}

#[test]
fn extension_of_a_path() {
    assert_eq!(path_extension("a/b/c.rs"), Some("rs".to_string()));
    assert_eq!(path_extension("a/b.d/c"), None);
    assert_eq!(path_extension("archive.tar.gz"), Some("gz".to_string()));
    assert_eq!(path_extension(".bashrc"), None);
    assert_eq!(path_extension("dir/.bashrc"), None);
    assert_eq!(path_extension("x."), Some("".to_string()));
    assert_eq!(path_extension(".."), None);
    assert_eq!(path_extension("a/.."), None);
    assert_eq!(path_extension(""), None);
    assert_eq!(path_extension(".a.b"), Some("b".to_string()));
}

#[test]
fn extension_match_is_case_sensitive_and_needs_the_dot() {
    assert!(!OnRule::Extension(".RS".to_string()).on_match("main.rs"));
    assert!(!OnRule::Extension("rs".to_string()).on_match("main.rs"));
    assert!(OnRule::Extension(".".to_string()).on_match("odd."));
    assert!(!OnRule::Or(vec![]).on_match("main.rs"));
    assert!(OnRule::Or(vec![OnRule::Or(vec![OnRule::Extension(".rs".to_string())])])
        .on_match("/abs/main.rs"));
}

#[test]
fn first_matching_rule_wins_and_force_pure_skips_write_rules() {
    let config = load_str(
        r#"{"rules":[
            {"on":".rs","write_cmd":"rustfmt {{ os-target }}"},
            {"on":[".rs",".toml"],"cmd":"https://example.com/a.dllpack"},
            {"on":".rs","cmd":"https://example.com/b.dllpack"}
        ]}"#,
    )
    .unwrap();
    let any = config.find_matched_rule("x.rs", false).unwrap();
    assert!(!any.some_cmd.is_pure());
    let pure = config.find_matched_rule("x.rs", true).unwrap();
    match &pure.some_cmd {
        SomeCommand::Pure {
            cmd: CommandWithControlFlow::Command(PureCommand::PluginUrl(url)),
        } => assert_eq!(url, "https://example.com/a.dllpack"),
        _ => panic!("Expected the first pure rule"),
    }
    assert!(config.find_matched_rule("x.toml", true).is_some());
    assert!(config.find_matched_rule("x.py", true).is_none());
}

#[test]
fn test_config_serde_roundtrip() {
    let json = r#"{
            "rules": [
                {
                    "on": [".json", ".yaml"],
                    "cmd": "https://example.com/json_plugin.dllpack"
                }
            ],
            "cache_dir": "/custom/cache/foro",
            "socket_dir": null
        }"#;

    let original_config: Config = load_str(json).expect("Should parse valid JSON");
    let serialized = original_config.to_json().to_text();
    let deserialized: Config = load_str(&serialized).expect("Should deserialize config");

    assert_eq!(original_config.rules.len(), deserialized.rules.len());
    assert_eq!(original_config.cache_dir, deserialized.cache_dir);
    assert_eq!(original_config.socket_dir, deserialized.socket_dir);

    if let Some(Rule {
        on: OnRule::Or(rules),
        some_cmd,
        ..
    }) = deserialized.rules.get(0)
    {
        assert_eq!(
            rules.len(),
            2,
            "Expected two OnRule::Extension inside OnRule::Or"
        );
        assert!(some_cmd.is_pure(), "Expected a pure command");
    } else {
        panic!("Expected the first rule to be OnRule::Or with a pure command");
    }
}

#[test]
fn every_kind_of_node_survives_the_round_trip() {
    let json = r#"{"rules":[
        {"on":[".a",[".b",".c"]],
         "cmd":[{"run":"https://example.com/x","cond":"a == 1",
                 "on_true":{"set":{"k":"1","j":"k"}},
                 "on_false":{"io":"cat {{ os-target }}"}},
                "https://example.com/y"]},
        {"on":".d","write_cmd":["rustfmt {{ os-target }}",{"io":"fmt"},"https://example.com/z",[]]}
    ],"socket_dir":"/s"}"#;
    let config = load_str(json).unwrap();
    assert!(config.round_trips());
    let written = config.to_json().to_text();
    let again = load_str(&written).unwrap();
    assert_eq!(again.to_json().to_text(), written);
    assert_eq!(
        written,
        concat_all(&[
            r#"{"cache_dir":null,"rules":[{"cmd":[{"cond":"a == 1","on_false":{"io":"cat {{ os-target }}"},"#,
            r#""on_true":{"set":{"j":"k","k":"1"}},"run":"https://example.com/x"},"https://example.com/y"],"#,
            r#""on":[".a",[".b",".c"]]},{"on":".d","write_cmd":["rustfmt {{ os-target }}",{"io":"fmt"},"#,
            r#""https://example.com/z",[]]}],"socket_dir":"/s"}"#,
        ])
    );
}

fn concat_all(parts: &[&str]) -> String {
    parts.iter().map(|p| p.to_string()).collect()
}

#[test]
fn hand_made_config_with_unserialized_url_does_not_round_trip() {
    let config = Config {
        rules: vec![Rule {
            on: OnRule::Extension(".rs".to_string()),
            some_cmd: SomeCommand::Pure {
                cmd: CommandWithControlFlow::Command(PureCommand::PluginUrl(
                    "HTTPS://EXAMPLE.com".to_string(),
                )),
            },
        }],
        cache_dir: None,
        socket_dir: None,
    };
    assert!(!config.round_trips());
    let shell_url = Config {
        rules: vec![Rule {
            on: OnRule::Extension(".rs".to_string()),
            some_cmd: SomeCommand::Write {
                write_cmd: CommandWithControlFlow::Command(WriteCommand::SimpleCommand(
                    "https://example.com/".to_string(),
                )),
            },
        }],
        cache_dir: None,
        socket_dir: None,
    };
    assert!(!shell_url.round_trips());
}

#[test]
fn what_ends_a_path_and_names_nothing_does_not_hide_the_extension() {
    let rule = OnRule::Extension(".rs".to_string());
    assert!(rule.on_match("src/a.rs/"));
    assert!(rule.on_match("src/a.rs//"));
    assert!(rule.on_match("src/a.rs/."));
    assert!(rule.on_match("src/a.rs/./"));
    assert!(!rule.on_match("src/a.rs/.."));
    assert!(!rule.on_match("src/a.rs/b"));
    assert!(!rule.on_match("/"));
    assert!(!rule.on_match(""));
    assert_eq!(path_extension("a.rs/"), Some("rs".to_string()));
    assert_eq!(path_extension("a.tar.gz///"), Some("gz".to_string()));
    assert_eq!(path_extension(".hidden/"), None);
    assert_eq!(path_extension("./"), None);
}

#[test]
fn an_assignment_node_binds_no_key_twice() {
    let twice = Json::Object(vec![(
        "set".to_string(),
        Json::Object(vec![
            ("a".to_string(), Json::Str("1".to_string())),
            ("b".to_string(), Json::Str("2".to_string())),
            ("a".to_string(), Json::Str("3".to_string())),
        ]),
    )]);
    assert!(decode_pure_flow(&twice).is_none());
    let once = Json::Object(vec![(
        "set".to_string(),
        Json::Object(vec![
            ("a".to_string(), Json::Str("1".to_string())),
            ("b".to_string(), Json::Str("2".to_string())),
        ]),
    )]);
    match decode_pure_flow(&once) {
        Some(CommandWithControlFlow::Assign { set }) => {
            assert_eq!(set, vec![("a".to_string(), "1".to_string()), ("b".to_string(), "2".to_string())]);
            assert!(binds_once(&set));
        }
        _ => panic!("Expected an assignment node"),
    }
    assert!(!binds_once(&vec![
        ("a".to_string(), "1".to_string()),
        ("b".to_string(), "2".to_string()),
        ("a".to_string(), "3".to_string()),
    ]));
    assert!(binds_once(&vec![]));
    let config = Config {
        rules: vec![Rule {
            on: OnRule::Extension(".rs".to_string()),
            some_cmd: SomeCommand::Pure {
                cmd: CommandWithControlFlow::Assign {
                    set: vec![("a".to_string(), "1".to_string()), ("a".to_string(), "2".to_string())],
                },
            },
        }],
        cache_dir: None,
        socket_dir: None,
    };
    assert!(!config.round_trips());
    let read = load_str(r#"{"rules":[{"on":".rs","cmd":{"set":{"b":"1","a":"2","b":"3"}}}]}"#).unwrap();
    assert!(read.round_trips());
}
