//! The configuration file's format: how a rule set is read from JSON.
//!
//! A configuration is an object with the member `rules`, an array of
//! rules, and optionally `cache_dir` and `socket_dir`. A rule is an object
//! with a matcher under `on` and a command tree under `cmd` (a pure tree)
//! or `write_cmd` (a write tree). A matcher is a string or an array of
//! matchers. A command tree is an object with `run`, `cond`, `on_true` and
//! `on_false` (a branch), an array (a sequence), an object with `set` (the
//! assignments), or a leaf: a URL (a plugin), an object with `io` (a
//! filter) and, in a write tree only, any other string (a shell command).

use crate::bindings::{parse_url, parsed_json, url_text};
use crate::config::model::{
    bindings_view,
    binds_once,
    keys_once,
    opt_view,
    BindingV,
    CommandWithControlFlow,
    Config,
    ConfigV,
    FlowV,
    OnRule,
    OnRuleV,
    PureCommand,
    PureCommandV,
    Rule,
    RuleV,
    SomeCommand,
    SomeCommandV,
    WriteCommand,
    WriteCommandV,
};
use crate::flow::{children_view, lemma_sequence_view};
use crate::json::{
    distinct_keys,
    entries_view,
    has_distinct_keys,
    items_view,
    key_index,
    lemma_key_index_is,
    lemma_view_of_parts,
    member_index,
    Json,
    JsonV,
    MemberV,
};
use crate::text::str_eq;
use vstd::prelude::*;

verus! {

/// Why a text is no configuration.
#[derive(Debug)]
pub enum ConfigError {
    /// The text is no JSON document; the parser's message.
    Syntax(String),
    /// The document does not have the shape of a configuration.
    Shape,
}

/// The matchers that the first `n` items of an array stand for, if each
/// stands for one.
pub open spec fn on_rules_of(items: Seq<JsonV>, n: nat) -> Option<Seq<OnRuleV>>
    decreases items, n,
{
    if n == 0 || n > items.len() {
        Some(Seq::empty())
    } else {
        match (on_rules_of(items, (n - 1) as nat), on_rule_of(items[n - 1])) {
            (Some(before), Some(rule)) => Some(before.push(rule)),
            _ => None,
        }
    }
}

/// The matcher that a JSON value stands for: a string is an extension, an
/// array of matchers the choice between them.
pub open spec fn on_rule_of(j: JsonV) -> Option<OnRuleV>
    decreases j, 0nat,
{
    match j {
        JsonV::Str(ext) => Some(OnRuleV::Extension(ext)),
        JsonV::Array(items) => match on_rules_of(items, items.len()) {
            Some(rules) => Some(OnRuleV::Or(rules)),
            None => None,
        },
        _ => None,
    }
}

/// The assignments that the first `n` members of a `set` object stand for:
/// each member's value must be a string.
pub open spec fn bindings_of(members: Seq<MemberV>, n: nat) -> Option<Seq<BindingV>>
    decreases n,
{
    if n == 0 || n > members.len() {
        Some(Seq::empty())
    } else {
        match (bindings_of(members, (n - 1) as nat), members[n - 1].value) {
            (Some(before), JsonV::Str(expr)) => Some(
                before.push(BindingV { key: members[n - 1].key, expr }),
            ),
            _ => None,
        }
    }
}

/// The assignments that an object with the member `set` stands for. A
/// `set` object in which a key occurs twice stands for none.
pub open spec fn assign_of(members: Seq<MemberV>) -> Option<Seq<BindingV>> {
    let at = key_index(members, "set"@);
    if 0 <= at < members.len() {
        match members[at].value {
            JsonV::Object(set) => if distinct_keys(set) {
                bindings_of(set, set.len())
            } else {
                None
            },
            _ => None,
        }
    } else {
        None
    }
}

/// The trees that the first `n` items of an array stand for, if each
/// stands for one.
pub open spec fn flows_of<L>(items: Seq<JsonV>, n: nat, leaf: spec_fn(JsonV) -> Option<L>) -> Option<
    Seq<FlowV<L>>,
>
    decreases items, n,
{
    if n == 0 || n > items.len() {
        Some(Seq::empty())
    } else {
        match (flows_of(items, (n - 1) as nat, leaf), flow_of(items[n - 1], leaf)) {
            (Some(before), Some(flow)) => Some(before.push(flow)),
            _ => None,
        }
    }
}

/// The branch that a JSON value stands for: an object whose members
/// `run`, `on_true` and `on_false` stand for trees and whose member `cond`
/// is a string.
pub open spec fn branch_of<L>(j: JsonV, leaf: spec_fn(JsonV) -> Option<L>) -> Option<FlowV<L>>
    decreases j, 0nat,
{
    match j {
        JsonV::Object(m) => {
            let r = key_index(m, "run"@);
            let c = key_index(m, "cond"@);
            let t = key_index(m, "on_true"@);
            let f = key_index(m, "on_false"@);
            if 0 <= r < m.len() && 0 <= c < m.len() && 0 <= t < m.len() && 0 <= f < m.len() {
                match (
                    flow_of(m[r].value, leaf),
                    m[c].value,
                    flow_of(m[t].value, leaf),
                    flow_of(m[f].value, leaf),
                ) {
                    (Some(run), JsonV::Str(cond), Some(on_true), Some(on_false)) => Some(
                        FlowV::If {
                            run: Box::new(run),
                            cond,
                            on_true: Box::new(on_true),
                            on_false: Box::new(on_false),
                        },
                    ),
                    _ => None,
                }
            } else {
                None
            }
        },
        _ => None,
    }
}

/// The leaf node that a JSON value stands for, if `leaf` reads one.
pub open spec fn command_of<L>(j: JsonV, leaf: spec_fn(JsonV) -> Option<L>) -> Option<FlowV<L>> {
    match leaf(j) {
        Some(l) => Some(FlowV::Command(l)),
        None => None,
    }
}

/// The command tree that a JSON value stands for, where `leaf` reads the
/// leaves. A value that can be read as a branch is one; an array is a
/// sequence and nothing else; an object with a well-formed `set` is the
/// assignments; whatever is left must be a leaf.
pub open spec fn flow_of<L>(j: JsonV, leaf: spec_fn(JsonV) -> Option<L>) -> Option<FlowV<L>>
    decreases j, 1nat,
{
    match branch_of(j, leaf) {
        Some(branch) => Some(branch),
        None => match j {
            JsonV::Array(items) => match flows_of(items, items.len(), leaf) {
                Some(children) => Some(FlowV::Sequential(children)),
                None => None,
            },
            JsonV::Object(m) => match assign_of(m) {
                Some(set) => Some(FlowV::Assign { set }),
                None => command_of(j, leaf),
            },
            _ => command_of(j, leaf),
        },
    }
}

/// The pure leaf that a JSON value stands for: a string that is a URL is
/// a plugin, kept in the URL's serialized form; an object whose member
/// `io` is a string is a filter.
pub open spec fn pure_leaf_of(j: JsonV) -> Option<PureCommandV> {
    match j {
        JsonV::Str(text) => match url_text(text) {
            Some(url) => Some(PureCommandV::PluginUrl(url)),
            None => None,
        },
        JsonV::Object(m) => {
            let at = key_index(m, "io"@);
            if 0 <= at < m.len() {
                match m[at].value {
                    JsonV::Str(io) => Some(PureCommandV::CommandIO { io }),
                    _ => None,
                }
            } else {
                None
            }
        },
        _ => None,
    }
}

/// The write leaf that a JSON value stands for: what can be read as a pure
/// leaf is one; any other string is a shell command.
pub open spec fn write_leaf_of(j: JsonV) -> Option<WriteCommandV> {
    match pure_leaf_of(j) {
        Some(pure) => Some(WriteCommandV::Pure(pure)),
        None => match j {
            JsonV::Str(cmd) => Some(WriteCommandV::SimpleCommand(cmd)),
            _ => None,
        },
    }
}

/// The command bundle of a rule: the pure tree under `cmd` where that
/// member stands for one, else the write tree under `write_cmd`.
pub open spec fn some_cmd_of(m: Seq<MemberV>) -> Option<SomeCommandV> {
    let p = key_index(m, "cmd"@);
    let pure = if 0 <= p < m.len() {
        flow_of(m[p].value, |j: JsonV| pure_leaf_of(j))
    } else {
        None
    };
    match pure {
        Some(cmd) => Some(SomeCommandV::Pure { cmd }),
        None => {
            let w = key_index(m, "write_cmd"@);
            if 0 <= w < m.len() {
                match flow_of(m[w].value, |j: JsonV| write_leaf_of(j)) {
                    Some(write_cmd) => Some(SomeCommandV::Write { write_cmd }),
                    None => None,
                }
            } else {
                None
            }
        },
    }
}

/// The rule that a JSON value stands for: an object with a matcher under
/// `on` and a command bundle.
pub open spec fn rule_of(j: JsonV) -> Option<RuleV> {
    match j {
        JsonV::Object(m) => {
            let at = key_index(m, "on"@);
            if 0 <= at < m.len() {
                match (on_rule_of(m[at].value), some_cmd_of(m)) {
                    (Some(on), Some(some_cmd)) => Some(RuleV { on, some_cmd }),
                    _ => None,
                }
            } else {
                None
            }
        },
        _ => None,
    }
}

/// The rules that the first `n` items of an array stand for, if each
/// stands for one.
pub open spec fn rules_of(items: Seq<JsonV>, n: nat) -> Option<Seq<RuleV>>
    decreases n,
{
    if n == 0 || n > items.len() {
        Some(Seq::empty())
    } else {
        match (rules_of(items, (n - 1) as nat), rule_of(items[n - 1])) {
            (Some(before), Some(rule)) => Some(before.push(rule)),
            _ => None,
        }
    }
}

/// The directory that an optional member names: none where the member is
/// missing or `null`, the string where it is one. Any other value is a
/// fault of the configuration.
pub open spec fn dir_of(m: Seq<MemberV>, key: Seq<char>) -> Option<Option<Seq<char>>> {
    let at = key_index(m, key);
    if 0 <= at < m.len() {
        match m[at].value {
            JsonV::Null => Some(None),
            JsonV::Str(dir) => Some(Some(dir)),
            _ => None,
        }
    } else {
        Some(None)
    }
}

/// The configuration that a JSON value stands for.
pub open spec fn config_of(j: JsonV) -> Option<ConfigV> {
    match j {
        JsonV::Object(m) => {
            let at = key_index(m, "rules"@);
            if 0 <= at < m.len() {
                match m[at].value {
                    JsonV::Array(items) => match (
                        rules_of(items, items.len()),
                        dir_of(m, "cache_dir"@),
                        dir_of(m, "socket_dir"@),
                    ) {
                        (Some(rules), Some(cache_dir), Some(socket_dir)) => Some(
                            ConfigV { rules, cache_dir, socket_dir },
                        ),
                        _ => None,
                    },
                    _ => None,
                }
            } else {
                None
            }
        },
        _ => None,
    }
}

/// The value of an optional matcher.
pub open spec fn opt_on(r: Option<OnRule>) -> Option<OnRuleV> {
    match r {
        Some(rule) => Some(rule@),
        None => None,
    }
}

/// The matchers of a list, each by its value.
pub open spec fn on_rules_view(rules: Seq<OnRule>) -> Seq<OnRuleV> {
    Seq::new(rules.len(), |i: int| rules[i]@)
}

/// The value of a choice holds the values of its members.
proof fn lemma_or_view(rule: OnRule)
    requires
        rule is Or,
    ensures
        rule@ == OnRuleV::Or(on_rules_view(rule->Or_0@)),
{
    assert(rule@->Or_0 =~= on_rules_view(rule->Or_0@));
}

/// Reads a matcher.
pub fn decode_on_rule(j: &Json) -> (r: Option<OnRule>)
    ensures
        opt_on(r) == on_rule_of(j@),
    decreases j,
{
    match j {
        Json::Str(ext) => Some(OnRule::Extension(ext.clone())),
        Json::Array(items) => {
            proof {
                lemma_view_of_parts(*j);
            }
            let ghost all = items_view(items@);
            let mut rules: Vec<OnRule> = Vec::new();
            let mut i: usize = 0;
            assert(on_rules_view(rules@) =~= Seq::empty());
            while i < items.len()
                invariant
                    i <= items.len(),
                    all == items_view(items@),
                    *j == Json::Array(*items),
                    j@ == JsonV::Array(all),
                    on_rules_of(all, i as nat) == Some(on_rules_view(rules@)),
                decreases items.len() - i,
            {
                match decode_on_rule(&items[i]) {
                    Some(rule) => {
                        let ghost before = on_rules_view(rules@);
                        rules.push(rule);
                        assert(on_rules_view(rules@) =~= before.push(rule@));
                    },
                    None => {
                        proof {
                            lemma_on_rules_fail(all, (i + 1) as nat, all.len());
                        }
                        return None;
                    },
                }
                i += 1;
            }
            let r = OnRule::Or(rules);
            proof {
                lemma_or_view(r);
            }
            Some(r)
        },
        _ => None,
    }
}

/// Once a prefix of an array holds an item that is no matcher, no longer
/// prefix stands for matchers.
proof fn lemma_on_rules_fail(items: Seq<JsonV>, n: nat, m: nat)
    requires
        n <= m <= items.len(),
        on_rules_of(items, n) is None,
    ensures
        on_rules_of(items, m) is None,
    decreases m - n,
{
    if n < m {
        lemma_on_rules_fail(items, n, (m - 1) as nat);
    }
}

/// Reads the assignments of a `set` object.
fn decode_bindings(set: &Vec<(String, Json)>) -> (r: Option<Vec<(String, String)>>)
    ensures
        match r {
            Some(list) => bindings_of(entries_view(set@), set.len() as nat) == Some(
                bindings_view(list@),
            ),
            None => bindings_of(entries_view(set@), set.len() as nat) is None,
        },
{
    let ghost all = entries_view(set@);
    let mut list: Vec<(String, String)> = Vec::new();
    let mut i: usize = 0;
    assert(bindings_view(list@) =~= Seq::empty());
    while i < set.len()
        invariant
            i <= set.len(),
            all == entries_view(set@),
            bindings_of(all, i as nat) == Some(bindings_view(list@)),
        decreases set.len() - i,
    {
        match &set[i].1 {
            Json::Str(expr) => {
                let ghost before = bindings_view(list@);
                list.push((set[i].0.clone(), expr.clone()));
                assert(bindings_view(list@) =~= before.push(
                    BindingV { key: all[i as int].key, expr: expr@ },
                ));
            },
            _ => {
                proof {
                    lemma_bindings_fail(all, (i + 1) as nat, all.len());
                }
                return None;
            },
        }
        i += 1;
    }
    Some(list)
}

/// The assignments read from the first `n` members of a `set` object are
/// as many as the members, and each has the key of the member in its
/// place.
proof fn lemma_bindings_keys(members: Seq<MemberV>, n: nat)
    requires
        n <= members.len(),
        bindings_of(members, n) is Some,
    ensures
        bindings_of(members, n)->0.len() == n,
        forall|i: int| 0 <= i < n ==> (#[trigger] bindings_of(members, n)->0[i]).key == members[i].key,
    decreases n,
{
    if n > 0 {
        lemma_bindings_keys(members, (n - 1) as nat);
    }
}

/// Once a prefix of a `set` object holds a member that is no string, no
/// longer prefix stands for assignments.
proof fn lemma_bindings_fail(members: Seq<MemberV>, n: nat, m: nat)
    requires
        n <= m <= members.len(),
        bindings_of(members, n) is None,
    ensures
        bindings_of(members, m) is None,
    decreases m - n,
{
    if n < m {
        lemma_bindings_fail(members, n, (m - 1) as nat);
    }
}

/// Reads the assignments of an object with the member `set`.
fn decode_assign(members: &Vec<(String, Json)>) -> (r: Option<Vec<(String, String)>>)
    ensures
        match r {
            Some(list) => assign_of(entries_view(members@)) == Some(bindings_view(list@)),
            None => assign_of(entries_view(members@)) is None,
        },
{
    match member_index(members, "set") {
        Some(at) => match &members[at].1 {
            Json::Object(set) => {
                proof {
                    lemma_view_of_parts(members[at as int].1);
                }
                if has_distinct_keys(set) {
                    decode_bindings(set)
                } else {
                    None
                }
            },
            _ => None,
        },
        None => None,
    }
}

/// Reads a pure leaf.
pub fn decode_pure_leaf(j: &Json) -> (r: Option<PureCommand>)
    ensures
        match r {
            Some(leaf) => pure_leaf_of(j@) == Some(leaf@),
            None => pure_leaf_of(j@) is None,
        },
{
    match j {
        Json::Str(text) => match parse_url(text.as_str()) {
            Some(url) => Some(PureCommand::PluginUrl(url)),
            None => None,
        },
        Json::Object(members) => {
            proof {
                lemma_view_of_parts(*j);
            }
            match member_index(members, "io") {
                Some(at) => match &members[at].1 {
                    Json::Str(io) => Some(PureCommand::CommandIO { io: io.clone() }),
                    _ => None,
                },
                None => None,
            }
        },
        _ => None,
    }
}

/// Reads a write leaf.
pub fn decode_write_leaf(j: &Json) -> (r: Option<WriteCommand>)
    ensures
        match r {
            Some(leaf) => write_leaf_of(j@) == Some(leaf@),
            None => write_leaf_of(j@) is None,
        },
{
    match decode_pure_leaf(j) {
        Some(pure) => Some(WriteCommand::Pure(pure)),
        None => match j {
            Json::Str(cmd) => Some(WriteCommand::SimpleCommand(cmd.clone())),
            _ => None,
        },
    }
}

/// The value of an optional leaf.
pub open spec fn opt_leaf_view<T: View>(leaf: Option<T>) -> Option<T::V> {
    match leaf {
        Some(l) => Some(l@),
        None => None,
    }
}

/// The value of an optional tree.
pub open spec fn opt_flow_view<T: View>(flow: Option<CommandWithControlFlow<T>>) -> Option<FlowV<T::V>> {
    match flow {
        Some(f) => Some(f@),
        None => None,
    }
}

/// Once a prefix of an array holds an item that is no tree, no longer
/// prefix stands for trees.
proof fn lemma_flows_fail<L>(items: Seq<JsonV>, n: nat, m: nat, leaf: spec_fn(JsonV) -> Option<L>)
    requires
        n <= m <= items.len(),
        flows_of(items, n, leaf) is None,
    ensures
        flows_of(items, m, leaf) is None,
    decreases m - n,
{
    if n < m {
        lemma_flows_fail(items, n, (m - 1) as nat, leaf);
    }
}

/// Reads the branch that `j` stands for, if it stands for one.
fn decode_branch<T: View, F: Fn(&Json) -> Option<T>>(
    j: &Json,
    leaf: &F,
    Ghost(spec_leaf): Ghost<spec_fn(JsonV) -> Option<T::V>>,
) -> (r: Option<CommandWithControlFlow<T>>)
    requires
        forall|x: &Json| leaf.requires((x,)),
        forall|x: &Json, y: Option<T>| leaf.ensures((x,), y) ==> opt_leaf_view(y) == spec_leaf(x@),
    ensures
        opt_flow_view(r) == branch_of(j@, spec_leaf),
    decreases j, 0nat,
{
    match j {
        Json::Object(m) => {
            proof {
                lemma_view_of_parts(*j);
            }
            let r = match member_index(m, "run") {
                Some(r) => r,
                None => {
                    return None;
                },
            };
            let c = match member_index(m, "cond") {
                Some(c) => c,
                None => {
                    return None;
                },
            };
            let t = match member_index(m, "on_true") {
                Some(t) => t,
                None => {
                    return None;
                },
            };
            let f = match member_index(m, "on_false") {
                Some(f) => f,
                None => {
                    return None;
                },
            };
            let cond = match &m[c].1 {
                Json::Str(cond) => cond.clone(),
                _ => {
                    return None;
                },
            };
            let run = match decode_flow(&m[r].1, leaf, Ghost(spec_leaf)) {
                Some(run) => run,
                None => {
                    return None;
                },
            };
            let on_true = match decode_flow(&m[t].1, leaf, Ghost(spec_leaf)) {
                Some(on_true) => on_true,
                None => {
                    return None;
                },
            };
            let on_false = match decode_flow(&m[f].1, leaf, Ghost(spec_leaf)) {
                Some(on_false) => on_false,
                None => {
                    return None;
                },
            };
            Some(
                CommandWithControlFlow::If {
                    run: Box::new(run),
                    cond,
                    on_true: Box::new(on_true),
                    on_false: Box::new(on_false),
                },
            )
        },
        _ => None,
    }
}

/// Reads the leaf node that `j` stands for.
fn decode_command<T: View, F: Fn(&Json) -> Option<T>>(
    j: &Json,
    leaf: &F,
    Ghost(spec_leaf): Ghost<spec_fn(JsonV) -> Option<T::V>>,
) -> (r: Option<CommandWithControlFlow<T>>)
    requires
        forall|x: &Json| leaf.requires((x,)),
        forall|x: &Json, y: Option<T>| leaf.ensures((x,), y) ==> opt_leaf_view(y) == spec_leaf(x@),
    ensures
        opt_flow_view(r) == command_of(j@, spec_leaf),
{
    match leaf(j) {
        Some(l) => Some(CommandWithControlFlow::Command(l)),
        None => None,
    }
}

/// Reads the command tree that `j` stands for, with `leaf` reading the
/// leaves.
fn decode_flow<T: View, F: Fn(&Json) -> Option<T>>(
    j: &Json,
    leaf: &F,
    Ghost(spec_leaf): Ghost<spec_fn(JsonV) -> Option<T::V>>,
) -> (r: Option<CommandWithControlFlow<T>>)
    requires
        forall|x: &Json| leaf.requires((x,)),
        forall|x: &Json, y: Option<T>| leaf.ensures((x,), y) ==> opt_leaf_view(y) == spec_leaf(x@),
    ensures
        opt_flow_view(r) == flow_of(j@, spec_leaf),
    decreases j, 1nat,
{
    match decode_branch(j, leaf, Ghost(spec_leaf)) {
        Some(branch) => {
            return Some(branch);
        },
        None => {},
    }
    match j {
        Json::Array(items) => {
            proof {
                lemma_view_of_parts(*j);
            }
            let ghost all = items_view(items@);
            let mut children: Vec<CommandWithControlFlow<T>> = Vec::new();
            let mut i: usize = 0;
            assert(children_view(children@) =~= Seq::empty());
            while i < items.len()
                invariant
                    i <= items.len(),
                    all == items_view(items@),
                    *j == Json::Array(*items),
                    j@ == JsonV::Array(all),
                    branch_of(j@, spec_leaf) is None,
                    forall|x: &Json| leaf.requires((x,)),
                    forall|x: &Json, y: Option<T>|
                        leaf.ensures((x,), y) ==> opt_leaf_view(y) == spec_leaf(x@),
                    flows_of(all, i as nat, spec_leaf) == Some(children_view(children@)),
                decreases items.len() - i,
            {
                match decode_flow(&items[i], leaf, Ghost(spec_leaf)) {
                    Some(child) => {
                        let ghost before = children_view(children@);
                        children.push(child);
                        assert(children_view(children@) =~= before.push(child@));
                    },
                    None => {
                        proof {
                            lemma_flows_fail(all, (i + 1) as nat, all.len(), spec_leaf);
                        }
                        return None;
                    },
                }
                i += 1;
            }
            let r = CommandWithControlFlow::Sequential(children);
            proof {
                lemma_sequence_view(r);
            }
            Some(r)
        },
        Json::Object(m) => {
            proof {
                lemma_view_of_parts(*j);
            }
            match decode_assign(m) {
                Some(set) => Some(CommandWithControlFlow::Assign { set }),
                None => decode_command(j, leaf, Ghost(spec_leaf)),
            }
        },
        _ => decode_command(j, leaf, Ghost(spec_leaf)),
    }
}

/// Reads a pure command tree.
pub fn decode_pure_flow(j: &Json) -> (r: Option<CommandWithControlFlow<PureCommand>>)
    ensures
        opt_flow_view(r) == flow_of(j@, |x: JsonV| pure_leaf_of(x)),
{
    decode_flow(j, &decode_pure_leaf, Ghost(|x: JsonV| pure_leaf_of(x)))
}

/// Reads a write command tree.
pub fn decode_write_flow(j: &Json) -> (r: Option<CommandWithControlFlow<WriteCommand>>)
    ensures
        opt_flow_view(r) == flow_of(j@, |x: JsonV| write_leaf_of(x)),
{
    decode_flow(j, &decode_write_leaf, Ghost(|x: JsonV| write_leaf_of(x)))
}

/// The value of an optional bundle.
pub open spec fn opt_some_cmd(cmd: Option<SomeCommand>) -> Option<SomeCommandV> {
    match cmd {
        Some(c) => Some(c@),
        None => None,
    }
}

/// Reads the command bundle of a rule from the rule's members.
fn decode_some_cmd(m: &Vec<(String, Json)>) -> (r: Option<SomeCommand>)
    ensures
        opt_some_cmd(r) == some_cmd_of(entries_view(m@)),
{
    let pure = match member_index(m, "cmd") {
        Some(p) => decode_pure_flow(&m[p].1),
        None => None,
    };
    match pure {
        Some(cmd) => Some(SomeCommand::Pure { cmd }),
        None => match member_index(m, "write_cmd") {
            Some(w) => match decode_write_flow(&m[w].1) {
                Some(write_cmd) => Some(SomeCommand::Write { write_cmd }),
                None => None,
            },
            None => None,
        },
    }
}

/// The value of an optional rule.
pub open spec fn opt_rule(rule: Option<Rule>) -> Option<RuleV> {
    match rule {
        Some(r) => Some(r@),
        None => None,
    }
}

/// Reads a rule.
pub fn decode_rule(j: &Json) -> (r: Option<Rule>)
    ensures
        opt_rule(r) == rule_of(j@),
{
    match j {
        Json::Object(m) => {
            proof {
                lemma_view_of_parts(*j);
            }
            let at = match member_index(m, "on") {
                Some(at) => at,
                None => {
                    return None;
                },
            };
            let on = match decode_on_rule(&m[at].1) {
                Some(on) => on,
                None => {
                    return None;
                },
            };
            match decode_some_cmd(m) {
                Some(some_cmd) => Some(Rule { on, some_cmd }),
                None => None,
            }
        },
        _ => None,
    }
}

/// Once a prefix of an array holds an item that is no rule, no longer
/// prefix stands for rules.
proof fn lemma_rules_fail(items: Seq<JsonV>, n: nat, m: nat)
    requires
        n <= m <= items.len(),
        rules_of(items, n) is None,
    ensures
        rules_of(items, m) is None,
    decreases m - n,
{
    if n < m {
        lemma_rules_fail(items, n, (m - 1) as nat);
    }
}

/// The rules of a list, each by its value.
pub open spec fn rules_view(rules: Seq<Rule>) -> Seq<RuleV> {
    Seq::new(rules.len(), |i: int| rules[i]@)
}

/// Reads the rules of a configuration.
fn decode_rules(items: &Vec<Json>) -> (r: Option<Vec<Rule>>)
    ensures
        match r {
            Some(rules) => rules_of(items_view(items@), items.len() as nat) == Some(rules_view(rules@)),
            None => rules_of(items_view(items@), items.len() as nat) is None,
        },
{
    let ghost all = items_view(items@);
    let mut rules: Vec<Rule> = Vec::new();
    let mut i: usize = 0;
    assert(rules_view(rules@) =~= Seq::empty());
    while i < items.len()
        invariant
            i <= items.len(),
            all == items_view(items@),
            rules_of(all, i as nat) == Some(rules_view(rules@)),
        decreases items.len() - i,
    {
        match decode_rule(&items[i]) {
            Some(rule) => {
                let ghost before = rules_view(rules@);
                rules.push(rule);
                assert(rules_view(rules@) =~= before.push(rule@));
            },
            None => {
                proof {
                    lemma_rules_fail(all, (i + 1) as nat, all.len());
                }
                return None;
            },
        }
        i += 1;
    }
    Some(rules)
}

/// Reads the directory that the optional member `key` names.
fn decode_dir(m: &Vec<(String, Json)>, key: &str) -> (r: Option<Option<String>>)
    ensures
        match r {
            Some(dir) => dir_of(entries_view(m@), key@) == Some(opt_view(dir)),
            None => dir_of(entries_view(m@), key@) is None,
        },
{
    match member_index(m, key) {
        Some(at) => match &m[at].1 {
            Json::Null => Some(None),
            Json::Str(dir) => Some(Some(dir.clone())),
            _ => None,
        },
        None => Some(None),
    }
}

/// The value of an optional configuration.
pub open spec fn opt_config(config: Option<Config>) -> Option<ConfigV> {
    match config {
        Some(c) => Some(c@),
        None => None,
    }
}

impl Config {
    /// Reads a configuration from a JSON value.
    pub fn from_json(j: &Json) -> (r: Option<Config>)
        ensures
            opt_config(r) == config_of(j@),
    {
        match j {
            Json::Object(m) => {
                proof {
                    lemma_view_of_parts(*j);
                }
                let at = match member_index(m, "rules") {
                    Some(at) => at,
                    None => {
                        return None;
                    },
                };
                let rules = match &m[at].1 {
                    Json::Array(items) => {
                        proof {
                            lemma_view_of_parts(m[at as int].1);
                        }
                        match decode_rules(items) {
                            Some(rules) => rules,
                            None => {
                                return None;
                            },
                        }
                    },
                    _ => {
                        return None;
                    },
                };
                let cache_dir = match decode_dir(m, "cache_dir") {
                    Some(dir) => dir,
                    None => {
                        return None;
                    },
                };
                let socket_dir = match decode_dir(m, "socket_dir") {
                    Some(dir) => dir,
                    None => {
                        return None;
                    },
                };
                let config = Config { rules, cache_dir, socket_dir };
                assert(config@.rules =~= rules_view(rules@));
                Some(config)
            },
            _ => None,
        }
    }
}

/// The configuration that a text stands for: the text must be a JSON
/// document, and the document a configuration.
pub open spec fn config_of_text(text: Seq<char>) -> Option<ConfigV> {
    match parsed_json(text) {
        Some(j) => config_of(j),
        None => None,
    }
}

/// Reads a configuration from its JSON text.
pub fn load_str(json: &str) -> (r: Result<Config, ConfigError>)
    ensures
        match r {
            Ok(config) => config_of_text(json@) == Some(config@),
            Err(ConfigError::Syntax(_)) => parsed_json(json@) is None,
            Err(ConfigError::Shape) => parsed_json(json@) is Some && config_of_text(json@) is None,
        },
{
    let document = match Json::from_text(json) {
        Ok(document) => document,
        Err(message) => {
            return Err(ConfigError::Syntax(message));
        },
    };
    match Config::from_json(&document) {
        Some(config) => Ok(config),
        None => Err(ConfigError::Shape),
    }
}

/// A member made of a key and a value.
pub open spec fn member(key: Seq<char>, value: JsonV) -> MemberV {
    MemberV { key, value }
}

/// The JSON values of the first `n` matchers of a list.
pub open spec fn on_rules_json(rules: Seq<OnRuleV>, n: nat) -> Seq<JsonV>
    decreases rules, n,
{
    if n == 0 || n > rules.len() {
        Seq::empty()
    } else {
        on_rules_json(rules, (n - 1) as nat).push(on_rule_json(rules[n - 1]))
    }
}

/// The JSON value of a matcher: an extension is a string, a choice an
/// array.
pub open spec fn on_rule_json(rule: OnRuleV) -> JsonV
    decreases rule, 0nat,
{
    match rule {
        OnRuleV::Extension(ext) => JsonV::Str(ext),
        OnRuleV::Or(rules) => JsonV::Array(on_rules_json(rules, rules.len())),
    }
}

/// The JSON value of a pure leaf: a plugin is its URL, a filter an object
/// with its command under `io`.
pub open spec fn pure_leaf_json(leaf: PureCommandV) -> JsonV {
    match leaf {
        PureCommandV::PluginUrl(url) => JsonV::Str(url),
        PureCommandV::CommandIO { io } => JsonV::Object(seq![member("io"@, JsonV::Str(io))]),
    }
}

/// The JSON value of a write leaf: a shell command is its text.
pub open spec fn write_leaf_json(leaf: WriteCommandV) -> JsonV {
    match leaf {
        WriteCommandV::Pure(pure) => pure_leaf_json(pure),
        WriteCommandV::SimpleCommand(cmd) => JsonV::Str(cmd),
    }
}

/// The members of a `set` object for the first `n` assignments.
pub open spec fn bindings_json(set: Seq<BindingV>, n: nat) -> Seq<MemberV>
    decreases n,
{
    if n == 0 || n > set.len() {
        Seq::empty()
    } else {
        bindings_json(set, (n - 1) as nat).push(member(set[n - 1].key, JsonV::Str(set[n - 1].expr)))
    }
}

/// The JSON values of the first `n` trees of a list.
pub open spec fn flows_json<L>(children: Seq<FlowV<L>>, n: nat, leaf: spec_fn(L) -> JsonV) -> Seq<JsonV>
    decreases children, n,
{
    if n == 0 || n > children.len() {
        Seq::empty()
    } else {
        flows_json(children, (n - 1) as nat, leaf).push(flow_json(children[n - 1], leaf))
    }
}

/// The JSON value of a command tree, where `leaf` writes the leaves.
pub open spec fn flow_json<L>(flow: FlowV<L>, leaf: spec_fn(L) -> JsonV) -> JsonV
    decreases flow, 0nat,
{
    match flow {
        FlowV::If { run, cond, on_true, on_false } => JsonV::Object(
            seq![
                member("run"@, flow_json(*run, leaf)),
                member("cond"@, JsonV::Str(cond)),
                member("on_true"@, flow_json(*on_true, leaf)),
                member("on_false"@, flow_json(*on_false, leaf)),
            ],
        ),
        FlowV::Sequential(children) => JsonV::Array(flows_json(children, children.len(), leaf)),
        FlowV::Assign { set } => JsonV::Object(
            seq![member("set"@, JsonV::Object(bindings_json(set, set.len())))],
        ),
        FlowV::Command(l) => leaf(l),
    }
}

/// The JSON value of a rule: its matcher under `on` and its tree under
/// `cmd` or `write_cmd`.
pub open spec fn rule_json(rule: RuleV) -> JsonV {
    match rule.some_cmd {
        SomeCommandV::Pure { cmd } => JsonV::Object(
            seq![
                member("on"@, on_rule_json(rule.on)),
                member("cmd"@, flow_json(cmd, |l: PureCommandV| pure_leaf_json(l))),
            ],
        ),
        SomeCommandV::Write { write_cmd } => JsonV::Object(
            seq![
                member("on"@, on_rule_json(rule.on)),
                member("write_cmd"@, flow_json(write_cmd, |l: WriteCommandV| write_leaf_json(l))),
            ],
        ),
    }
}

/// The JSON values of the first `n` rules of a list.
pub open spec fn rules_json(rules: Seq<RuleV>, n: nat) -> Seq<JsonV>
    decreases n,
{
    if n == 0 || n > rules.len() {
        Seq::empty()
    } else {
        rules_json(rules, (n - 1) as nat).push(rule_json(rules[n - 1]))
    }
}

/// The JSON value of an optional directory: `null` where there is none.
pub open spec fn dir_json(dir: Option<Seq<char>>) -> JsonV {
    match dir {
        Some(d) => JsonV::Str(d),
        None => JsonV::Null,
    }
}

/// The JSON value of a configuration.
pub open spec fn config_json(config: ConfigV) -> JsonV {
    JsonV::Object(
        seq![
            member("rules"@, JsonV::Array(rules_json(config.rules, config.rules.len()))),
            member("cache_dir"@, dir_json(config.cache_dir)),
            member("socket_dir"@, dir_json(config.socket_dir)),
        ],
    )
}

/// Whether a pure leaf reads back as itself: a plugin's URL must be in
/// serialized form, which it is when it was read from a configuration and
/// parsing a serialized URL gives that URL.
pub open spec fn pure_leaf_stable(leaf: PureCommandV) -> bool {
    match leaf {
        PureCommandV::PluginUrl(url) => url_text(url) == Some(url),
        PureCommandV::CommandIO { io } => true,
    }
}

/// Whether a write leaf reads back as itself: a shell command must not be
/// a URL, or it would read back as a plugin.
pub open spec fn write_leaf_stable(leaf: WriteCommandV) -> bool {
    match leaf {
        WriteCommandV::Pure(pure) => pure_leaf_stable(pure),
        WriteCommandV::SimpleCommand(cmd) => url_text(cmd) is None,
    }
}

/// Whether the first `n` trees of a list are well formed.
pub open spec fn well_formed_in<L>(children: Seq<FlowV<L>>, n: nat, ok: spec_fn(L) -> bool) -> bool
    decreases children, n,
{
    if n == 0 || n > children.len() {
        true
    } else {
        well_formed_in(children, (n - 1) as nat, ok) && well_formed(children[n - 1], ok)
    }
}

/// Whether a tree is well formed: `ok` holds of every leaf of it, and no
/// assignment node of it binds a key twice.
pub open spec fn well_formed<L>(flow: FlowV<L>, ok: spec_fn(L) -> bool) -> bool
    decreases flow, 0nat,
{
    match flow {
        FlowV::If { run, cond, on_true, on_false } => well_formed(*run, ok) && well_formed(*on_true, ok)
            && well_formed(*on_false, ok),
        FlowV::Sequential(children) => well_formed_in(children, children.len(), ok),
        FlowV::Assign { set } => keys_once(set),
        FlowV::Command(l) => ok(l),
    }
}

/// Whether a rule reads back as itself: every leaf of it does, and no
/// assignment node of it binds a key twice.
pub open spec fn rule_stable(rule: RuleV) -> bool {
    match rule.some_cmd {
        SomeCommandV::Pure { cmd } => well_formed(cmd, |l: PureCommandV| pure_leaf_stable(l)),
        SomeCommandV::Write { write_cmd } => well_formed(
            write_cmd,
            |l: WriteCommandV| write_leaf_stable(l),
        ),
    }
}

/// Whether every rule of a configuration reads back as itself.
pub open spec fn config_stable(config: ConfigV) -> bool {
    forall|i: int| 0 <= i < config.rules.len() ==> rule_stable(#[trigger] config.rules[i])
}

/// The keys of the format are all different.
proof fn lemma_keys_differ()
    ensures
        "run"@ != "cond"@,
        "run"@ != "on_true"@,
        "run"@ != "on_false"@,
        "cond"@ != "on_true"@,
        "cond"@ != "on_false"@,
        "on_true"@ != "on_false"@,
        "set"@ != "run"@,
        "io"@ != "run"@,
        "io"@ != "set"@,
        "on"@ != "cmd"@,
        "on"@ != "write_cmd"@,
        "cmd"@ != "write_cmd"@,
        "rules"@ != "cache_dir"@,
        "rules"@ != "socket_dir"@,
        "cache_dir"@ != "socket_dir"@,
{
    reveal_strlit("run");
    reveal_strlit("cond");
    reveal_strlit("on_true");
    reveal_strlit("on_false");
    reveal_strlit("set");
    reveal_strlit("io");
    reveal_strlit("on");
    reveal_strlit("cmd");
    reveal_strlit("write_cmd");
    reveal_strlit("rules");
    reveal_strlit("cache_dir");
    reveal_strlit("socket_dir");
    assert("run"@.len() == 3 && "cond"@.len() == 4 && "on_true"@.len() == 7 && "on_false"@.len() == 8);
    assert("set"@[0] == 's' && "run"@[0] == 'r' && "io"@.len() == 2 && "on"@.len() == 2);
    assert("cmd"@.len() == 3 && "write_cmd"@.len() == 9 && "rules"@.len() == 5);
    assert("cache_dir"@.len() == 9 && "socket_dir"@.len() == 10);
}

/// The array written for a list of matchers holds one value for each.
proof fn lemma_on_rules_json(rules: Seq<OnRuleV>, n: nat)
    requires
        n <= rules.len(),
    ensures
        on_rules_json(rules, n).len() == n,
        forall|i: int| 0 <= i < n ==> on_rules_json(rules, n)[i] == on_rule_json(rules[i]),
    decreases n,
{
    if n > 0 {
        lemma_on_rules_json(rules, (n - 1) as nat);
    }
}

/// The first `n` values written for a list of matchers read back as the
/// first `n` matchers.
proof fn lemma_on_rules_round_trip(rules: Seq<OnRuleV>, n: nat)
    requires
        n <= rules.len(),
    ensures
        on_rules_of(on_rules_json(rules, rules.len()), n) == Some(rules.take(n as int)),
    decreases rules, n,
{
    let written = on_rules_json(rules, rules.len());
    lemma_on_rules_json(rules, rules.len());
    if n == 0 {
        assert(rules.take(0) =~= Seq::empty());
    } else {
        lemma_on_rules_round_trip(rules, (n - 1) as nat);
        lemma_on_rule_round_trip(rules[n - 1]);
        assert(rules.take(n as int) =~= rules.take(n - 1).push(rules[n - 1]));
    }
}

/// A matcher that is written and read is the same matcher.
pub proof fn lemma_on_rule_round_trip(rule: OnRuleV)
    ensures
        on_rule_of(on_rule_json(rule)) == Some(rule),
    decreases rule, 0nat,
{
    match rule {
        OnRuleV::Extension(ext) => {},
        OnRuleV::Or(rules) => {
            lemma_on_rules_json(rules, rules.len());
            lemma_on_rules_round_trip(rules, rules.len());
            assert(rules.take(rules.len() as int) =~= rules);
        },
    }
}

/// The members written for a list of assignments hold one for each.
proof fn lemma_bindings_json(set: Seq<BindingV>, n: nat)
    requires
        n <= set.len(),
    ensures
        bindings_json(set, n).len() == n,
        forall|i: int|
            0 <= i < n ==> bindings_json(set, n)[i] == member(set[i].key, JsonV::Str(set[i].expr)),
    decreases n,
{
    if n > 0 {
        lemma_bindings_json(set, (n - 1) as nat);
    }
}

/// The first `n` members written for a list of assignments read back as
/// the first `n` assignments.
proof fn lemma_bindings_round_trip(set: Seq<BindingV>, n: nat)
    requires
        n <= set.len(),
    ensures
        bindings_of(bindings_json(set, set.len()), n) == Some(set.take(n as int)),
    decreases n,
{
    lemma_bindings_json(set, set.len());
    if n == 0 {
        assert(set.take(0) =~= Seq::empty());
    } else {
        lemma_bindings_round_trip(set, (n - 1) as nat);
        assert(set.take(n as int) =~= set.take(n - 1).push(set[n - 1]));
    }
}

/// What must hold of a leaf for a tree with that leaf to read back: the
/// leaf reads back as itself, and what is written for it is not taken for
/// a branch, a sequence or the assignments.
pub open spec fn leaf_round_trips<L>(
    enc: spec_fn(L) -> JsonV,
    dec: spec_fn(JsonV) -> Option<L>,
    l: L,
) -> bool {
    &&& dec(enc(l)) == Some(l)
    &&& !(enc(l) is Array)
    &&& branch_of(enc(l), dec) is None
    &&& (enc(l) matches JsonV::Object(m) ==> assign_of(m) is None)
}

/// Whether a leaf is one of those that are claimed to read back.
pub open spec fn leaf_ok<L>(ok: spec_fn(L) -> bool, l: L) -> bool {
    ok(l)
}

/// The array written for a list of trees holds one value for each.
proof fn lemma_flows_json<L>(children: Seq<FlowV<L>>, n: nat, enc: spec_fn(L) -> JsonV)
    requires
        n <= children.len(),
    ensures
        flows_json(children, n, enc).len() == n,
        forall|i: int| 0 <= i < n ==> flows_json(children, n, enc)[i] == flow_json(children[i], enc),
    decreases n,
{
    if n > 0 {
        lemma_flows_json(children, (n - 1) as nat, enc);
    }
}

/// The first `n` values written for a list of trees read back as the first
/// `n` trees.
proof fn lemma_flows_round_trip<L>(
    children: Seq<FlowV<L>>,
    n: nat,
    enc: spec_fn(L) -> JsonV,
    dec: spec_fn(JsonV) -> Option<L>,
    ok: spec_fn(L) -> bool,
)
    requires
        n <= children.len(),
        well_formed_in(children, children.len(), ok),
        forall|l: L| #[trigger] leaf_ok(ok, l) ==> leaf_round_trips(enc, dec, l),
    ensures
        flows_of(flows_json(children, children.len(), enc), n, dec) == Some(children.take(n as int)),
    decreases children, n,
{
    lemma_flows_json(children, children.len(), enc);
    if n == 0 {
        assert(children.take(0) =~= Seq::empty());
    } else {
        lemma_flows_round_trip(children, (n - 1) as nat, enc, dec, ok);
        lemma_all_leaves_at(children, children.len(), ok, n - 1);
        lemma_flow_round_trip(children[n - 1], enc, dec, ok);
        assert(children.take(n as int) =~= children.take(n - 1).push(children[n - 1]));
    }
}

/// What holds of every leaf of a list of trees holds of every leaf of
/// each of them.
proof fn lemma_all_leaves_at<L>(children: Seq<FlowV<L>>, n: nat, ok: spec_fn(L) -> bool, i: int)
    requires
        n <= children.len(),
        0 <= i < n,
        well_formed_in(children, n, ok),
    ensures
        well_formed(children[i], ok),
    decreases n,
{
    if i < n - 1 {
        lemma_all_leaves_at(children, (n - 1) as nat, ok, i);
    }
}

/// A tree that is written and read is the same tree, as long as each of
/// its leaves reads back as itself.
pub proof fn lemma_flow_round_trip<L>(
    flow: FlowV<L>,
    enc: spec_fn(L) -> JsonV,
    dec: spec_fn(JsonV) -> Option<L>,
    ok: spec_fn(L) -> bool,
)
    requires
        well_formed(flow, ok),
        forall|l: L| #[trigger] leaf_ok(ok, l) ==> leaf_round_trips(enc, dec, l),
    ensures
        flow_of(flow_json(flow, enc), dec) == Some(flow),
    decreases flow, 0nat,
{
    lemma_keys_differ();
    let j = flow_json(flow, enc);
    match flow {
        FlowV::If { run, cond, on_true, on_false } => {
            let m = j->Object_0;
            lemma_key_index_is(m, "run"@, 0);
            lemma_key_index_is(m, "cond"@, 1);
            lemma_key_index_is(m, "on_true"@, 2);
            lemma_key_index_is(m, "on_false"@, 3);
            lemma_flow_round_trip(*run, enc, dec, ok);
            lemma_flow_round_trip(*on_true, enc, dec, ok);
            lemma_flow_round_trip(*on_false, enc, dec, ok);
        },
        FlowV::Sequential(children) => {
            lemma_flows_json(children, children.len(), enc);
            lemma_flows_round_trip(children, children.len(), enc, dec, ok);
            assert(children.take(children.len() as int) =~= children);
        },
        FlowV::Assign { set } => {
            let m = j->Object_0;
            lemma_key_index_is(m, "run"@, -1);
            lemma_key_index_is(m, "set"@, 0);
            lemma_bindings_json(set, set.len());
            lemma_bindings_round_trip(set, set.len());
            assert(set.take(set.len() as int) =~= set);
            assert(distinct_keys(bindings_json(set, set.len())));
        },
        FlowV::Command(l) => {
            assert(leaf_ok(ok, l));
        },
    }
}

/// A pure leaf with a serialized URL reads back as itself and is not
/// taken for anything but a leaf.
proof fn lemma_pure_leaf_round_trip(l: PureCommandV, dec: spec_fn(JsonV) -> Option<PureCommandV>)
    requires
        pure_leaf_stable(l),
    ensures
        pure_leaf_of(pure_leaf_json(l)) == Some(l),
        !(pure_leaf_json(l) is Array),
        branch_of(pure_leaf_json(l), dec) is None,
        pure_leaf_json(l) matches JsonV::Object(m) ==> assign_of(m) is None,
{
    lemma_keys_differ();
    match l {
        PureCommandV::PluginUrl(url) => {},
        PureCommandV::CommandIO { io } => {
            let m = pure_leaf_json(l)->Object_0;
            lemma_key_index_is(m, "io"@, 0);
            lemma_key_index_is(m, "run"@, -1);
            lemma_key_index_is(m, "set"@, -1);
        },
    }
}

/// A write leaf that is stable reads back as itself and is not taken for
/// anything but a leaf.
proof fn lemma_write_leaf_round_trip(l: WriteCommandV)
    requires
        write_leaf_stable(l),
    ensures
        leaf_round_trips(|x: WriteCommandV| write_leaf_json(x), |j: JsonV| write_leaf_of(j), l),
{
    lemma_keys_differ();
    match l {
        WriteCommandV::Pure(pure) => {
            lemma_pure_leaf_round_trip(pure, |j: JsonV| pure_leaf_of(j));
            match pure {
                PureCommandV::PluginUrl(url) => {},
                PureCommandV::CommandIO { io } => {
                    let m = pure_leaf_json(pure)->Object_0;
                    lemma_key_index_is(m, "run"@, -1);
                    lemma_key_index_is(m, "set"@, -1);
                },
            }
        },
        WriteCommandV::SimpleCommand(cmd) => {},
    }
}

/// A rule that is written and read is the same rule, as long as its
/// leaves are stable.
pub proof fn lemma_rule_round_trip(rule: RuleV)
    requires
        rule_stable(rule),
    ensures
        rule_of(rule_json(rule)) == Some(rule),
{
    lemma_keys_differ();
    lemma_on_rule_round_trip(rule.on);
    let m = rule_json(rule)->Object_0;
    lemma_key_index_is(m, "on"@, 0);
    match rule.some_cmd {
        SomeCommandV::Pure { cmd } => {
            lemma_key_index_is(m, "cmd"@, 1);
            let enc = |l: PureCommandV| pure_leaf_json(l);
            let dec = |j: JsonV| pure_leaf_of(j);
            let ok = |l: PureCommandV| pure_leaf_stable(l);
            assert forall|l: PureCommandV| #[trigger] leaf_ok(ok, l) implies leaf_round_trips(
                enc,
                dec,
                l,
            ) by {
                lemma_pure_leaf_round_trip(l, dec);
            }
            lemma_flow_round_trip(cmd, enc, dec, ok);
        },
        SomeCommandV::Write { write_cmd } => {
            lemma_key_index_is(m, "cmd"@, -1);
            lemma_key_index_is(m, "write_cmd"@, 1);
            let enc = |l: WriteCommandV| write_leaf_json(l);
            let dec = |j: JsonV| write_leaf_of(j);
            let ok = |l: WriteCommandV| write_leaf_stable(l);
            assert forall|l: WriteCommandV| #[trigger] leaf_ok(ok, l) implies leaf_round_trips(
                enc,
                dec,
                l,
            ) by {
                lemma_write_leaf_round_trip(l);
            }
            lemma_flow_round_trip(write_cmd, enc, dec, ok);
        },
    }
}

/// The array written for a list of rules holds one value for each.
proof fn lemma_rules_json(rules: Seq<RuleV>, n: nat)
    requires
        n <= rules.len(),
    ensures
        rules_json(rules, n).len() == n,
        forall|i: int| 0 <= i < n ==> rules_json(rules, n)[i] == rule_json(rules[i]),
    decreases n,
{
    if n > 0 {
        lemma_rules_json(rules, (n - 1) as nat);
    }
}

/// The first `n` values written for a list of rules read back as the first
/// `n` rules.
proof fn lemma_rules_round_trip(rules: Seq<RuleV>, n: nat)
    requires
        n <= rules.len(),
        forall|i: int| 0 <= i < rules.len() ==> rule_stable(#[trigger] rules[i]),
    ensures
        rules_of(rules_json(rules, rules.len()), n) == Some(rules.take(n as int)),
    decreases n,
{
    lemma_rules_json(rules, rules.len());
    if n == 0 {
        assert(rules.take(0) =~= Seq::empty());
    } else {
        lemma_rules_round_trip(rules, (n - 1) as nat);
        lemma_rule_round_trip(rules[n - 1]);
        assert(rules.take(n as int) =~= rules.take(n - 1).push(rules[n - 1]));
    }
}

/// A configuration that is written and read is the same configuration:
/// rules, matchers, commands and directories are all preserved. This holds
/// of every configuration whose plugin URLs are in serialized form and
/// whose shell commands are no URLs.
pub proof fn lemma_config_round_trip(config: ConfigV)
    requires
        config_stable(config),
    ensures
        config_of(config_json(config)) == Some(config),
{
    lemma_keys_differ();
    let m = config_json(config)->Object_0;
    lemma_key_index_is(m, "rules"@, 0);
    lemma_key_index_is(m, "cache_dir"@, 1);
    lemma_key_index_is(m, "socket_dir"@, 2);
    lemma_rules_json(config.rules, config.rules.len());
    lemma_rules_round_trip(config.rules, config.rules.len());
    assert(config.rules.take(config.rules.len() as int) =~= config.rules);
}

/// Whether a leaf that `dec` reads is one of which `ok` holds.
pub open spec fn reads_only<L>(dec: spec_fn(JsonV) -> Option<L>, ok: spec_fn(L) -> bool, j: JsonV) -> bool {
    dec(j) matches Some(l) ==> ok(l)
}

/// The trees read from the first `n` items of an array are as many as the
/// items, and each is read from the item in its place.
proof fn lemma_flows_of_parts<L>(items: Seq<JsonV>, n: nat, dec: spec_fn(JsonV) -> Option<L>)
    requires
        n <= items.len(),
        flows_of(items, n, dec) is Some,
    ensures
        flows_of(items, n, dec)->0.len() == n,
        forall|i: int|
            0 <= i < n ==> flow_of(items[i], dec) == Some(#[trigger] flows_of(items, n, dec)->0[i]),
    decreases n,
{
    if n > 0 {
        lemma_flows_of_parts(items, (n - 1) as nat, dec);
    }
}

/// What holds of every leaf that is read holds of every leaf of the first
/// `n` trees read from an array.
proof fn lemma_read_leaves_in<L>(
    items: Seq<JsonV>,
    n: nat,
    dec: spec_fn(JsonV) -> Option<L>,
    ok: spec_fn(L) -> bool,
)
    requires
        n <= items.len(),
        flows_of(items, items.len(), dec) is Some,
        forall|x: JsonV| #[trigger] reads_only(dec, ok, x),
    ensures
        well_formed_in(flows_of(items, items.len(), dec)->0, n, ok),
    decreases items, n,
{
    if n > 0 {
        lemma_read_leaves_in(items, (n - 1) as nat, dec, ok);
        lemma_flows_of_parts(items, items.len(), dec);
        let trees = flows_of(items, items.len(), dec)->0;
        assert(flow_of(items[n - 1], dec) == Some(trees[n - 1]));
        lemma_read_leaves(items[n - 1], dec, ok);
    }
}

/// A tree that is read is well formed: what holds of every leaf that is
/// read holds of every leaf of the tree, and no assignment node of it
/// binds a key twice.
pub proof fn lemma_read_leaves<L>(j: JsonV, dec: spec_fn(JsonV) -> Option<L>, ok: spec_fn(L) -> bool)
    requires
        flow_of(j, dec) is Some,
        forall|x: JsonV| #[trigger] reads_only(dec, ok, x),
    ensures
        well_formed(flow_of(j, dec)->0, ok),
    decreases j, 1nat,
{
    match branch_of(j, dec) {
        Some(branch) => {
            let m = j->Object_0;
            let r = key_index(m, "run"@);
            let t = key_index(m, "on_true"@);
            let f = key_index(m, "on_false"@);
            lemma_read_leaves(m[r].value, dec, ok);
            lemma_read_leaves(m[t].value, dec, ok);
            lemma_read_leaves(m[f].value, dec, ok);
        },
        None => match j {
            JsonV::Array(items) => {
                lemma_flows_of_parts(items, items.len(), dec);
                lemma_read_leaves_in(items, items.len(), dec, ok);
            },
            JsonV::Object(m) => {
                if assign_of(m) is None {
                    assert(reads_only(dec, ok, j));
                } else {
                    let set = m[key_index(m, "set"@)].value->Object_0;
                    lemma_bindings_keys(set, set.len());
                }
            },
            _ => {
                assert(reads_only(dec, ok, j));
            },
        },
    }
}

/// What holds of every leaf of the first `n` trees of a list under two
/// conditions holds of them under a third that the two imply.
proof fn lemma_leaves_in_both<L>(
    children: Seq<FlowV<L>>,
    n: nat,
    first: spec_fn(L) -> bool,
    second: spec_fn(L) -> bool,
    both: spec_fn(L) -> bool,
)
    requires
        n <= children.len(),
        well_formed_in(children, n, first),
        well_formed_in(children, n, second),
        forall|l: L| #[trigger] leaf_ok(first, l) && leaf_ok(second, l) ==> leaf_ok(both, l),
    ensures
        well_formed_in(children, n, both),
    decreases children, n,
{
    if n > 0 {
        lemma_leaves_in_both(children, (n - 1) as nat, first, second, both);
        lemma_leaves_both(children[n - 1], first, second, both);
    }
}

/// What holds of every leaf of a tree under two conditions holds of them
/// under a third that the two imply.
proof fn lemma_leaves_both<L>(
    flow: FlowV<L>,
    first: spec_fn(L) -> bool,
    second: spec_fn(L) -> bool,
    both: spec_fn(L) -> bool,
)
    requires
        well_formed(flow, first),
        well_formed(flow, second),
        forall|l: L| #[trigger] leaf_ok(first, l) && leaf_ok(second, l) ==> leaf_ok(both, l),
    ensures
        well_formed(flow, both),
    decreases flow, 0nat,
{
    match flow {
        FlowV::If { run, cond, on_true, on_false } => {
            lemma_leaves_both(*run, first, second, both);
            lemma_leaves_both(*on_true, first, second, both);
            lemma_leaves_both(*on_false, first, second, both);
        },
        FlowV::Sequential(children) => {
            lemma_leaves_in_both(children, children.len(), first, second, both);
        },
        FlowV::Assign { set } => {},
        FlowV::Command(l) => {
            assert(leaf_ok(first, l) && leaf_ok(second, l));
            assert(leaf_ok(both, l));
        },
    }
}

/// Whether the plugin URL of a write leaf, if it has one, is in serialized
/// form.
pub open spec fn write_leaf_url_stable(leaf: WriteCommandV) -> bool {
    leaf matches WriteCommandV::Pure(pure) ==> pure_leaf_stable(pure)
}

/// Whether a write leaf that is a shell command is no URL.
pub open spec fn shell_is_no_url(leaf: WriteCommandV) -> bool {
    leaf matches WriteCommandV::SimpleCommand(cmd) ==> url_text(cmd) is None
}

/// Whether every plugin URL of a rule is in serialized form.
pub open spec fn rule_urls_stable(rule: RuleV) -> bool {
    match rule.some_cmd {
        SomeCommandV::Pure { cmd } => well_formed(cmd, |l: PureCommandV| pure_leaf_stable(l)),
        SomeCommandV::Write { write_cmd } => well_formed(
            write_cmd,
            |l: WriteCommandV| write_leaf_url_stable(l),
        ),
    }
}

/// Whether every plugin URL of a configuration is in serialized form:
/// whether parsing it gives back the same URL.
pub open spec fn urls_stable(config: ConfigV) -> bool {
    forall|i: int| 0 <= i < config.rules.len() ==> rule_urls_stable(#[trigger] config.rules[i])
}

/// A rule that was read has no shell command that is a URL: its leaves
/// are stable as soon as its plugin URLs are.
proof fn lemma_read_rule_stable(j: JsonV)
    requires
        rule_of(j) is Some,
        rule_urls_stable(rule_of(j)->0),
    ensures
        rule_stable(rule_of(j)->0),
{
    let rule = rule_of(j)->0;
    let m = j->Object_0;
    match rule.some_cmd {
        SomeCommandV::Pure { cmd } => {},
        SomeCommandV::Write { write_cmd } => {
            let w = key_index(m, "write_cmd"@);
            let dec = |x: JsonV| write_leaf_of(x);
            let no_url = |l: WriteCommandV| shell_is_no_url(l);
            let url_ok = |l: WriteCommandV| write_leaf_url_stable(l);
            let stable = |l: WriteCommandV| write_leaf_stable(l);
            assert forall|x: JsonV| #[trigger] reads_only(dec, no_url, x) by {}
            lemma_read_leaves(m[w].value, dec, no_url);
            assert forall|l: WriteCommandV| #[trigger]
                leaf_ok(url_ok, l) && leaf_ok(no_url, l) implies leaf_ok(stable, l) by {}
            lemma_leaves_both(write_cmd, url_ok, no_url, stable);
        },
    }
}

/// The rules read from the first `n` items of an array are as many as the
/// items, and each is read from the item in its place.
proof fn lemma_rules_of_parts(items: Seq<JsonV>, n: nat)
    requires
        n <= items.len(),
        rules_of(items, n) is Some,
    ensures
        rules_of(items, n)->0.len() == n,
        forall|i: int| 0 <= i < n ==> rule_of(items[i]) == Some(#[trigger] rules_of(items, n)->0[i]),
    decreases n,
{
    if n > 0 {
        lemma_rules_of_parts(items, (n - 1) as nat);
    }
}

/// Writing and reading a configuration that was read gives the same
/// configuration, as long as each of its plugin URLs is in serialized
/// form. That no shell command of it is a URL follows from its having
/// been read.
pub proof fn lemma_loaded_config_round_trip(j: JsonV)
    requires
        config_of(j) is Some,
        urls_stable(config_of(j)->0),
    ensures
        config_of(config_json(config_of(j)->0)) == config_of(j),
{
    let config = config_of(j)->0;
    let m = j->Object_0;
    let at = key_index(m, "rules"@);
    let items = m[at].value->Array_0;
    lemma_rules_of_parts(items, items.len());
    assert forall|i: int| 0 <= i < config.rules.len() implies rule_stable(
        #[trigger] config.rules[i],
    ) by {
        assert(rule_of(items[i]) == Some(config.rules[i]));
        lemma_read_rule_stable(items[i]);
    }
    lemma_config_round_trip(config);
}

/// An object made of `members`.
fn object_of(members: Vec<(String, Json)>) -> (r: Json)
    ensures
        r@ == JsonV::Object(entries_view(members@)),
{
    let r = Json::Object(members);
    proof {
        lemma_view_of_parts(r);
    }
    r
}

/// An array made of `items`.
fn array_of(items: Vec<Json>) -> (r: Json)
    ensures
        r@ == JsonV::Array(items_view(items@)),
{
    let r = Json::Array(items);
    proof {
        lemma_view_of_parts(r);
    }
    r
}

/// Writes a matcher.
#[verifier::loop_isolation(false)]
pub fn encode_on_rule(rule: &OnRule) -> (r: Json)
    ensures
        r@ == on_rule_json(rule@),
    decreases rule,
{
    match rule {
        OnRule::Extension(ext) => Json::Str(ext.clone()),
        OnRule::Or(rules) => {
            proof {
                lemma_or_view(*rule);
            }
            let ghost all = on_rules_view(rules@);
            let mut items: Vec<Json> = Vec::new();
            let mut i: usize = 0;
            assert(items_view(items@) =~= on_rules_json(all, 0));
            while i < rules.len()
                invariant
                    i <= rules.len(),
                    all == on_rules_view(rules@),
                    *rule == OnRule::Or(*rules),
                    items_view(items@) == on_rules_json(all, i as nat),
                decreases rules.len() - i,
            {
                let ghost before = items_view(items@);
                let item = encode_on_rule(&rules[i]);
                items.push(item);
                assert(items_view(items@) =~= before.push(on_rule_json(all[i as int])));
                i += 1;
            }
            array_of(items)
        },
    }
}

/// Writes a pure leaf.
pub fn encode_pure_leaf(leaf: &PureCommand) -> (r: Json)
    ensures
        r@ == pure_leaf_json(leaf@),
{
    match leaf {
        PureCommand::PluginUrl(url) => Json::Str(url.clone()),
        PureCommand::CommandIO { io } => {
            let mut members: Vec<(String, Json)> = Vec::new();
            members.push(("io".to_owned(), Json::Str(io.clone())));
            assert(entries_view(members@) =~= seq![member("io"@, JsonV::Str(io@))]);
            object_of(members)
        },
    }
}

/// Writes a write leaf.
pub fn encode_write_leaf(leaf: &WriteCommand) -> (r: Json)
    ensures
        r@ == write_leaf_json(leaf@),
{
    match leaf {
        WriteCommand::Pure(pure) => encode_pure_leaf(pure),
        WriteCommand::SimpleCommand(cmd) => Json::Str(cmd.clone()),
    }
}

/// Writes the assignments of a node as the members of a `set` object.
fn encode_bindings(set: &Vec<(String, String)>) -> (r: Vec<(String, Json)>)
    ensures
        entries_view(r@) == bindings_json(bindings_view(set@), set.len() as nat),
{
    let ghost all = bindings_view(set@);
    let mut members: Vec<(String, Json)> = Vec::new();
    let mut i: usize = 0;
    assert(entries_view(members@) =~= bindings_json(all, 0));
    while i < set.len()
        invariant
            i <= set.len(),
            all == bindings_view(set@),
            entries_view(members@) == bindings_json(all, i as nat),
        decreases set.len() - i,
    {
        let ghost before = entries_view(members@);
        members.push((set[i].0.clone(), Json::Str(set[i].1.clone())));
        assert(entries_view(members@) =~= before.push(
            member(all[i as int].key, JsonV::Str(all[i as int].expr)),
        ));
        i += 1;
    }
    members
}

/// Writes a command tree, with `leaf` writing the leaves.
#[verifier::loop_isolation(false)]
fn encode_flow<T: View, F: Fn(&T) -> Json>(
    flow: &CommandWithControlFlow<T>,
    leaf: &F,
    Ghost(spec_leaf): Ghost<spec_fn(T::V) -> JsonV>,
) -> (r: Json)
    requires
        forall|x: &T| leaf.requires((x,)),
        forall|x: &T, y: Json| leaf.ensures((x,), y) ==> y@ == spec_leaf(x@),
    ensures
        r@ == flow_json(flow@, spec_leaf),
    decreases flow,
{
    match flow {
        CommandWithControlFlow::If { run, cond, on_true, on_false } => {
            let run_json = encode_flow(&**run, leaf, Ghost(spec_leaf));
            let true_json = encode_flow(&**on_true, leaf, Ghost(spec_leaf));
            let false_json = encode_flow(&**on_false, leaf, Ghost(spec_leaf));
            let mut members: Vec<(String, Json)> = Vec::new();
            members.push(("run".to_owned(), run_json));
            members.push(("cond".to_owned(), Json::Str(cond.clone())));
            members.push(("on_true".to_owned(), true_json));
            members.push(("on_false".to_owned(), false_json));
            assert(entries_view(members@) =~= flow_json(flow@, spec_leaf)->Object_0);
            object_of(members)
        },
        CommandWithControlFlow::Sequential(children) => {
            proof {
                lemma_sequence_view(*flow);
            }
            let ghost all = children_view(children@);
            let mut items: Vec<Json> = Vec::new();
            let mut i: usize = 0;
            assert(items_view(items@) =~= flows_json(all, 0, spec_leaf));
            while i < children.len()
                invariant
                    i <= children.len(),
                    all == children_view(children@),
                    *flow == CommandWithControlFlow::Sequential(*children),
                    forall|x: &T| leaf.requires((x,)),
                    forall|x: &T, y: Json| leaf.ensures((x,), y) ==> y@ == spec_leaf(x@),
                    items_view(items@) == flows_json(all, i as nat, spec_leaf),
                decreases children.len() - i,
            {
                let ghost before = items_view(items@);
                let item = encode_flow(&children[i], leaf, Ghost(spec_leaf));
                items.push(item);
                assert(items_view(items@) =~= before.push(flow_json(all[i as int], spec_leaf)));
                i += 1;
            }
            array_of(items)
        },
        CommandWithControlFlow::Assign { set } => {
            let inner = object_of(encode_bindings(set));
            let mut members: Vec<(String, Json)> = Vec::new();
            members.push(("set".to_owned(), inner));
            assert(entries_view(members@) =~= flow_json(flow@, spec_leaf)->Object_0);
            object_of(members)
        },
        CommandWithControlFlow::Command(l) => leaf(l),
    }
}

/// Writes a rule.
pub fn encode_rule(rule: &Rule) -> (r: Json)
    ensures
        r@ == rule_json(rule@),
{
    let mut members: Vec<(String, Json)> = Vec::new();
    members.push(("on".to_owned(), encode_on_rule(&rule.on)));
    match &rule.some_cmd {
        SomeCommand::Pure { cmd } => {
            let tree = encode_flow(cmd, &encode_pure_leaf, Ghost(|l: PureCommandV| pure_leaf_json(l)));
            members.push(("cmd".to_owned(), tree));
        },
        SomeCommand::Write { write_cmd } => {
            let tree = encode_flow(
                write_cmd,
                &encode_write_leaf,
                Ghost(|l: WriteCommandV| write_leaf_json(l)),
            );
            members.push(("write_cmd".to_owned(), tree));
        },
    }
    assert(entries_view(members@) =~= rule_json(rule@)->Object_0);
    object_of(members)
}

/// Writes an optional directory.
fn encode_dir(dir: &Option<String>) -> (r: Json)
    ensures
        r@ == dir_json(opt_view(*dir)),
{
    match dir {
        Some(d) => Json::Str(d.clone()),
        None => Json::Null,
    }
}

impl Config {
    /// Writes the configuration as a JSON value.
    pub fn to_json(&self) -> (r: Json)
        ensures
            r@ == config_json(self@),
    {
        let ghost all = self@.rules;
        let mut items: Vec<Json> = Vec::new();
        let mut i: usize = 0;
        assert(items_view(items@) =~= rules_json(all, 0));
        while i < self.rules.len()
            invariant
                i <= self.rules.len(),
                all == self@.rules,
                items_view(items@) == rules_json(all, i as nat),
            decreases self.rules.len() - i,
        {
            let ghost before = items_view(items@);
            items.push(encode_rule(&self.rules[i]));
            assert(items_view(items@) =~= before.push(rule_json(all[i as int])));
            i += 1;
        }
        let mut members: Vec<(String, Json)> = Vec::new();
        members.push(("rules".to_owned(), array_of(items)));
        members.push(("cache_dir".to_owned(), encode_dir(&self.cache_dir)));
        members.push(("socket_dir".to_owned(), encode_dir(&self.socket_dir)));
        assert(entries_view(members@) =~= config_json(self@)->Object_0);
        object_of(members)
    }
}

/// Whether a pure leaf reads back as itself.
pub fn pure_leaf_is_stable(leaf: &PureCommand) -> (r: bool)
    ensures
        r == pure_leaf_stable(leaf@),
{
    match leaf {
        PureCommand::PluginUrl(url) => match parse_url(url.as_str()) {
            Some(again) => str_eq(again.as_str(), url.as_str()),
            None => false,
        },
        PureCommand::CommandIO { io: _ } => true,
    }
}

/// Whether a write leaf reads back as itself.
pub fn write_leaf_is_stable(leaf: &WriteCommand) -> (r: bool)
    ensures
        r == write_leaf_stable(leaf@),
{
    match leaf {
        WriteCommand::Pure(pure) => pure_leaf_is_stable(pure),
        WriteCommand::SimpleCommand(cmd) => match parse_url(cmd.as_str()) {
            Some(_) => false,
            None => true,
        },
    }
}

/// Whether `flow` is well formed, with `check` as what must hold of a
/// leaf.
#[verifier::loop_isolation(false)]
fn leaves_hold<T: View, F: Fn(&T) -> bool>(
    flow: &CommandWithControlFlow<T>,
    check: &F,
    Ghost(ok): Ghost<spec_fn(T::V) -> bool>,
) -> (r: bool)
    requires
        forall|x: &T| check.requires((x,)),
        forall|x: &T, y: bool| check.ensures((x,), y) ==> y == ok(x@),
    ensures
        r == well_formed(flow@, ok),
    decreases flow,
{
    match flow {
        CommandWithControlFlow::If { run, cond: _, on_true, on_false } => {
            leaves_hold(&**run, check, Ghost(ok)) && leaves_hold(&**on_true, check, Ghost(ok))
                && leaves_hold(&**on_false, check, Ghost(ok))
        },
        CommandWithControlFlow::Sequential(children) => {
            proof {
                lemma_sequence_view(*flow);
            }
            let ghost all = children_view(children@);
            let mut i: usize = 0;
            while i < children.len()
                invariant
                    i <= children.len(),
                    well_formed_in(all, i as nat, ok),
                decreases children.len() - i,
            {
                if !leaves_hold(&children[i], check, Ghost(ok)) {
                    proof {
                        lemma_leaves_fail(all, (i + 1) as nat, all.len(), ok);
                    }
                    return false;
                }
                i += 1;
            }
            true
        },
        CommandWithControlFlow::Assign { set } => binds_once(set),
        CommandWithControlFlow::Command(l) => check(l),
    }
}

/// Once a prefix of a list of trees holds a leaf of which `ok` fails, so
/// does every longer prefix.
proof fn lemma_leaves_fail<L>(children: Seq<FlowV<L>>, n: nat, m: nat, ok: spec_fn(L) -> bool)
    requires
        n <= m <= children.len(),
        !well_formed_in(children, n, ok),
    ensures
        !well_formed_in(children, m, ok),
    decreases m - n,
{
    if n < m {
        lemma_leaves_fail(children, n, (m - 1) as nat, ok);
    }
}

/// Whether a rule reads back as itself: every leaf of it does, and no
/// assignment node of it binds a key twice.
pub fn rule_is_stable(rule: &Rule) -> (r: bool)
    ensures
        r == rule_stable(rule@),
{
    match &rule.some_cmd {
        SomeCommand::Pure { cmd } => leaves_hold(
            cmd,
            &pure_leaf_is_stable,
            Ghost(|l: PureCommandV| pure_leaf_stable(l)),
        ),
        SomeCommand::Write { write_cmd } => leaves_hold(
            write_cmd,
            &write_leaf_is_stable,
            Ghost(|l: WriteCommandV| write_leaf_stable(l)),
        ),
    }
}

impl Config {
    /// Whether the configuration reads back as itself once it is written:
    /// whether every plugin URL in it is in serialized form and no shell
    /// command in it is a URL.
    pub fn round_trips(&self) -> (r: bool)
        ensures
            r == config_stable(self@),
            r ==> config_of(config_json(self@)) == Some(self@),
    {
        let mut i: usize = 0;
        while i < self.rules.len()
            invariant
                i <= self.rules.len(),
                forall|k: int| 0 <= k < i ==> rule_stable(#[trigger] self@.rules[k]),
            decreases self.rules.len() - i,
        {
            if !rule_is_stable(&self.rules[i]) {
                assert(!rule_stable(self@.rules[i as int]));
                return false;
            }
            i += 1;
        }
        proof {
            lemma_config_round_trip(self@);
        }
        true
    }
}

} // verus!
