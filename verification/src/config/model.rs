//! The typed rule set and rule matching.

use crate::text::{push_str, str_chars, str_eq, string_from_chars};
use vstd::prelude::*;

verus! {

/// The value of an [`OnRule`].
pub enum OnRuleV {
    Extension(Seq<char>),
    Or(Seq<OnRuleV>),
}

/// What a rule matches on: one extension, written with its dot, or any of
/// several matchers.
#[derive(Debug)]
pub enum OnRule {
    Extension(String),
    Or(Vec<OnRule>),
}

impl View for OnRule {
    type V = OnRuleV;

    open spec fn view(&self) -> OnRuleV
        decreases self,
    {
        match self {
            OnRule::Extension(ext) => OnRuleV::Extension(ext@),
            OnRule::Or(rules) => OnRuleV::Or(
                Seq::new(
                    rules.len() as nat,
                    |i: int|
                        if 0 <= i < rules.len() {
                            rules[i].view()
                        } else {
                            OnRuleV::Or(Seq::empty())
                        },
                ),
            ),
        }
    }
}

/// The place of the last `c` in `s`, or -1 where `s` holds none.
pub open spec fn last_index_of(s: Seq<char>, c: char) -> int
    decreases s.len(),
{
    if s.len() == 0 {
        -1
    } else if s.last() == c {
        s.len() - 1
    } else {
        last_index_of(s.drop_last(), c)
    }
}

/// A path written with `/`, without what ends it and names nothing:
/// separators, and components that are a single dot.
pub open spec fn trimmed_path(path: Seq<char>) -> Seq<char>
    decreases path.len(),
{
    if path.len() > 0 && path.last() == '/' {
        trimmed_path(path.drop_last())
    } else if path.len() >= 2 && path.last() == '.' && path[path.len() - 2] == '/' {
        trimmed_path(path.take(path.len() - 2))
    } else {
        path
    }
}

/// The final component of a path written with `/`: what follows the last
/// separator, once the separators and single dots that end the path are
/// taken off.
pub open spec fn file_name_of(path: Seq<char>) -> Seq<char> {
    let trimmed = trimmed_path(path);
    trimmed.skip(last_index_of(trimmed, '/') + 1)
}

/// The extension of a path written with `/`, without its dot: what
/// follows the last dot of the final component. There is none where the
/// component holds no dot, where its only dot is its first character, and
/// for the component `..`.
pub open spec fn extension_of(path: Seq<char>) -> Option<Seq<char>> {
    let name = file_name_of(path);
    let dot = last_index_of(name, '.');
    if dot <= 0 || name == seq!['.', '.'] {
        None
    } else {
        Some(name.skip(dot + 1))
    }
}

impl OnRuleV {
    /// Whether the matcher accepts a path with the extension `ext`: an
    /// extension rule accepts the extension that, with a dot in front, is
    /// the rule's own text, letter for letter; a list accepts what any of
    /// its members accepts.
    pub open spec fn accepts(self, ext: Option<Seq<char>>) -> bool
        decreases self,
    {
        match self {
            OnRuleV::Extension(rule) => ext is Some && rule == seq!['.'] + ext->0,
            OnRuleV::Or(rules) => exists|i: int|
                0 <= i < rules.len() && (#[trigger] rules[i]).accepts(ext),
        }
    }

    /// Whether the matcher accepts `path`.
    pub open spec fn matches(self, path: Seq<char>) -> bool {
        self.accepts(extension_of(path))
    }
}

/// The place of the last `c` in `chars`, if there is one.
pub fn find_last(chars: &Vec<char>, c: char) -> (r: Option<usize>)
    ensures
        match r {
            Some(i) => last_index_of(chars@, c) == i && i < chars.len(),
            None => last_index_of(chars@, c) == -1,
        },
{
    let mut i: usize = chars.len();
    assert(chars@.take(i as int) =~= chars@);
    while i > 0
        invariant
            i <= chars.len(),
            last_index_of(chars@, c) == last_index_of(chars@.take(i as int), c),
        decreases i,
    {
        if chars[i - 1] == c {
            return Some(i - 1);
        }
        assert(chars@.take(i as int).drop_last() =~= chars@.take(i - 1));
        i -= 1;
    }
    None
}

/// The characters of `chars` from `from` on.
pub fn tail_from(chars: &Vec<char>, from: usize) -> (r: Vec<char>)
    requires
        from <= chars.len(),
    ensures
        r@ == chars@.skip(from as int),
{
    let mut out: Vec<char> = Vec::new();
    let mut i: usize = from;
    while i < chars.len()
        invariant
            from <= i <= chars.len(),
            out@ == chars@.subrange(from as int, i as int),
        decreases chars.len() - i,
    {
        out.push(chars[i]);
        assert(chars@.subrange(from as int, i + 1) =~= chars@.subrange(from as int, i as int).push(
            chars[i as int],
        ));
        i += 1;
    }
    assert(chars@.subrange(from as int, chars.len() as int) =~= chars@.skip(from as int));
    out
}

/// The characters of `chars` without the separators and single dots that
/// end the path they spell.
pub fn trim_path(chars: &Vec<char>) -> (r: Vec<char>)
    ensures
        r@ == trimmed_path(chars@),
{
    let mut end: usize = chars.len();
    assert(chars@.take(end as int) =~= chars@);
    loop
        invariant
            end <= chars.len(),
            trimmed_path(chars@) == trimmed_path(chars@.take(end as int)),
        ensures
            end <= chars.len(),
            trimmed_path(chars@) == chars@.take(end as int),
        decreases end,
    {
        let ghost head = chars@.take(end as int);
        if end > 0 && chars[end - 1] == '/' {
            assert(head.drop_last() =~= chars@.take(end - 1));
            end -= 1;
        } else if end >= 2 && chars[end - 1] == '.' && chars[end - 2] == '/' {
            assert(head.take(head.len() - 2) =~= chars@.take(end - 2));
            end -= 2;
        } else {
            break ;
        }
    }
    let mut out: Vec<char> = Vec::new();
    let mut i: usize = 0;
    while i < end
        invariant
            i <= end <= chars.len(),
            out@ == chars@.take(i as int),
        decreases end - i,
    {
        out.push(chars[i]);
        assert(chars@.take(i + 1) =~= chars@.take(i as int).push(chars[i as int]));
        i += 1;
    }
    out
}

/// The extension of `path`, without its dot.
pub fn path_extension(path: &str) -> (r: Option<String>)
    ensures
        match r {
            Some(e) => extension_of(path@) == Some(e@),
            None => extension_of(path@) is None,
        },
{
    let chars = trim_path(&str_chars(path));
    let start = match find_last(&chars, '/') {
        Some(i) => i + 1,
        None => 0,
    };
    let name = tail_from(&chars, start);
    if name.len() == 2 && name[0] == '.' && name[1] == '.' {
        assert(name@ =~= seq!['.', '.']);
        return None;
    }
    match find_last(&name, '.') {
        Some(dot) => {
            if dot == 0 {
                None
            } else {
                let ext = tail_from(&name, dot + 1);
                Some(string_from_chars(&ext))
            }
        },
        None => None,
    }
}

impl OnRule {
    /// Whether the matcher accepts a path whose extension is `ext`.
    pub fn accepts(&self, ext: &Option<String>) -> (r: bool)
        ensures
            r == self@.accepts(
                match ext {
                    Some(e) => Some(e@),
                    None => None,
                },
            ),
        decreases self,
    {
        match self {
            OnRule::Extension(rule) => match ext {
                Some(e) => {
                    let mut dotted: Vec<char> = Vec::new();
                    dotted.push('.');
                    push_str(&mut dotted, e.as_str());
                    let rule_chars = str_chars(rule.as_str());
                    assert(dotted@ =~= seq!['.'] + e@);
                    chars_eq(&rule_chars, &dotted)
                },
                None => false,
            },
            OnRule::Or(rules) => {
                let ghost wanted = match ext {
                    Some(e) => Some(e@),
                    None => None,
                };
                let mut i: usize = 0;
                while i < rules.len()
                    invariant
                        i <= rules.len(),
                        *self == OnRule::Or(*rules),
                        wanted == (match ext {
                            Some(e) => Some(e@),
                            None => None,
                        }),
                        forall|k: int| 0 <= k < i ==> !(#[trigger] self@->Or_0[k]).accepts(wanted),
                    decreases rules.len() - i,
                {
                    if rules[i].accepts(ext) {
                        assert(self@->Or_0[i as int] == rules[i as int]@);
                        return true;
                    }
                    i += 1;
                }
                false
            },
        }
    }

    /// Whether the matcher accepts `target_path`.
    pub fn on_match(&self, target_path: &str) -> (r: bool)
        ensures
            r == self@.matches(target_path@),
    {
        let ext = path_extension(target_path);
        self.accepts(&ext)
    }
}

/// Whether two character sequences are the same.
pub fn chars_eq(a: &Vec<char>, b: &Vec<char>) -> (r: bool)
    ensures
        r == (a@ == b@),
{
    if a.len() != b.len() {
        return false;
    }
    let mut i: usize = 0;
    while i < a.len()
        invariant
            i <= a.len(),
            a.len() == b.len(),
            forall|k: int| 0 <= k < i ==> a[k] == b[k],
        decreases a.len() - i,
    {
        if a[i] != b[i] {
            return false;
        }
        i += 1;
    }
    assert(a@ =~= b@);
    true
}

/// The value of a [`PureCommand`].
pub enum PureCommandV {
    PluginUrl(Seq<char>),
    CommandIO { io: Seq<char> },
}

/// A leaf that returns formatted text and leaves the file system alone.
#[derive(Debug)]
pub enum PureCommand {
    /// A plugin, by the URL it is loaded from.
    PluginUrl(String),
    /// A shell command that reads the content on its standard input and
    /// writes the formatted text to its standard output.
    CommandIO { io: String },
}

impl View for PureCommand {
    type V = PureCommandV;

    open spec fn view(&self) -> PureCommandV {
        match self {
            PureCommand::PluginUrl(url) => PureCommandV::PluginUrl(url@),
            PureCommand::CommandIO { io } => PureCommandV::CommandIO { io: io@ },
        }
    }
}

/// The value of a [`WriteCommand`].
pub enum WriteCommandV {
    Pure(PureCommandV),
    SimpleCommand(Seq<char>),
}

/// A leaf that may write the file.
#[derive(Debug)]
pub enum WriteCommand {
    /// A pure leaf whose result is written to the target.
    Pure(PureCommand),
    /// A shell command that is expected to edit the target in place.
    SimpleCommand(String),
}

impl View for WriteCommand {
    type V = WriteCommandV;

    open spec fn view(&self) -> WriteCommandV {
        match self {
            WriteCommand::Pure(pure) => WriteCommandV::Pure(pure@),
            WriteCommand::SimpleCommand(cmd) => WriteCommandV::SimpleCommand(cmd@),
        }
    }
}

/// One assignment of an `Assign` node: the key and the expression whose value
/// it takes.
pub struct BindingV {
    pub key: Seq<char>,
    pub expr: Seq<char>,
}

/// The value of a [`CommandWithControlFlow`] over leaves of value `L`.
pub enum FlowV<L> {
    If { run: Box<FlowV<L>>, cond: Seq<char>, on_true: Box<FlowV<L>>, on_false: Box<FlowV<L>> },
    Sequential(Seq<FlowV<L>>),
    Assign { set: Seq<BindingV> },
    Command(L),
}

/// A tree of control-flow nodes over leaves of type `T`.
#[derive(Debug)]
pub enum CommandWithControlFlow<T> {
    /// Evaluate `run`, then `cond` against its result, then one branch.
    If {
        run: Box<CommandWithControlFlow<T>>,
        cond: String,
        on_true: Box<CommandWithControlFlow<T>>,
        on_false: Box<CommandWithControlFlow<T>>,
    },
    /// Evaluate each child on the result of the one before.
    Sequential(Vec<CommandWithControlFlow<T>>),
    /// Assign the value of each expression to its key, in order.
    Assign { set: Vec<(String, String)> },
    /// A leaf.
    Command(T),
}

/// Whether a list of assignments binds no key twice. A node that was read
/// from a configuration binds none twice.
pub open spec fn keys_once(set: Seq<BindingV>) -> bool {
    forall|i: int, j: int| 0 <= i < j < set.len() ==> set[i].key != set[j].key
}

/// Whether the assignments `set` bind no key twice.
pub fn binds_once(set: &Vec<(String, String)>) -> (r: bool)
    ensures
        r == keys_once(bindings_view(set@)),
{
    let mut j: usize = 0;
    while j < set.len()
        invariant
            j <= set.len(),
            forall|a: int, b: int| 0 <= a < b < j ==> set[a].0@ != set[b].0@,
        decreases set.len() - j,
    {
        let mut i: usize = 0;
        while i < j
            invariant
                i <= j < set.len(),
                forall|a: int| 0 <= a < i ==> set[a].0@ != set[j as int].0@,
            decreases j - i,
        {
            if str_eq(set[i].0.as_str(), set[j].0.as_str()) {
                assert(bindings_view(set@)[i as int].key == bindings_view(set@)[j as int].key);
                return false;
            }
            i += 1;
        }
        j += 1;
    }
    true
}

/// The assignments of an `Assign` node, each by its value.
pub open spec fn bindings_view(set: Seq<(String, String)>) -> Seq<BindingV> {
    Seq::new(set.len(), |i: int| BindingV { key: set[i].0@, expr: set[i].1@ })
}

/// The value of a tree: the value of each of its nodes and leaves.
pub open spec fn flow_view<T: View>(flow: CommandWithControlFlow<T>) -> FlowV<T::V>
    decreases flow,
{
    match flow {
        CommandWithControlFlow::If { run, cond, on_true, on_false } => FlowV::If {
            run: Box::new(flow_view(*run)),
            cond: cond@,
            on_true: Box::new(flow_view(*on_true)),
            on_false: Box::new(flow_view(*on_false)),
        },
        CommandWithControlFlow::Sequential(children) => FlowV::Sequential(
            Seq::new(
                children.len() as nat,
                |i: int|
                    if 0 <= i < children.len() {
                        flow_view(children[i])
                    } else {
                        FlowV::Sequential(Seq::empty())
                    },
            ),
        ),
        CommandWithControlFlow::Assign { set } => FlowV::Assign { set: bindings_view(set@) },
        CommandWithControlFlow::Command(leaf) => FlowV::Command(leaf@),
    }
}

impl<T: View> View for CommandWithControlFlow<T> {
    type V = FlowV<T::V>;

    open spec fn view(&self) -> FlowV<T::V> {
        flow_view(*self)
    }
}

/// The value of a [`SomeCommand`].
pub enum SomeCommandV {
    Pure { cmd: FlowV<PureCommandV> },
    Write { write_cmd: FlowV<WriteCommandV> },
}

/// The command bundle of a rule: a pure tree or a write tree.
#[derive(Debug)]
pub enum SomeCommand {
    Pure { cmd: CommandWithControlFlow<PureCommand> },
    Write { write_cmd: CommandWithControlFlow<WriteCommand> },
}

impl View for SomeCommand {
    type V = SomeCommandV;

    open spec fn view(&self) -> SomeCommandV {
        match self {
            SomeCommand::Pure { cmd } => SomeCommandV::Pure { cmd: cmd@ },
            SomeCommand::Write { write_cmd } => SomeCommandV::Write { write_cmd: write_cmd@ },
        }
    }
}

impl SomeCommand {
    /// Whether the bundle is a pure tree.
    pub fn is_pure(&self) -> (r: bool)
        ensures
            r == (self@ is Pure),
    {
        match self {
            SomeCommand::Pure { .. } => true,
            _ => false,
        }
    }
}

/// The value of a [`Rule`].
pub struct RuleV {
    pub on: OnRuleV,
    pub some_cmd: SomeCommandV,
}

/// A matcher and the command bundle that formats what it matches.
#[derive(Debug)]
pub struct Rule {
    pub on: OnRule,
    pub some_cmd: SomeCommand,
}

impl View for Rule {
    type V = RuleV;

    open spec fn view(&self) -> RuleV {
        RuleV { on: self.on@, some_cmd: self.some_cmd@ }
    }
}

impl RuleV {
    /// Whether the rule applies to `path`: its matcher accepts the path
    /// and, where only pure rules are wanted, its bundle is pure.
    pub open spec fn applies(self, path: Seq<char>, force_pure: bool) -> bool {
        (force_pure ==> self.some_cmd is Pure) && self.on.matches(path)
    }
}

impl Rule {
    /// Whether the rule applies to `target_path`; with `force_pure` a rule
    /// with a write bundle never does.
    pub fn on_match(&self, target_path: &str, force_pure: bool) -> (r: bool)
        ensures
            r == self@.applies(target_path@, force_pure),
    {
        if force_pure && !self.some_cmd.is_pure() {
            return false;
        }
        self.on.on_match(target_path)
    }
}

/// The value of a [`Config`].
pub struct ConfigV {
    pub rules: Seq<RuleV>,
    pub cache_dir: Option<Seq<char>>,
    pub socket_dir: Option<Seq<char>>,
}

/// The rule set, in declaration order, and the two directories it may name.
#[derive(Debug)]
pub struct Config {
    pub rules: Vec<Rule>,
    pub cache_dir: Option<String>,
    pub socket_dir: Option<String>,
}

/// The value of an optional string.
pub open spec fn opt_view(s: Option<String>) -> Option<Seq<char>> {
    match s {
        Some(s) => Some(s@),
        None => None,
    }
}

impl View for Config {
    type V = ConfigV;

    open spec fn view(&self) -> ConfigV {
        ConfigV {
            rules: Seq::new(self.rules.len() as nat, |i: int| self.rules[i]@),
            cache_dir: opt_view(self.cache_dir),
            socket_dir: opt_view(self.socket_dir),
        }
    }
}

impl ConfigV {
    /// The place of the first rule that applies to `path`, or the number of
    /// rules where none does.
    pub open spec fn first_match(self, path: Seq<char>, force_pure: bool) -> int
        decreases self.rules.len(),
    {
        if self.rules.len() == 0 {
            0
        } else if self.rules[0].applies(path, force_pure) {
            0
        } else {
            1 + (ConfigV { rules: self.rules.drop_first(), ..self }).first_match(path, force_pure)
        }
    }

    /// The first rule, in declaration order, that applies to `path`.
    pub open spec fn matched_rule(self, path: Seq<char>, force_pure: bool) -> Option<RuleV> {
        let i = self.first_match(path, force_pure);
        if i < self.rules.len() {
            Some(self.rules[i])
        } else {
            None
        }
    }
}

/// The first match is the first place whose rule applies: no rule before it
/// applies, and it is the number of rules exactly if no rule applies.
pub proof fn lemma_first_match(config: ConfigV, path: Seq<char>, force_pure: bool)
    ensures
        0 <= config.first_match(path, force_pure) <= config.rules.len(),
        forall|k: int|
            0 <= k < config.first_match(path, force_pure) ==> !(#[trigger] config.rules[k]).applies(
                path,
                force_pure,
            ),
        config.first_match(path, force_pure) < config.rules.len() ==> config.rules[config.first_match(
            path,
            force_pure,
        )].applies(path, force_pure),
    decreases config.rules.len(),
{
    if config.rules.len() > 0 && !config.rules[0].applies(path, force_pure) {
        let rest = ConfigV { rules: config.rules.drop_first(), ..config };
        lemma_first_match(rest, path, force_pure);
        assert forall|k: int| 0 <= k < config.first_match(path, force_pure) implies !(
        #[trigger] config.rules[k]).applies(path, force_pure) by {
            if k > 0 {
                assert(config.rules[k] == rest.rules[k - 1]);
            }
        }
    }
}

/// A place whose rule applies, with no rule before it that does, is the
/// first match.
pub proof fn lemma_first_match_is(config: ConfigV, path: Seq<char>, force_pure: bool, i: int)
    requires
        0 <= i <= config.rules.len(),
        forall|k: int| 0 <= k < i ==> !(#[trigger] config.rules[k]).applies(path, force_pure),
        i < config.rules.len() ==> config.rules[i].applies(path, force_pure),
    ensures
        config.first_match(path, force_pure) == i,
    decreases i,
{
    if i > 0 {
        let rest = ConfigV { rules: config.rules.drop_first(), ..config };
        assert(!config.rules[0].applies(path, force_pure));
        assert forall|k: int| 0 <= k < i - 1 implies !(#[trigger] rest.rules[k]).applies(
            path,
            force_pure,
        ) by {
            assert(rest.rules[k] == config.rules[k + 1]);
        }
        lemma_first_match_is(rest, path, force_pure, i - 1);
    }
}

/// Where only pure rules are wanted, the rule found is pure: a rule with a
/// write bundle is never the match, whatever its matcher accepts.
pub proof fn lemma_forced_match_is_pure(config: ConfigV, path: Seq<char>)
    ensures
        config.matched_rule(path, true) matches Some(rule) ==> rule.some_cmd is Pure && rule.on.matches(
            path,
        ),
        config.matched_rule(path, true) is None ==> forall|k: int|
            0 <= k < config.rules.len() ==> !((#[trigger] config.rules[k]).some_cmd is Pure
                && config.rules[k].on.matches(path)),
{
    lemma_first_match(config, path, true);
}

impl Config {
    /// The first rule, in declaration order, that applies to `target_path`.
    /// With `force_pure` a rule with a write bundle is passed over even
    /// where its matcher accepts the path.
    pub fn find_matched_rule(&self, target_path: &str, force_pure: bool) -> (r: Option<&Rule>)
        ensures
            match r {
                Some(rule) => self@.matched_rule(target_path@, force_pure) == Some(rule@)
                    && self@.first_match(target_path@, force_pure) < self.rules.len()
                    && *rule == self.rules[self@.first_match(target_path@, force_pure)],
                None => self@.matched_rule(target_path@, force_pure) is None,
            },
    {
        let mut i: usize = 0;
        while i < self.rules.len()
            invariant
                i <= self.rules.len(),
                forall|k: int|
                    0 <= k < i ==> !(#[trigger] self@.rules[k]).applies(target_path@, force_pure),
            decreases self.rules.len() - i,
        {
            if self.rules[i].on_match(target_path, force_pure) {
                proof {
                    lemma_first_match_is(self@, target_path@, force_pure, i as int);
                }
                return Some(&self.rules[i]);
            }
            i += 1;
        }
        proof {
            lemma_first_match_is(self@, target_path@, force_pure, i as int);
        }
        None
    }
}

impl ConfigV {
    /// The pure tree of the first rule that applies to `path` where only
    /// pure rules are wanted.
    pub open spec fn pure_tree(self, path: Seq<char>) -> Option<FlowV<PureCommandV>> {
        match self.matched_rule(path, true) {
            Some(rule) => match rule.some_cmd {
                SomeCommandV::Pure { cmd } => Some(cmd),
                SomeCommandV::Write { .. } => None,
            },
            None => None,
        }
    }
}

impl Config {
    /// The pure tree that formats `target_path`: that of the first rule
    /// with a pure bundle whose matcher accepts the path. Rules with a
    /// write bundle are passed over.
    pub fn find_pure_tree(&self, target_path: &str) -> (r: Option<&CommandWithControlFlow<PureCommand>>)
        ensures
            match r {
                Some(cmd) => self@.pure_tree(target_path@) == Some(cmd@),
                None => self@.pure_tree(target_path@) is None && self@.matched_rule(target_path@, true)
                    is None,
            },
    {
        let mut i: usize = 0;
        while i < self.rules.len()
            invariant
                i <= self.rules.len(),
                forall|k: int|
                    0 <= k < i ==> !(#[trigger] self@.rules[k]).applies(target_path@, true),
            decreases self.rules.len() - i,
        {
            match &self.rules[i].some_cmd {
                SomeCommand::Pure { cmd } => {
                    if self.rules[i].on.on_match(target_path) {
                        proof {
                            lemma_first_match_is(self@, target_path@, true, i as int);
                        }
                        return Some(cmd);
                    }
                },
                SomeCommand::Write { write_cmd: _ } => {},
            }
            i += 1;
        }
        proof {
            lemma_first_match_is(self@, target_path@, true, i as int);
        }
        None
    }
}

/// The absent value: what a missing member of the configuration reads as.
pub fn none<T>() -> (r: Option<T>)
    ensures
        r is None,
{
    None
}

} // verus!
