//! The wire format between client and daemon.
//!
//! A request and a response are one JSON value each. A record is an object
//! with one member for each field. A choice without fields is its name as
//! a string; a choice with fields is an object whose one member is named
//! after the choice and holds the fields.

use crate::bindings::parsed_json;
use crate::config::model::opt_view;
use crate::daemon::interface::{
    output_path_text,
    BulkFormatReply,
    DaemonBulkFormatArgs,
    DaemonBulkFormatResponse,
    DaemonCommandPayload,
    DaemonCommands,
    DaemonFormatArgs,
    DaemonFormatResponse,
    DaemonInfo,
    DaemonInfoV,
    DaemonPureFormatArgs,
    DaemonPureFormatResponse,
    DaemonResponse,
    FormatReply,
    GlobalOptions,
    OutputPath,
    PureFormatReply,
    ResponseV,
};
use crate::json::{
    entries_view,
    json_text,
    items_view,
    key_index,
    lemma_key_index_is,
    lemma_view_of_parts,
    member_index,
    Json,
    JsonV,
    MemberV,
};
use crate::text::{
    decimal,
    decimal_string,
    lemma_decimal_round_trip,
    parse_decimal,
    parsed_decimal,
    str_chars,
    str_eq,
    strings_view,
};
use vstd::prelude::*;

verus! {

/// The value of a [`GlobalOptions`].
pub struct OptionsV {
    pub config_file: Option<Seq<char>>,
    pub cache_dir: Option<Seq<char>>,
    pub socket_dir: Option<Seq<char>>,
    pub no_cache: bool,
    pub no_long_log: bool,
    pub ignore_build_id_mismatch: bool,
}

impl View for GlobalOptions {
    type V = OptionsV;

    open spec fn view(&self) -> OptionsV {
        OptionsV {
            config_file: opt_view(self.config_file),
            cache_dir: opt_view(self.cache_dir),
            socket_dir: opt_view(self.socket_dir),
            no_cache: self.no_cache,
            no_long_log: self.no_long_log,
            ignore_build_id_mismatch: self.ignore_build_id_mismatch,
        }
    }
}

/// The value of a [`DaemonCommands`].
pub enum CommandV {
    Format { path: Seq<char> },
    PureFormat { path: Seq<char>, content: Seq<char> },
    BulkFormat { paths: Seq<Seq<char>>, threads: nat },
    Stop,
    Ping,
}

impl View for DaemonCommands {
    type V = CommandV;

    open spec fn view(&self) -> CommandV {
        match self {
            DaemonCommands::Format(a) => CommandV::Format { path: a.path@ },
            DaemonCommands::PureFormat(a) => CommandV::PureFormat { path: a.path@, content: a.content@ },
            DaemonCommands::BulkFormat(a) => CommandV::BulkFormat {
                paths: strings_view(a.paths@),
                threads: a.threads as nat,
            },
            DaemonCommands::Stop => CommandV::Stop,
            DaemonCommands::Ping => CommandV::Ping,
        }
    }
}

/// The value of a [`DaemonCommandPayload`].
pub struct PayloadV {
    pub command: CommandV,
    pub current_dir: Seq<char>,
    pub global_options: OptionsV,
}

impl View for DaemonCommandPayload {
    type V = PayloadV;

    open spec fn view(&self) -> PayloadV {
        PayloadV {
            command: self.command@,
            current_dir: self.current_dir@,
            global_options: self.global_options@,
        }
    }
}

/// A member made of a key and a value.
pub open spec fn member(key: Seq<char>, value: JsonV) -> MemberV {
    MemberV { key, value }
}

/// A choice with fields: an object whose one member is named after the
/// choice.
pub open spec fn tagged(tag: Seq<char>, value: JsonV) -> JsonV {
    JsonV::Object(seq![member(tag, value)])
}

/// An optional path: `null` where there is none.
pub open spec fn opt_json(path: Option<Seq<char>>) -> JsonV {
    match path {
        Some(p) => JsonV::Str(p),
        None => JsonV::Null,
    }
}

/// A number.
pub open spec fn number(n: nat) -> JsonV {
    JsonV::Number(decimal(n))
}

/// The JSON value of the options.
pub open spec fn options_json(o: OptionsV) -> JsonV {
    JsonV::Object(
        seq![
            member("config_file"@, opt_json(o.config_file)),
            member("cache_dir"@, opt_json(o.cache_dir)),
            member("socket_dir"@, opt_json(o.socket_dir)),
            member("no_cache"@, JsonV::Bool(o.no_cache)),
            member("no_long_log"@, JsonV::Bool(o.no_long_log)),
            member("ignore_build_id_mismatch"@, JsonV::Bool(o.ignore_build_id_mismatch)),
        ],
    )
}

/// The strings of a list as JSON strings.
pub open spec fn strings_json(list: Seq<Seq<char>>) -> Seq<JsonV> {
    Seq::new(list.len(), |i: int| JsonV::Str(list[i]))
}

/// The JSON value of a command.
pub open spec fn command_json(c: CommandV) -> JsonV {
    match c {
        CommandV::Format { path } => tagged(
            "Format"@,
            JsonV::Object(seq![member("path"@, JsonV::Str(path))]),
        ),
        CommandV::PureFormat { path, content } => tagged(
            "PureFormat"@,
            JsonV::Object(
                seq![member("path"@, JsonV::Str(path)), member("content"@, JsonV::Str(content))],
            ),
        ),
        CommandV::BulkFormat { paths, threads } => tagged(
            "BulkFormat"@,
            JsonV::Object(
                seq![
                    member("paths"@, JsonV::Array(strings_json(paths))),
                    member("threads"@, number(threads)),
                ],
            ),
        ),
        CommandV::Stop => JsonV::Str("Stop"@),
        CommandV::Ping => JsonV::Str("Ping"@),
    }
}

/// The JSON value of a request.
pub open spec fn payload_json(p: PayloadV) -> JsonV {
    JsonV::Object(
        seq![
            member("command"@, command_json(p.command)),
            member("current_dir"@, JsonV::Str(p.current_dir)),
            member("global_options"@, options_json(p.global_options)),
        ],
    )
}

/// The JSON value of the place of a daemon's output.
pub open spec fn output_json(attached: bool, path: Seq<char>) -> JsonV {
    if attached {
        JsonV::Str("Attached"@)
    } else {
        tagged("Path"@, JsonV::Str(path))
    }
}

/// The JSON value of a daemon's description.
pub open spec fn info_json(i: DaemonInfoV) -> JsonV {
    JsonV::Object(
        seq![
            member("pid"@, number(i.pid)),
            member("start_time"@, number(i.start_time)),
            member("stdout_path"@, output_json(i.stdout_attached, i.stdout_path)),
            member("stderr_path"@, output_json(i.stderr_attached, i.stderr_path)),
            member("build_id"@, JsonV::Str(i.build_id)),
        ],
    )
}

/// The JSON value of a response.
pub open spec fn response_json(r: ResponseV) -> JsonV {
    match r {
        ResponseV::Format(FormatReply::Success) => tagged(
            "Format"@,
            tagged("Success"@, JsonV::Array(Seq::empty())),
        ),
        ResponseV::Format(FormatReply::Ignored(s)) => tagged(
            "Format"@,
            tagged("Ignored"@, JsonV::Str(s)),
        ),
        ResponseV::Format(FormatReply::Error(s)) => tagged("Format"@, tagged("Error"@, JsonV::Str(s))),
        ResponseV::PureFormat(PureFormatReply::Success(s)) => tagged(
            "PureFormat"@,
            tagged("Success"@, JsonV::Str(s)),
        ),
        ResponseV::PureFormat(PureFormatReply::Ignored(s)) => tagged(
            "PureFormat"@,
            tagged("Ignored"@, JsonV::Str(s)),
        ),
        ResponseV::PureFormat(PureFormatReply::Error(s)) => tagged(
            "PureFormat"@,
            tagged("Error"@, JsonV::Str(s)),
        ),
        ResponseV::BulkFormat(BulkFormatReply::Success(s)) => tagged(
            "BulkFormat"@,
            tagged("Success"@, JsonV::Str(s)),
        ),
        ResponseV::BulkFormat(BulkFormatReply::Error(s)) => tagged(
            "BulkFormat"@,
            tagged("Error"@, JsonV::Str(s)),
        ),
        ResponseV::Stop => JsonV::Str("Stop"@),
        ResponseV::Pong(info) => tagged("Pong"@, info_json(info)),
    }
}

/// An object made of `members`.
fn object_of(members: Vec<(String, Json)>) -> (r: Json)
    ensures
        r@ == JsonV::Object(entries_view(members@)),
{
    let r = Json::Object(members);
    proof {
        lemma_view_of_parts(r);
    }
    r
}

/// An object whose one member is named `tag`.
fn tag_value(tag: &str, value: Json) -> (r: Json)
    ensures
        r@ == tagged(tag@, value@),
{
    let mut members: Vec<(String, Json)> = Vec::new();
    members.push((tag.to_owned(), value));
    assert(entries_view(members@) =~= seq![member(tag@, value@)]);
    object_of(members)
}

/// An optional path as JSON.
fn encode_opt(path: &Option<String>) -> (r: Json)
    ensures
        r@ == opt_json(opt_view(*path)),
{
    match path {
        Some(p) => Json::Str(p.clone()),
        None => Json::Null,
    }
}

/// A number as JSON.
fn encode_number(n: u64) -> (r: Json)
    ensures
        r@ == number(n as nat),
{
    Json::Number(decimal_string(n))
}

/// Writes the options.
pub fn encode_options(o: &GlobalOptions) -> (r: Json)
    ensures
        r@ == options_json(o@),
{
    let mut members: Vec<(String, Json)> = Vec::new();
    members.push(("config_file".to_owned(), encode_opt(&o.config_file)));
    members.push(("cache_dir".to_owned(), encode_opt(&o.cache_dir)));
    members.push(("socket_dir".to_owned(), encode_opt(&o.socket_dir)));
    members.push(("no_cache".to_owned(), Json::Bool(o.no_cache)));
    members.push(("no_long_log".to_owned(), Json::Bool(o.no_long_log)));
    members.push(("ignore_build_id_mismatch".to_owned(), Json::Bool(o.ignore_build_id_mismatch)));
    assert(entries_view(members@) =~= options_json(o@)->Object_0);
    object_of(members)
}

/// The strings of `list` as an array of JSON strings.
fn encode_strings(list: &Vec<String>) -> (r: Json)
    ensures
        r@ == JsonV::Array(strings_json(strings_view(list@))),
{
    let mut items: Vec<Json> = Vec::new();
    let mut i: usize = 0;
    while i < list.len()
        invariant
            i <= list.len(),
            items.len() == i,
            forall|k: int| 0 <= k < i ==> items[k]@ == JsonV::Str(list[k]@),
        decreases list.len() - i,
    {
        items.push(Json::Str(list[i].clone()));
        i += 1;
    }
    let r = Json::Array(items);
    proof {
        lemma_view_of_parts(r);
        assert(items_view(items@) =~= strings_json(strings_view(list@)));
    }
    r
}

/// Writes a command.
pub fn encode_command(c: &DaemonCommands) -> (r: Json)
    ensures
        r@ == command_json(c@),
{
    match c {
        DaemonCommands::Format(a) => {
            let mut members: Vec<(String, Json)> = Vec::new();
            members.push(("path".to_owned(), Json::Str(a.path.clone())));
            assert(entries_view(members@) =~= seq![member("path"@, JsonV::Str(a.path@))]);
            tag_value("Format", object_of(members))
        },
        DaemonCommands::PureFormat(a) => {
            let mut members: Vec<(String, Json)> = Vec::new();
            members.push(("path".to_owned(), Json::Str(a.path.clone())));
            members.push(("content".to_owned(), Json::Str(a.content.clone())));
            assert(entries_view(members@) =~= seq![
                member("path"@, JsonV::Str(a.path@)),
                member("content"@, JsonV::Str(a.content@)),
            ]);
            tag_value("PureFormat", object_of(members))
        },
        DaemonCommands::BulkFormat(a) => {
            let mut members: Vec<(String, Json)> = Vec::new();
            members.push(("paths".to_owned(), encode_strings(&a.paths)));
            members.push(("threads".to_owned(), encode_number(a.threads as u64)));
            assert(entries_view(members@) =~= seq![
                member("paths"@, JsonV::Array(strings_json(strings_view(a.paths@)))),
                member("threads"@, number(a.threads as nat)),
            ]);
            tag_value("BulkFormat", object_of(members))
        },
        DaemonCommands::Stop => Json::string("Stop"),
        DaemonCommands::Ping => Json::string("Ping"),
    }
}

/// Writes a request.
pub fn encode_payload(p: &DaemonCommandPayload) -> (r: Json)
    ensures
        r@ == payload_json(p@),
{
    let mut members: Vec<(String, Json)> = Vec::new();
    members.push(("command".to_owned(), encode_command(&p.command)));
    members.push(("current_dir".to_owned(), Json::Str(p.current_dir.clone())));
    members.push(("global_options".to_owned(), encode_options(&p.global_options)));
    assert(entries_view(members@) =~= payload_json(p@)->Object_0);
    object_of(members)
}

/// Writes the place of a daemon's output.
fn encode_output(path: &OutputPath) -> (r: Json)
    ensures
        r@ == output_json(path is Attached, output_path_text(*path)),
{
    match path {
        OutputPath::Path(p) => tag_value("Path", Json::Str(p.clone())),
        OutputPath::Attached => Json::string("Attached"),
    }
}

/// Writes a daemon's description.
pub fn encode_info(i: &DaemonInfo) -> (r: Json)
    ensures
        r@ == info_json(i@),
{
    let mut members: Vec<(String, Json)> = Vec::new();
    members.push(("pid".to_owned(), encode_number(i.pid as u64)));
    members.push(("start_time".to_owned(), encode_number(i.start_time)));
    members.push(("stdout_path".to_owned(), encode_output(&i.stdout_path)));
    members.push(("stderr_path".to_owned(), encode_output(&i.stderr_path)));
    members.push(("build_id".to_owned(), Json::Str(i.build_id.clone())));
    assert(entries_view(members@) =~= info_json(i@)->Object_0);
    object_of(members)
}

/// Writes a response.
pub fn encode_response(r: &DaemonResponse) -> (j: Json)
    ensures
        j@ == response_json(r@),
{
    match r {
        DaemonResponse::Format(reply) => {
            let inner = match reply {
                DaemonFormatResponse::Success() => {
                    let empty = Json::Array(Vec::new());
                    proof {
                        lemma_view_of_parts(empty);
                        assert(empty@->Array_0 =~= Seq::empty());
                    }
                    tag_value("Success", empty)
                },
                DaemonFormatResponse::Ignored(s) => tag_value("Ignored", Json::Str(s.clone())),
                DaemonFormatResponse::Error(s) => tag_value("Error", Json::Str(s.clone())),
            };
            tag_value("Format", inner)
        },
        DaemonResponse::PureFormat(reply) => {
            let inner = match reply {
                DaemonPureFormatResponse::Success(s) => tag_value("Success", Json::Str(s.clone())),
                DaemonPureFormatResponse::Ignored(s) => tag_value("Ignored", Json::Str(s.clone())),
                DaemonPureFormatResponse::Error(s) => tag_value("Error", Json::Str(s.clone())),
            };
            tag_value("PureFormat", inner)
        },
        DaemonResponse::BulkFormat(reply) => {
            let inner = match reply {
                DaemonBulkFormatResponse::Success(s) => tag_value("Success", Json::Str(s.clone())),
                DaemonBulkFormatResponse::Error(s) => tag_value("Error", Json::Str(s.clone())),
            };
            tag_value("BulkFormat", inner)
        },
        DaemonResponse::Stop => Json::string("Stop"),
        DaemonResponse::Pong(info) => tag_value("Pong", encode_info(info)),
    }
}

/// The member `key` of a record, if it has one.
pub open spec fn field(m: Seq<MemberV>, key: Seq<char>) -> Option<JsonV> {
    let at = key_index(m, key);
    if 0 <= at < m.len() {
        Some(m[at].value)
    } else {
        None
    }
}

/// The string under `key`.
pub open spec fn str_field(m: Seq<MemberV>, key: Seq<char>) -> Option<Seq<char>> {
    match field(m, key) {
        Some(JsonV::Str(s)) => Some(s),
        _ => None,
    }
}

/// The optional path under `key`: none where the member is missing or
/// `null`; a member of another kind is a fault.
pub open spec fn opt_field(m: Seq<MemberV>, key: Seq<char>) -> Option<Option<Seq<char>>> {
    match field(m, key) {
        None => Some(None),
        Some(JsonV::Null) => Some(None),
        Some(JsonV::Str(s)) => Some(Some(s)),
        Some(_) => None,
    }
}

/// The flag under `key`: set where the member is missing; a member that is
/// no boolean is a fault.
pub open spec fn flag_field(m: Seq<MemberV>, key: Seq<char>) -> Option<bool> {
    match field(m, key) {
        None => Some(true),
        Some(JsonV::Bool(b)) => Some(b),
        Some(_) => None,
    }
}

/// The number of at most `max` that a JSON number stands for.
pub open spec fn number_of(j: JsonV, max: nat) -> Option<nat> {
    match j {
        JsonV::Number(text) => parsed_decimal(text, max),
        _ => None,
    }
}

/// The number under `key`.
pub open spec fn number_field(m: Seq<MemberV>, key: Seq<char>, max: nat) -> Option<nat> {
    match field(m, key) {
        Some(j) => number_of(j, max),
        None => None,
    }
}

/// The name and the fields of a choice that is written as an object: the
/// object has exactly one member.
pub open spec fn untagged(j: JsonV) -> Option<MemberV> {
    match j {
        JsonV::Object(m) => if m.len() == 1 {
            Some(m[0])
        } else {
            None
        },
        _ => None,
    }
}

/// The options that a JSON value stands for.
pub open spec fn options_of(j: JsonV) -> Option<OptionsV> {
    match j {
        JsonV::Object(m) => match (
            opt_field(m, "config_file"@),
            opt_field(m, "cache_dir"@),
            opt_field(m, "socket_dir"@),
            flag_field(m, "no_cache"@),
            flag_field(m, "no_long_log"@),
            flag_field(m, "ignore_build_id_mismatch"@),
        ) {
            (
                Some(config_file),
                Some(cache_dir),
                Some(socket_dir),
                Some(no_cache),
                Some(no_long_log),
                Some(ignore_build_id_mismatch),
            ) => Some(
                OptionsV {
                    config_file,
                    cache_dir,
                    socket_dir,
                    no_cache,
                    no_long_log,
                    ignore_build_id_mismatch,
                },
            ),
            _ => None,
        },
        _ => None,
    }
}

/// The strings that the first `n` items of an array stand for, if each is
/// a string.
pub open spec fn strings_of(items: Seq<JsonV>, n: nat) -> Option<Seq<Seq<char>>>
    decreases n,
{
    if n == 0 || n > items.len() {
        Some(Seq::empty())
    } else {
        match (strings_of(items, (n - 1) as nat), items[n - 1]) {
            (Some(before), JsonV::Str(s)) => Some(before.push(s)),
            _ => None,
        }
    }
}

/// The command with fields that a name and a record stand for.
pub open spec fn command_with_fields(tag: Seq<char>, value: JsonV) -> Option<CommandV> {
    match value {
        JsonV::Object(m) => if tag == "Format"@ {
            match str_field(m, "path"@) {
                Some(path) => Some(CommandV::Format { path }),
                None => None,
            }
        } else if tag == "PureFormat"@ {
            match (str_field(m, "path"@), str_field(m, "content"@)) {
                (Some(path), Some(content)) => Some(CommandV::PureFormat { path, content }),
                _ => None,
            }
        } else if tag == "BulkFormat"@ {
            match (field(m, "paths"@), number_field(m, "threads"@, usize::MAX as nat)) {
                (Some(JsonV::Array(items)), Some(threads)) => match strings_of(items, items.len()) {
                    Some(paths) => Some(CommandV::BulkFormat { paths, threads }),
                    None => None,
                },
                _ => None,
            }
        } else {
            None
        },
        _ => None,
    }
}

/// The command that a JSON value stands for.
pub open spec fn command_of(j: JsonV) -> Option<CommandV> {
    match j {
        JsonV::Str(name) => if name == "Stop"@ {
            Some(CommandV::Stop)
        } else if name == "Ping"@ {
            Some(CommandV::Ping)
        } else {
            None
        },
        _ => match untagged(j) {
            Some(choice) => command_with_fields(choice.key, choice.value),
            None => None,
        },
    }
}

/// The request that a JSON value stands for.
pub open spec fn payload_of(j: JsonV) -> Option<PayloadV> {
    match j {
        JsonV::Object(m) => match (
            field(m, "command"@),
            str_field(m, "current_dir"@),
            field(m, "global_options"@),
        ) {
            (Some(c), Some(current_dir), Some(o)) => match (command_of(c), options_of(o)) {
                (Some(command), Some(global_options)) => Some(
                    PayloadV { command, current_dir, global_options },
                ),
                _ => None,
            },
            _ => None,
        },
        _ => None,
    }
}

/// The text that stands for an attached output.
pub open spec fn attached_text() -> Seq<char> {
    "<attached>"@
}

/// The place of a daemon's output that a JSON value stands for: whether
/// the output is attached, and the text it is shown as.
pub open spec fn output_of(j: JsonV) -> Option<(bool, Seq<char>)> {
    match j {
        JsonV::Str(name) => if name == "Attached"@ {
            Some((true, attached_text()))
        } else {
            None
        },
        _ => match untagged(j) {
            Some(choice) => match choice.value {
                JsonV::Str(path) => if choice.key == "Path"@ {
                    Some((false, path))
                } else {
                    None
                },
                _ => None,
            },
            None => None,
        },
    }
}

/// The description of a daemon that a JSON value stands for.
pub open spec fn info_of(j: JsonV) -> Option<DaemonInfoV> {
    match j {
        JsonV::Object(m) => match (
            number_field(m, "pid"@, u32::MAX as nat),
            number_field(m, "start_time"@, u64::MAX as nat),
            field(m, "stdout_path"@),
            field(m, "stderr_path"@),
            str_field(m, "build_id"@),
        ) {
            (Some(pid), Some(start_time), Some(out), Some(err), Some(build_id)) => match (
                output_of(out),
                output_of(err),
            ) {
                (Some(stdout), Some(stderr)) => Some(
                    DaemonInfoV {
                        pid,
                        start_time,
                        stdout_attached: stdout.0,
                        stdout_path: stdout.1,
                        stderr_attached: stderr.0,
                        stderr_path: stderr.1,
                        build_id,
                    },
                ),
                _ => None,
            },
            _ => None,
        },
        _ => None,
    }
}

/// The answer to a format request that a JSON value stands for.
pub open spec fn format_reply_of(j: JsonV) -> Option<FormatReply> {
    match untagged(j) {
        Some(choice) => if choice.key == "Success"@ {
            match choice.value {
                JsonV::Array(items) => if items.len() == 0 {
                    Some(FormatReply::Success)
                } else {
                    None
                },
                _ => None,
            }
        } else if choice.key == "Ignored"@ {
            match choice.value {
                JsonV::Str(s) => Some(FormatReply::Ignored(s)),
                _ => None,
            }
        } else if choice.key == "Error"@ {
            match choice.value {
                JsonV::Str(s) => Some(FormatReply::Error(s)),
                _ => None,
            }
        } else {
            None
        },
        None => None,
    }
}

/// The answer to a pure-format request that a JSON value stands for.
pub open spec fn pure_format_reply_of(j: JsonV) -> Option<PureFormatReply> {
    match untagged(j) {
        Some(choice) => match choice.value {
            JsonV::Str(s) => if choice.key == "Success"@ {
                Some(PureFormatReply::Success(s))
            } else if choice.key == "Ignored"@ {
                Some(PureFormatReply::Ignored(s))
            } else if choice.key == "Error"@ {
                Some(PureFormatReply::Error(s))
            } else {
                None
            },
            _ => None,
        },
        None => None,
    }
}

/// The answer to a bulk-format request that a JSON value stands for.
pub open spec fn bulk_format_reply_of(j: JsonV) -> Option<BulkFormatReply> {
    match untagged(j) {
        Some(choice) => match choice.value {
            JsonV::Str(s) => if choice.key == "Success"@ {
                Some(BulkFormatReply::Success(s))
            } else if choice.key == "Error"@ {
                Some(BulkFormatReply::Error(s))
            } else {
                None
            },
            _ => None,
        },
        None => None,
    }
}

/// The response that a JSON value stands for.
pub open spec fn response_of(j: JsonV) -> Option<ResponseV> {
    match j {
        JsonV::Str(name) => if name == "Stop"@ {
            Some(ResponseV::Stop)
        } else {
            None
        },
        _ => match untagged(j) {
            Some(choice) => if choice.key == "Format"@ {
                match format_reply_of(choice.value) {
                    Some(r) => Some(ResponseV::Format(r)),
                    None => None,
                }
            } else if choice.key == "PureFormat"@ {
                match pure_format_reply_of(choice.value) {
                    Some(r) => Some(ResponseV::PureFormat(r)),
                    None => None,
                }
            } else if choice.key == "BulkFormat"@ {
                match bulk_format_reply_of(choice.value) {
                    Some(r) => Some(ResponseV::BulkFormat(r)),
                    None => None,
                }
            } else if choice.key == "Pong"@ {
                match info_of(choice.value) {
                    Some(info) => Some(ResponseV::Pong(info)),
                    None => None,
                }
            } else {
                None
            },
            None => None,
        },
    }
}

/// The member `key` of a record.
fn get_field<'a>(m: &'a Vec<(String, Json)>, key: &str) -> (r: Option<&'a Json>)
    ensures
        match r {
            Some(v) => field(entries_view(m@), key@) == Some(v@),
            None => field(entries_view(m@), key@) is None,
        },
{
    match member_index(m, key) {
        Some(at) => Some(&m[at].1),
        None => None,
    }
}

/// The string under `key`.
fn get_str_field(m: &Vec<(String, Json)>, key: &str) -> (r: Option<String>)
    ensures
        opt_view(r) == str_field(entries_view(m@), key@),
{
    match get_field(m, key) {
        Some(v) => match v {
            Json::Str(s) => Some(s.clone()),
            _ => None,
        },
        None => None,
    }
}

/// The optional path under `key`.
fn get_opt_field(m: &Vec<(String, Json)>, key: &str) -> (r: Option<Option<String>>)
    ensures
        match r {
            Some(p) => opt_field(entries_view(m@), key@) == Some(opt_view(p)),
            None => opt_field(entries_view(m@), key@) is None,
        },
{
    match get_field(m, key) {
        None => Some(None),
        Some(v) => match v {
            Json::Null => Some(None),
            Json::Str(s) => Some(Some(s.clone())),
            _ => None,
        },
    }
}

/// The flag under `key`.
fn get_flag_field(m: &Vec<(String, Json)>, key: &str) -> (r: Option<bool>)
    ensures
        r == flag_field(entries_view(m@), key@),
{
    match get_field(m, key) {
        None => Some(true),
        Some(v) => match v {
            Json::Bool(b) => Some(*b),
            _ => None,
        },
    }
}

/// The number under `key`.
fn get_number_field(m: &Vec<(String, Json)>, key: &str, max: u64) -> (r: Option<u64>)
    ensures
        match r {
            Some(n) => number_field(entries_view(m@), key@, max as nat) == Some(n as nat) && n <= max,
            None => number_field(entries_view(m@), key@, max as nat) is None,
        },
{
    match get_field(m, key) {
        Some(v) => match v {
            Json::Number(text) => {
                let chars = str_chars(text.as_str());
                parse_decimal(&chars, max)
            },
            _ => None,
        },
        None => None,
    }
}

/// The name and the fields of a choice that is written as an object.
fn untag(j: &Json) -> (r: Option<(&String, &Json)>)
    ensures
        match r {
            Some((k, v)) => untagged(j@) == Some(member(k@, v@)),
            None => untagged(j@) is None,
        },
{
    match j {
        Json::Object(m) => {
            proof {
                lemma_view_of_parts(*j);
            }
            if m.len() == 1 {
                Some((&m[0].0, &m[0].1))
            } else {
                None
            }
        },
        _ => None,
    }
}

/// Reads the options.
pub fn decode_options(j: &Json) -> (r: Option<GlobalOptions>)
    ensures
        match r {
            Some(o) => options_of(j@) == Some(o@),
            None => options_of(j@) is None,
        },
{
    match j {
        Json::Object(m) => {
            proof {
                lemma_view_of_parts(*j);
            }
            let config_file = match get_opt_field(m, "config_file") {
                Some(v) => v,
                None => {
                    return None;
                },
            };
            let cache_dir = match get_opt_field(m, "cache_dir") {
                Some(v) => v,
                None => {
                    return None;
                },
            };
            let socket_dir = match get_opt_field(m, "socket_dir") {
                Some(v) => v,
                None => {
                    return None;
                },
            };
            let no_cache = match get_flag_field(m, "no_cache") {
                Some(v) => v,
                None => {
                    return None;
                },
            };
            let no_long_log = match get_flag_field(m, "no_long_log") {
                Some(v) => v,
                None => {
                    return None;
                },
            };
            let ignore_build_id_mismatch = match get_flag_field(m, "ignore_build_id_mismatch") {
                Some(v) => v,
                None => {
                    return None;
                },
            };
            Some(
                GlobalOptions {
                    config_file,
                    cache_dir,
                    socket_dir,
                    no_cache,
                    no_long_log,
                    ignore_build_id_mismatch,
                },
            )
        },
        _ => None,
    }
}

/// Once a prefix of an array holds an item that is no string, no longer
/// prefix stands for strings.
proof fn lemma_strings_fail(items: Seq<JsonV>, n: nat, m: nat)
    requires
        n <= m <= items.len(),
        strings_of(items, n) is None,
    ensures
        strings_of(items, m) is None,
    decreases m - n,
{
    if n < m {
        lemma_strings_fail(items, n, (m - 1) as nat);
    }
}

/// Reads the strings of an array.
fn decode_strings(items: &Vec<Json>) -> (r: Option<Vec<String>>)
    ensures
        match r {
            Some(list) => strings_of(items_view(items@), items.len() as nat) == Some(
                strings_view(list@),
            ),
            None => strings_of(items_view(items@), items.len() as nat) is None,
        },
{
    let ghost all = items_view(items@);
    let mut list: Vec<String> = Vec::new();
    let mut i: usize = 0;
    assert(strings_view(list@) =~= Seq::empty());
    while i < items.len()
        invariant
            i <= items.len(),
            all == items_view(items@),
            strings_of(all, i as nat) == Some(strings_view(list@)),
        decreases items.len() - i,
    {
        match &items[i] {
            Json::Str(s) => {
                let ghost before = strings_view(list@);
                list.push(s.clone());
                assert(strings_view(list@) =~= before.push(s@));
            },
            _ => {
                proof {
                    lemma_strings_fail(all, (i + 1) as nat, all.len());
                }
                return None;
            },
        }
        i += 1;
    }
    Some(list)
}

/// Reads a command.
pub fn decode_command(j: &Json) -> (r: Option<DaemonCommands>)
    ensures
        match r {
            Some(c) => command_of(j@) == Some(c@),
            None => command_of(j@) is None,
        },
{
    match j {
        Json::Str(name) => {
            if str_eq(name.as_str(), "Stop") {
                Some(DaemonCommands::Stop)
            } else if str_eq(name.as_str(), "Ping") {
                Some(DaemonCommands::Ping)
            } else {
                None
            }
        },
        _ => {
            let (tag, value) = match untag(j) {
                Some(choice) => choice,
                None => {
                    return None;
                },
            };
            match value {
                Json::Object(m) => {
                    proof {
                        lemma_view_of_parts(*value);
                    }
                    if str_eq(tag.as_str(), "Format") {
                        match get_str_field(m, "path") {
                            Some(path) => Some(DaemonCommands::Format(DaemonFormatArgs { path })),
                            None => None,
                        }
                    } else if str_eq(tag.as_str(), "PureFormat") {
                        let path = match get_str_field(m, "path") {
                            Some(path) => path,
                            None => {
                                return None;
                            },
                        };
                        match get_str_field(m, "content") {
                            Some(content) => Some(
                                DaemonCommands::PureFormat(DaemonPureFormatArgs { path, content }),
                            ),
                            None => None,
                        }
                    } else if str_eq(tag.as_str(), "BulkFormat") {
                        let items = match get_field(m, "paths") {
                            Some(v) => match v {
                                Json::Array(items) => {
                                    proof {
                                        lemma_view_of_parts(*v);
                                    }
                                    items
                                },
                                _ => {
                                    return None;
                                },
                            },
                            None => {
                                return None;
                            },
                        };
                        let threads = match get_number_field(m, "threads", usize::MAX as u64) {
                            Some(n) => n as usize,
                            None => {
                                return None;
                            },
                        };
                        match decode_strings(items) {
                            Some(paths) => Some(
                                DaemonCommands::BulkFormat(DaemonBulkFormatArgs { paths, threads }),
                            ),
                            None => None,
                        }
                    } else {
                        None
                    }
                },
                _ => None,
            }
        },
    }
}

/// Reads a request.
pub fn decode_payload(j: &Json) -> (r: Option<DaemonCommandPayload>)
    ensures
        match r {
            Some(p) => payload_of(j@) == Some(p@),
            None => payload_of(j@) is None,
        },
{
    match j {
        Json::Object(m) => {
            proof {
                lemma_view_of_parts(*j);
            }
            let c = match get_field(m, "command") {
                Some(c) => c,
                None => {
                    return None;
                },
            };
            let current_dir = match get_str_field(m, "current_dir") {
                Some(d) => d,
                None => {
                    return None;
                },
            };
            let o = match get_field(m, "global_options") {
                Some(o) => o,
                None => {
                    return None;
                },
            };
            let command = match decode_command(c) {
                Some(command) => command,
                None => {
                    return None;
                },
            };
            match decode_options(o) {
                Some(global_options) => Some(
                    DaemonCommandPayload { command, current_dir, global_options },
                ),
                None => None,
            }
        },
        _ => None,
    }
}

/// Reads the place of a daemon's output.
fn decode_output(j: &Json) -> (r: Option<OutputPath>)
    ensures
        match r {
            Some(p) => output_of(j@) == Some((p is Attached, output_path_text(p))),
            None => output_of(j@) is None,
        },
{
    match j {
        Json::Str(name) => {
            if str_eq(name.as_str(), "Attached") {
                Some(OutputPath::Attached)
            } else {
                None
            }
        },
        _ => match untag(j) {
            Some((tag, value)) => match value {
                Json::Str(path) => {
                    if str_eq(tag.as_str(), "Path") {
                        Some(OutputPath::Path(path.clone()))
                    } else {
                        None
                    }
                },
                _ => None,
            },
            None => None,
        },
    }
}

/// Reads a daemon's description.
pub fn decode_info(j: &Json) -> (r: Option<DaemonInfo>)
    ensures
        match r {
            Some(i) => info_of(j@) == Some(i@),
            None => info_of(j@) is None,
        },
{
    match j {
        Json::Object(m) => {
            proof {
                lemma_view_of_parts(*j);
            }
            let pid = match get_number_field(m, "pid", u32::MAX as u64) {
                Some(n) => n as u32,
                None => {
                    return None;
                },
            };
            let start_time = match get_number_field(m, "start_time", u64::MAX) {
                Some(n) => n,
                None => {
                    return None;
                },
            };
            let out = match get_field(m, "stdout_path") {
                Some(v) => v,
                None => {
                    return None;
                },
            };
            let err = match get_field(m, "stderr_path") {
                Some(v) => v,
                None => {
                    return None;
                },
            };
            let build_id = match get_str_field(m, "build_id") {
                Some(s) => s,
                None => {
                    return None;
                },
            };
            let stdout_path = match decode_output(out) {
                Some(p) => p,
                None => {
                    return None;
                },
            };
            match decode_output(err) {
                Some(stderr_path) => Some(
                    DaemonInfo { pid, start_time, stdout_path, stderr_path, build_id },
                ),
                None => None,
            }
        },
        _ => None,
    }
}

/// Reads the answer to a format request.
fn decode_format_reply(j: &Json) -> (r: Option<DaemonFormatResponse>)
    ensures
        match r {
            Some(x) => format_reply_of(j@) == Some(x@),
            None => format_reply_of(j@) is None,
        },
{
    let (tag, value) = match untag(j) {
        Some(choice) => choice,
        None => {
            return None;
        },
    };
    if str_eq(tag.as_str(), "Success") {
        match value {
            Json::Array(items) => {
                proof {
                    lemma_view_of_parts(*value);
                }
                if items.len() == 0 {
                    Some(DaemonFormatResponse::Success())
                } else {
                    None
                }
            },
            _ => None,
        }
    } else if str_eq(tag.as_str(), "Ignored") {
        match value {
            Json::Str(s) => Some(DaemonFormatResponse::Ignored(s.clone())),
            _ => None,
        }
    } else if str_eq(tag.as_str(), "Error") {
        match value {
            Json::Str(s) => Some(DaemonFormatResponse::Error(s.clone())),
            _ => None,
        }
    } else {
        None
    }
}

/// Reads the answer to a pure-format request.
fn decode_pure_format_reply(j: &Json) -> (r: Option<DaemonPureFormatResponse>)
    ensures
        match r {
            Some(x) => pure_format_reply_of(j@) == Some(x@),
            None => pure_format_reply_of(j@) is None,
        },
{
    match untag(j) {
        Some((tag, value)) => match value {
            Json::Str(s) => {
                if str_eq(tag.as_str(), "Success") {
                    Some(DaemonPureFormatResponse::Success(s.clone()))
                } else if str_eq(tag.as_str(), "Ignored") {
                    Some(DaemonPureFormatResponse::Ignored(s.clone()))
                } else if str_eq(tag.as_str(), "Error") {
                    Some(DaemonPureFormatResponse::Error(s.clone()))
                } else {
                    None
                }
            },
            _ => None,
        },
        None => None,
    }
}

/// Reads the answer to a bulk-format request.
fn decode_bulk_format_reply(j: &Json) -> (r: Option<DaemonBulkFormatResponse>)
    ensures
        match r {
            Some(x) => bulk_format_reply_of(j@) == Some(x@),
            None => bulk_format_reply_of(j@) is None,
        },
{
    match untag(j) {
        Some((tag, value)) => match value {
            Json::Str(s) => {
                if str_eq(tag.as_str(), "Success") {
                    Some(DaemonBulkFormatResponse::Success(s.clone()))
                } else if str_eq(tag.as_str(), "Error") {
                    Some(DaemonBulkFormatResponse::Error(s.clone()))
                } else {
                    None
                }
            },
            _ => None,
        },
        None => None,
    }
}

/// Reads a response.
pub fn decode_response(j: &Json) -> (r: Option<DaemonResponse>)
    ensures
        match r {
            Some(x) => response_of(j@) == Some(x@),
            None => response_of(j@) is None,
        },
{
    match j {
        Json::Str(name) => {
            if str_eq(name.as_str(), "Stop") {
                Some(DaemonResponse::Stop)
            } else {
                None
            }
        },
        _ => {
            let (tag, value) = match untag(j) {
                Some(choice) => choice,
                None => {
                    return None;
                },
            };
            if str_eq(tag.as_str(), "Format") {
                match decode_format_reply(value) {
                    Some(r) => Some(DaemonResponse::Format(r)),
                    None => None,
                }
            } else if str_eq(tag.as_str(), "PureFormat") {
                match decode_pure_format_reply(value) {
                    Some(r) => Some(DaemonResponse::PureFormat(r)),
                    None => None,
                }
            } else if str_eq(tag.as_str(), "BulkFormat") {
                match decode_bulk_format_reply(value) {
                    Some(r) => Some(DaemonResponse::BulkFormat(r)),
                    None => None,
                }
            } else if str_eq(tag.as_str(), "Pong") {
                match decode_info(value) {
                    Some(info) => Some(DaemonResponse::Pong(info)),
                    None => None,
                }
            } else {
                None
            }
        },
    }
}

/// The names of the format that stand side by side are all different.
proof fn lemma_names_differ()
    ensures
        "config_file"@ != "cache_dir"@,
        "config_file"@ != "socket_dir"@,
        "config_file"@ != "no_cache"@,
        "config_file"@ != "no_long_log"@,
        "config_file"@ != "ignore_build_id_mismatch"@,
        "cache_dir"@ != "socket_dir"@,
        "cache_dir"@ != "no_cache"@,
        "cache_dir"@ != "no_long_log"@,
        "cache_dir"@ != "ignore_build_id_mismatch"@,
        "socket_dir"@ != "no_cache"@,
        "socket_dir"@ != "no_long_log"@,
        "socket_dir"@ != "ignore_build_id_mismatch"@,
        "no_cache"@ != "no_long_log"@,
        "no_cache"@ != "ignore_build_id_mismatch"@,
        "no_long_log"@ != "ignore_build_id_mismatch"@,
        "command"@ != "current_dir"@,
        "command"@ != "global_options"@,
        "current_dir"@ != "global_options"@,
        "path"@ != "content"@,
        "paths"@ != "threads"@,
        "pid"@ != "start_time"@,
        "pid"@ != "stdout_path"@,
        "pid"@ != "stderr_path"@,
        "pid"@ != "build_id"@,
        "start_time"@ != "stdout_path"@,
        "start_time"@ != "stderr_path"@,
        "start_time"@ != "build_id"@,
        "stdout_path"@ != "stderr_path"@,
        "stdout_path"@ != "build_id"@,
        "stderr_path"@ != "build_id"@,
        "Format"@ != "PureFormat"@,
        "Format"@ != "BulkFormat"@,
        "Format"@ != "Pong"@,
        "PureFormat"@ != "BulkFormat"@,
        "PureFormat"@ != "Pong"@,
        "BulkFormat"@ != "Pong"@,
        "Success"@ != "Ignored"@,
        "Success"@ != "Error"@,
        "Ignored"@ != "Error"@,
        "Stop"@ != "Ping"@,
{
    reveal_strlit("config_file");
    reveal_strlit("cache_dir");
    reveal_strlit("socket_dir");
    reveal_strlit("no_cache");
    reveal_strlit("no_long_log");
    reveal_strlit("ignore_build_id_mismatch");
    reveal_strlit("command");
    reveal_strlit("current_dir");
    reveal_strlit("global_options");
    reveal_strlit("path");
    reveal_strlit("content");
    reveal_strlit("paths");
    reveal_strlit("threads");
    reveal_strlit("pid");
    reveal_strlit("start_time");
    reveal_strlit("stdout_path");
    reveal_strlit("stderr_path");
    reveal_strlit("build_id");
    reveal_strlit("Format");
    reveal_strlit("PureFormat");
    reveal_strlit("BulkFormat");
    reveal_strlit("Pong");
    reveal_strlit("Success");
    reveal_strlit("Ignored");
    reveal_strlit("Error");
    reveal_strlit("Stop");
    reveal_strlit("Ping");
    assert("config_file"@.len() == 11 && "cache_dir"@.len() == 9 && "socket_dir"@.len() == 10);
    assert("no_cache"@.len() == 8 && "no_long_log"@.len() == 11);
    assert("ignore_build_id_mismatch"@.len() == 24);
    assert("config_file"@[0] == 'c' && "no_long_log"@[0] == 'n');
    assert("command"@.len() == 7 && "current_dir"@.len() == 11 && "global_options"@.len() == 14);
    assert("path"@.len() == 4 && "content"@.len() == 7 && "paths"@.len() == 5 && "threads"@.len() == 7);
    assert("pid"@.len() == 3 && "start_time"@.len() == 10 && "build_id"@.len() == 8);
    assert("stdout_path"@.len() == 11 && "stderr_path"@.len() == 11);
    assert("stdout_path"@[3] == 'o' && "stderr_path"@[3] == 'e');
    assert("Format"@.len() == 6 && "PureFormat"@.len() == 10 && "BulkFormat"@.len() == 10);
    assert("PureFormat"@[0] == 'P' && "BulkFormat"@[0] == 'B' && "Pong"@.len() == 4);
    assert("Success"@.len() == 7 && "Ignored"@.len() == 7 && "Error"@.len() == 5);
    assert("Success"@[0] == 'S' && "Ignored"@[0] == 'I');
    assert("Stop"@[0] == 'S' && "Ping"@[0] == 'P');
}

/// Options that are written and read are the same options.
pub proof fn lemma_options_round_trip(o: OptionsV)
    ensures
        options_of(options_json(o)) == Some(o),
{
    lemma_names_differ();
    let m = options_json(o)->Object_0;
    lemma_key_index_is(m, "config_file"@, 0);
    lemma_key_index_is(m, "cache_dir"@, 1);
    lemma_key_index_is(m, "socket_dir"@, 2);
    lemma_key_index_is(m, "no_cache"@, 3);
    lemma_key_index_is(m, "no_long_log"@, 4);
    lemma_key_index_is(m, "ignore_build_id_mismatch"@, 5);
}

/// The strings written as an array read back as themselves.
proof fn lemma_strings_round_trip(list: Seq<Seq<char>>, n: nat)
    requires
        n <= list.len(),
    ensures
        strings_of(strings_json(list), n) == Some(list.take(n as int)),
    decreases n,
{
    if n == 0 {
        assert(list.take(0) =~= Seq::empty());
    } else {
        lemma_strings_round_trip(list, (n - 1) as nat);
        assert(list.take(n as int) =~= list.take(n - 1).push(list[n - 1]));
    }
}

/// A command that is written and read is the same command.
pub proof fn lemma_command_round_trip(c: CommandV)
    requires
        c matches CommandV::BulkFormat { threads, .. } ==> threads <= usize::MAX,
    ensures
        command_of(command_json(c)) == Some(c),
{
    lemma_names_differ();
    match c {
        CommandV::Format { path } => {
            let m = seq![member("path"@, JsonV::Str(path))];
            lemma_key_index_is(m, "path"@, 0);
        },
        CommandV::PureFormat { path, content } => {
            let m = seq![member("path"@, JsonV::Str(path)), member("content"@, JsonV::Str(content))];
            lemma_key_index_is(m, "path"@, 0);
            lemma_key_index_is(m, "content"@, 1);
        },
        CommandV::BulkFormat { paths, threads } => {
            let m = seq![
                member("paths"@, JsonV::Array(strings_json(paths))),
                member("threads"@, number(threads)),
            ];
            lemma_key_index_is(m, "paths"@, 0);
            lemma_key_index_is(m, "threads"@, 1);
            lemma_decimal_round_trip(threads);
            lemma_strings_round_trip(paths, paths.len());
            assert(paths.take(paths.len() as int) =~= paths);
        },
        CommandV::Stop => {},
        CommandV::Ping => {},
    }
}

/// A request that is written and read is the same request.
pub proof fn lemma_payload_round_trip(p: PayloadV)
    requires
        p.command matches CommandV::BulkFormat { threads, .. } ==> threads <= usize::MAX,
    ensures
        payload_of(payload_json(p)) == Some(p),
{
    lemma_names_differ();
    lemma_command_round_trip(p.command);
    lemma_options_round_trip(p.global_options);
    let m = payload_json(p)->Object_0;
    lemma_key_index_is(m, "command"@, 0);
    lemma_key_index_is(m, "current_dir"@, 1);
    lemma_key_index_is(m, "global_options"@, 2);
}

/// Whether a daemon's description can stand in a response: its numbers fit
/// their fields, and an attached output is shown as such.
pub open spec fn info_fits(i: DaemonInfoV) -> bool {
    &&& i.pid <= u32::MAX
    &&& i.start_time <= u64::MAX
    &&& i.stdout_attached ==> i.stdout_path == attached_text()
    &&& i.stderr_attached ==> i.stderr_path == attached_text()
}

/// A daemon's description that is written and read is the same
/// description.
pub proof fn lemma_info_round_trip(i: DaemonInfoV)
    requires
        info_fits(i),
    ensures
        info_of(info_json(i)) == Some(i),
{
    lemma_names_differ();
    lemma_decimal_round_trip(i.pid);
    lemma_decimal_round_trip(i.start_time);
    let m = info_json(i)->Object_0;
    lemma_key_index_is(m, "pid"@, 0);
    lemma_key_index_is(m, "start_time"@, 1);
    lemma_key_index_is(m, "stdout_path"@, 2);
    lemma_key_index_is(m, "stderr_path"@, 3);
    lemma_key_index_is(m, "build_id"@, 4);
}

/// A response that is written and read is the same response.
pub proof fn lemma_response_round_trip(r: ResponseV)
    requires
        r matches ResponseV::Pong(info) ==> info_fits(info),
    ensures
        response_of(response_json(r)) == Some(r),
{
    lemma_names_differ();
    match r {
        ResponseV::Pong(info) => {
            lemma_info_round_trip(info);
        },
        _ => {},
    }
}

/// What a client sends is what the daemon reads, and what the daemon
/// answers is what the client reads.
pub proof fn lemma_exchange_is_faithful(payload: DaemonCommandPayload, response: DaemonResponse)
    ensures
        payload_of(payload_json(payload@)) == Some(payload@),
        response_of(response_json(response@)) == Some(response@),
{
    lemma_payload_round_trip(payload@);
    lemma_response_round_trip(response@);
}

/// The text of a request as it goes over the socket.
pub fn payload_text(p: &DaemonCommandPayload) -> (r: String)
    ensures
        r@ == json_text(payload_json(p@)),
{
    encode_payload(p).to_text()
}

/// The text of a response as it goes over the socket.
pub fn response_text(r: &DaemonResponse) -> (t: String)
    ensures
        t@ == json_text(response_json(r@)),
{
    encode_response(r).to_text()
}

/// The request that a text stands for: the text must be a JSON document,
/// and the document a request.
pub open spec fn payload_of_text(text: Seq<char>) -> Option<PayloadV> {
    match parsed_json(text) {
        Some(j) => payload_of(j),
        None => None,
    }
}

/// The response that a text stands for.
pub open spec fn response_of_text(text: Seq<char>) -> Option<ResponseV> {
    match parsed_json(text) {
        Some(j) => response_of(j),
        None => None,
    }
}

/// Reads the request that arrived as `text`.
pub fn read_payload(text: &str) -> (r: Option<DaemonCommandPayload>)
    ensures
        match r {
            Some(p) => payload_of_text(text@) == Some(p@),
            None => payload_of_text(text@) is None,
        },
{
    match Json::from_text(text) {
        Ok(document) => decode_payload(&document),
        Err(_) => None,
    }
}

/// Reads the response that arrived as `text`.
pub fn read_response(text: &str) -> (r: Option<DaemonResponse>)
    ensures
        match r {
            Some(x) => response_of_text(text@) == Some(x@),
            None => response_of_text(text@) is None,
        },
{
    match Json::from_text(text) {
        Ok(document) => decode_response(&document),
        Err(_) => None,
    }
}

} // verus!
