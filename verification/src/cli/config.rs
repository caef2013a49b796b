//! The `config` subcommands.

use vstd::prelude::*;

verus! {

/// The arguments of `config path`.
#[derive(Debug)]
pub struct ConfigPathArgs {}

/// The arguments of `config show`.
#[derive(Debug)]
pub struct ConfigShowArgs {}

/// The arguments of `config default`.
#[derive(Debug)]
pub struct ConfigDefaultArgs {}

/// The arguments of `config edit`.
#[derive(Debug)]
pub struct ConfigEditArgs {
    /// Editor to use for editing the config file.
    pub editor: Option<String>,
}

/// The subcommands of `config`.
#[derive(Debug)]
pub enum ConfigSubCommands {
    Path(ConfigPathArgs),
    Show(ConfigShowArgs),
    Default(ConfigDefaultArgs),
    Edit(ConfigEditArgs),
}

/// The arguments of `config`.
#[derive(Debug)]
pub struct ConfigArgs {
    pub subcommand: ConfigSubCommands,
}

/// What `config` does.
#[derive(Debug)]
pub enum ConfigAction {
    /// Print the path of the configuration file.
    Path,
    /// Print the configuration file.
    Show,
    /// Print the default configuration.
    Default,
    /// Open the configuration file in an editor.
    Edit(ConfigEditArgs),
}

/// What `config` does for its arguments.
pub open spec fn config_action(args: ConfigArgs) -> ConfigAction {
    match args.subcommand {
        ConfigSubCommands::Path(_) => ConfigAction::Path,
        ConfigSubCommands::Show(_) => ConfigAction::Show,
        ConfigSubCommands::Default(_) => ConfigAction::Default,
        ConfigSubCommands::Edit(a) => ConfigAction::Edit(a),
    }
}

/// What `config` does for `args`.
pub fn config_execute_with_args(args: ConfigArgs) -> (r: ConfigAction)
    ensures
        r == config_action(args),
{
    match args.subcommand {
        ConfigSubCommands::Path(_) => ConfigAction::Path,
        ConfigSubCommands::Show(_) => ConfigAction::Show,
        ConfigSubCommands::Default(_) => ConfigAction::Default,
        ConfigSubCommands::Edit(a) => ConfigAction::Edit(a),
    }
}

/// The editor that `config edit` starts: the one named, or `vi`.
pub fn config_edit_execute_with_args(args: &ConfigEditArgs) -> (r: String)
    ensures
        r@ == (match args.editor {
            Some(editor) => editor@,
            None => "vi"@,
        }),
{
    match &args.editor {
        Some(editor) => editor.clone(),
        None => "vi".to_owned(),
    }
}

} // verus!
