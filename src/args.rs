use vstd::prelude::*;
use vstd::string::*;

verus! {

/// The command line: an optional template to use, or a subcommand.
#[derive(Debug, Clone)]
pub struct TmuxSetup {
    pub template: Option<String>,
    pub command: Option<Commands>,
}

/// The subcommands.
#[derive(Debug, Clone)]
pub enum Commands {
    /// The setup wizard, optionally writing a new template of the given name.
    Wizard { create_template: Option<String> },
}

/// What an invocation asks for.
#[derive(Debug, Clone)]
pub enum Invocation {
    /// Apply the named template.
    Template { name: String },
    /// Run the wizard.
    Wizard { create_template: Option<String> },
    /// Apply the configuration file of the working directory.
    DefaultFile,
}

/// The file name of the configuration applied when nothing else is asked for.
pub open spec fn default_config_file() -> Seq<char> {
    "tmux.conf.yml"@
}

/// The configuration file applied when nothing else is asked for.
pub fn default_config_path() -> (r: String)
    ensures
        r@ == default_config_file(),
{
    String::from_str("tmux.conf.yml")
}

/// The view of an optional string.
pub open spec fn string_option_view(o: Option<String>) -> Option<Seq<char>> {
    match o {
        Some(s) => Some(s@),
        None => None,
    }
}

impl TmuxSetup {
    /// A template takes precedence over a subcommand; with neither, the
    /// default file is applied.
    pub fn invocation(&self) -> (r: Invocation)
        ensures
            match self.template {
                Some(t) => r is Template && r->Template_name@ == t@,
                None => match self.command {
                    Some(Commands::Wizard { create_template }) => r is Wizard && string_option_view(
                        r->Wizard_create_template,
                    ) == string_option_view(create_template),
                    None => r is DefaultFile,
                },
            },
    {
        match &self.template {
            Some(t) => Invocation::Template { name: t.clone() },
            None => match &self.command {
                Some(Commands::Wizard { create_template }) => Invocation::Wizard {
                    create_template: match create_template {
                        Some(n) => Some(n.clone()),
                        None => None,
                    },
                },
                None => Invocation::DefaultFile,
            },
        }
    }
}

} // verus!
