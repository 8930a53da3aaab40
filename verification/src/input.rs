//! What the user hands to the application: the options of the command line,
//! the configuration's key bindings and the file to preview.

use crate::assets::HIGHLIGHT_JS_VERSION;
use crate::text::{joined, same_text};
use crate::ui::action::{Action, Key};
use vstd::prelude::*;
use vstd::string::*;

verus! {

/// The options of the command line.
#[derive(Clone, Debug)]
pub struct Options {
    /// Log everything, not only warnings and errors.
    pub debug: bool,
    /// The markdown file to preview, `-` for standard input. Without one the
    /// application asks for a file.
    pub input_file: Option<String>,
    /// Watch the file for changes.
    pub watch: bool,
    /// Build the page in this directory and not in a temporary one.
    pub output_dir: Option<String>,
    /// Write a configuration file with the defaults and leave.
    pub install_default_config: bool,
}

/// What the application does first.
#[derive(Clone, Debug)]
pub enum Task {
    /// Write the default configuration and leave.
    InstallDefaultConfig,
    /// Preview the file at this path.
    Preview(String),
    /// Ask the user for a file, then preview it.
    PickFile,
}

impl Options {
    /// The options from the flags and values of the command line. The command
    /// line switches watching off, with `--no-watch`; the options say whether
    /// it is on.
    pub fn build(
        debug: bool,
        input_file: Option<String>,
        no_watch: bool,
        output_dir: Option<String>,
        install_default_config: bool,
    ) -> (options: Options)
        ensures
            options == (Options {
                debug,
                input_file,
                watch: !no_watch,
                output_dir,
                install_default_config,
            }),
    {
        Options { debug, input_file, watch: !no_watch, output_dir, install_default_config }
    }

    /// The text that describes the application in its help.
    pub open spec fn description_text(yaml_path: Seq<char>, css_path: Seq<char>) -> Seq<char> {
        "A simple self-contained markdown previewer. \n\nCode highlighting via highlight.js version "@
            + HIGHLIGHT_JS_VERSION@ + "\n\nEdit configuration in: "@ + yaml_path
            + "\nAdd custom CSS in:     "@ + css_path
    }

    /// The text that describes the application in its help: what it is, the
    /// version of highlight.js it uses, and where its configuration and the
    /// user's style sheet are found.
    pub fn description(yaml_path: &str, css_path: &str) -> (text: String)
        ensures
            text@ == Self::description_text(yaml_path@, css_path@),
    {
        let mut text = joined(
            "A simple self-contained markdown previewer. \n\nCode highlighting via highlight.js version ",
            HIGHLIGHT_JS_VERSION,
        );
        text.append("\n\nEdit configuration in: ");
        text.append(yaml_path);
        text.append("\nAdd custom CSS in:     ");
        text.append(css_path);
        text
    }

    /// What the application does first: installing the configuration goes
    /// before everything, and without a file the user is asked for one.
    pub fn task(&self) -> (task: Task)
        ensures
            match task {
                Task::InstallDefaultConfig => self.install_default_config,
                Task::Preview(path) => !self.install_default_config && self.input_file == Some(
                    path,
                ),
                Task::PickFile => !self.install_default_config && self.input_file is None,
            },
    {
        if self.install_default_config {
            Task::InstallDefaultConfig
        } else {
            match &self.input_file {
                Some(path) => Task::Preview(path.clone()),
                None => Task::PickFile,
            }
        }
    }

    /// Whether `input` is watched for changes: a file on disk is, unless
    /// watching is switched off; standard input never is.
    pub fn watches(&self, input: &InputFile) -> (watched: bool)
        ensures
            watched == (self.watch && input is Filesystem),
    {
        input.is_real_file() && self.watch
    }
}

/// One key binding of the configuration, its key looked up in the keyboard
/// tables. An entry names its key either by a character or by a name, never
/// by both: `Keymaps::add_config_mappings` checks it.
#[derive(Clone, Debug)]
pub struct MappingDefinition {
    /// The key of the character that the entry gives, if it gives one.
    pub key_char: Option<Key>,
    /// The key of the name that the entry gives, if it gives one.
    pub key_name: Option<Key>,
    /// The names of the modifiers: each `"control"`, `"shift"` or `"alt"`.
    pub modifiers: Vec<String>,
    /// The action that the entry binds the key to.
    pub action: Action,
}

/// The path that stands for standard input on the command line.
pub const STDIN_PATH: &'static str = "-";

/// The file that is previewed.
#[derive(Clone, Debug)]
pub enum InputFile {
    /// A file on disk, by its path.
    Filesystem(String),
    /// Standard input, by the path of the temporary file that holds what was
    /// read from it.
    Stdin(String),
}

impl InputFile {
    /// Whether `path` stands for standard input.
    pub fn names_stdin(path: &str) -> (stdin: bool)
        ensures
            stdin == (path@ == STDIN_PATH@),
    {
        same_text(path, STDIN_PATH)
    }

    /// The input for the path of the command line. Where the path stands for
    /// standard input, `spool` is the path of the temporary file that holds
    /// what was read from it; else `spool` is not looked at.
    pub fn from(path: &str, spool: &str) -> (input: InputFile)
        ensures
            match input {
                InputFile::Stdin(file) => path@ == STDIN_PATH@ && file@ == spool@,
                InputFile::Filesystem(file) => path@ != STDIN_PATH@ && file@ == path@,
            },
    {
        if Self::names_stdin(path) {
            InputFile::Stdin(String::from_str(spool))
        } else {
            InputFile::Filesystem(String::from_str(path))
        }
    }

    /// The path of the file on disk that holds the input.
    pub fn path(&self) -> (path: &str)
        ensures
            match self {
                InputFile::Filesystem(file) => path@ == file@,
                InputFile::Stdin(file) => path@ == file@,
            },
    {
        match self {
            InputFile::Filesystem(file) => file.as_str(),
            InputFile::Stdin(file) => file.as_str(),
        }
    }

    /// Whether the input is a file that the user has on disk.
    pub fn is_real_file(&self) -> (on_disk: bool)
        ensures
            on_disk == (self is Filesystem),
    {
        match self {
            InputFile::Filesystem(_) => true,
            InputFile::Stdin(_) => false,
        }
    }
}

} // verus!
