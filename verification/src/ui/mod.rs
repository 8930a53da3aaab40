//! What the preview window decides: which command a key stands for and what
//! each command does to the page.

pub mod action;

use crate::input::InputFile;
use crate::markdown::{RenderedContent, RenderedView};
use crate::text::{joined, same_text, texts};
use crate::ui::action::{Action, Key, Keymaps, Modifiers};
use pathbuftools::PathBufTools;
use vstd::prelude::*;
use vstd::string::*;

verus! {

/// What the file watcher asks of the preview window.
#[derive(Debug)]
pub enum Event {
    /// Show this content in place of what is shown.
    LoadHtml(RenderedContent),
    /// Load the page that is shown once more.
    Reload,
}

/// What the window does when a key is let go.
#[derive(Clone, Copy, Debug, PartialEq, Eq, Structural)]
pub enum Command {
    /// Start the editor beside the preview.
    LaunchEditor,
    /// Replace the preview by the editor.
    ExecEditor,
    /// Zoom in by a tenth.
    ZoomIn,
    /// Zoom out by a tenth.
    ZoomOut,
    /// Go back to the configured zoom level.
    ZoomReset,
    /// Show the help popup.
    ShowHelp,
    /// Leave the application.
    Quit,
}

/// The direction in which the mouse wheel turns.
#[derive(Clone, Copy, Debug, PartialEq, Eq, Structural)]
pub enum WheelDirection {
    /// Away from the user.
    Up,
    /// Towards the user.
    Down,
    /// To a side, or by an amount that has no direction.
    Other,
}

/// The script that scrolls the page for an action. Scrolling repeats while
/// the key is held, so it runs when a key is pressed.
pub open spec fn scroll_script_for(action: Action) -> Option<&'static str> {
    match action {
        Action::SmallScrollDown => Some("window.scrollBy(0, 70)"),
        Action::BigScrollDown => Some("window.scrollBy(0, 250)"),
        Action::SmallScrollUp => Some("window.scrollBy(0, -70)"),
        Action::BigScrollUp => Some("window.scrollBy(0, -250)"),
        Action::ScrollToTop => Some("window.scroll({top: 0})"),
        Action::ScrollToBottom => Some("window.scroll({top: document.body.scrollHeight})"),
        _ => None,
    }
}

/// The command that an action stands for when its key is let go. What
/// happens once runs then, and not while the key is held.
pub open spec fn release_command_for(action: Action) -> Option<Command> {
    match action {
        Action::LaunchEditor => Some(Command::LaunchEditor),
        Action::ExecEditor => Some(Command::ExecEditor),
        Action::ZoomIn => Some(Command::ZoomIn),
        Action::ZoomOut => Some(Command::ZoomOut),
        Action::ZoomReset => Some(Command::ZoomReset),
        Action::ShowHelp => Some(Command::ShowHelp),
        Action::Quit => Some(Command::Quit),
        _ => None,
    }
}

/// The script to run in the page when `action`'s key is pressed, if any.
pub fn scroll_script(action: Action) -> (script: Option<&'static str>)
    ensures
        script == scroll_script_for(action),
{
    match action {
        Action::SmallScrollDown => Some("window.scrollBy(0, 70)"),
        Action::BigScrollDown => Some("window.scrollBy(0, 250)"),
        Action::SmallScrollUp => Some("window.scrollBy(0, -70)"),
        Action::BigScrollUp => Some("window.scrollBy(0, -250)"),
        Action::ScrollToTop => Some("window.scroll({top: 0})"),
        Action::ScrollToBottom => Some("window.scroll({top: document.body.scrollHeight})"),
        _ => None,
    }
}

/// What the window does when `action`'s key is let go, if anything.
pub fn release_command(action: Action) -> (command: Option<Command>)
    ensures
        command == release_command_for(action),
{
    match action {
        Action::LaunchEditor => Some(Command::LaunchEditor),
        Action::ExecEditor => Some(Command::ExecEditor),
        Action::ZoomIn => Some(Command::ZoomIn),
        Action::ZoomOut => Some(Command::ZoomOut),
        Action::ZoomReset => Some(Command::ZoomReset),
        Action::ShowHelp => Some(Command::ShowHelp),
        Action::Quit => Some(Command::Quit),
        _ => None,
    }
}

/// The script to run in the page when `key` is pressed with `modifiers`.
pub fn key_press(keymaps: &Keymaps, modifiers: Modifiers, key: Key) -> (script: Option<&'static str>)
    ensures
        script == scroll_script_for(crate::ui::action::resolve(keymaps@, modifiers, key)),
{
    scroll_script(keymaps.get_action(modifiers, key))
}

/// What the window does when `key` is let go with `modifiers` held.
pub fn key_release(keymaps: &Keymaps, modifiers: Modifiers, key: Key) -> (command: Option<Command>)
    ensures
        command == release_command_for(crate::ui::action::resolve(keymaps@, modifiers, key)),
{
    release_command(keymaps.get_action(modifiers, key))
}

/// What the window does when the wheel turns: with control held it zooms in
/// when the wheel turns up and out when it turns down.
pub fn wheel_command(control: bool, direction: WheelDirection) -> (command: Option<Command>)
    ensures
        command == match (control, direction) {
            (true, WheelDirection::Up) => Some(Command::ZoomIn),
            (true, WheelDirection::Down) => Some(Command::ZoomOut),
            _ => None,
        },
{
    if control {
        match direction {
            WheelDirection::Up => Some(Command::ZoomIn),
            WheelDirection::Down => Some(Command::ZoomOut),
            WheelDirection::Other => None,
        }
    } else {
        None
    }
}

/// What stands for the file's path in the editor's command line.
pub const PATH_PLACEHOLDER: &'static str = "{path}";

/// A program to start, with its arguments.
#[derive(Clone, Debug)]
pub struct EditorCall {
    /// The program.
    pub program: String,
    /// Its arguments, in their order.
    pub arguments: Vec<String>,
}

/// One argument of the editor: the file's path where the configuration
/// wrote the placeholder, else what the configuration wrote.
pub open spec fn editor_argument(argument: Seq<char>, file_path: Seq<char>) -> Seq<char> {
    if argument == PATH_PLACEHOLDER@ {
        file_path
    } else {
        argument
    }
}

/// The arguments of the editor: those of the configuration after the program,
/// each with the placeholder filled in.
pub open spec fn editor_arguments(
    editor_command: Seq<Seq<char>>,
    file_path: Seq<char>,
) -> Seq<Seq<char>> {
    Seq::new(
        (editor_command.len() - 1) as nat,
        |i: int| editor_argument(editor_command[i + 1], file_path),
    )
}

/// How the editor is started on the file at `file_path`: the first word of
/// the configured command is the program, the others are its arguments, with
/// the file's path in place of each `{path}`. Without a configured command
/// there is no editor to start.
pub fn editor_call(editor_command: &Vec<String>, file_path: &str) -> (call: Option<EditorCall>)
    ensures
        call is Some <==> editor_command.len() > 0,
        call matches Some(editor) ==> editor.program@ == editor_command[0]@ && texts(
            editor.arguments@,
        ) == editor_arguments(texts(editor_command@), file_path@),
{
    if editor_command.len() == 0 {
        return None;
    }
    let mut arguments: Vec<String> = Vec::new();
    let mut i: usize = 1;
    while i < editor_command.len()
        invariant
            1 <= i <= editor_command.len(),
            arguments.len() == i - 1,
            forall|j: int|
                0 <= j < i - 1 ==> (#[trigger] arguments[j])@ == editor_argument(
                    editor_command[j + 1]@,
                    file_path@,
                ),
        decreases editor_command.len() - i,
    {
        if same_text(editor_command[i].as_str(), PATH_PLACEHOLDER) {
            arguments.push(String::from_str(file_path));
        } else {
            arguments.push(editor_command[i].clone());
        }
        i = i + 1;
    }
    assert(texts(arguments@) =~= editor_arguments(texts(editor_command@), file_path@));
    Some(EditorCall { program: editor_command[0].clone(), arguments })
}

/// The window's title: the file's short path and the application's name, or
/// the name alone for what came from standard input.
pub open spec fn title_text(input: InputFile, short_path: Seq<char>) -> Seq<char> {
    match input {
        InputFile::Filesystem(_) => short_path + " - Quickmd"@,
        InputFile::Stdin(_) => "Quickmd"@,
    }
}

/// The window's title for `input`, where `short_path` is the short form of
/// the path of a file on disk.
pub fn window_title(input: &InputFile, short_path: &str) -> (title: String)
    ensures
        title@ == title_text(*input, short_path@),
{
    match input {
        InputFile::Filesystem(_) => joined(short_path, " - Quickmd"),
        InputFile::Stdin(_) => String::from_str("Quickmd"),
    }
}

/// Calls `pathbuftools::PathBufTools::short_path`, which writes `~` for the
/// user's home directory at the start of a path. Where that directory is
/// depends on the environment, so nothing is claimed of the result.
#[verifier::external_body]
fn short_path(path: &str) -> (short: String) {
    std::path::PathBuf::from(path).short_path().to_string_lossy().into_owned()
}

/// The window's title for `input`: that of `window_title`, with the file's
/// path shortened as the environment allows.
pub fn title(input: &InputFile) -> (title: String)
    ensures
        exists|short: Seq<char>| title@ == #[trigger] title_text(*input, short),
{
    match input {
        InputFile::Filesystem(path) => {
            let short = short_path(path.as_str());
            let title = window_title(input, short.as_str());
            assert(title@ == title_text(*input, short@));
            title
        },
        InputFile::Stdin(_) => {
            let title = window_title(input, "");
            assert(title@ == title_text(*input, ""@));
            title
        },
    }
}

/// The address under which the window loads the page at `path`.
pub fn page_uri(path: &str) -> (uri: String)
    ensures
        uri@ == "file://"@ + path@,
{
    joined("file://", path)
}

/// An `Event` as a value of specifications.
pub enum EventView {
    /// Show this content.
    LoadHtml(RenderedView),
    /// Load the page once more.
    Reload,
}

impl View for Event {
    type V = EventView;

    open spec fn view(&self) -> EventView {
        match self {
            Event::LoadHtml(content) => EventView::LoadHtml(content@),
            Event::Reload => EventView::Reload,
        }
    }
}

} // verus!
