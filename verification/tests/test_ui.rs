use quickmd::input::InputFile;
use quickmd::ui::action::{Action, Key, Keymaps, Modifiers};
use quickmd::ui::{
    editor_call, key_press, key_release, page_uri, release_command, scroll_script, title,
    wheel_command, window_title, Command, WheelDirection, PATH_PLACEHOLDER,
};

const ALL_ACTIONS: [Action; 14] = [
    Action::Noop,
    Action::SmallScrollUp,
    Action::SmallScrollDown,
    Action::BigScrollUp,
    Action::BigScrollDown,
    Action::ScrollToTop,
    Action::ScrollToBottom,
    Action::Quit,
    Action::LaunchEditor,
    Action::ExecEditor,
    Action::ZoomIn,
    Action::ZoomOut,
    Action::ZoomReset,
    Action::ShowHelp,
];

fn words(all: &[&str]) -> Vec<String> {
    all.iter().map(|word| String::from(*word)).collect()
}

#[test]
fn test_scrolling_runs_a_script_when_the_key_is_pressed() {
    assert_eq!(scroll_script(Action::SmallScrollDown), Some("window.scrollBy(0, 70)"));
    assert_eq!(scroll_script(Action::BigScrollDown), Some("window.scrollBy(0, 250)"));
    assert_eq!(scroll_script(Action::SmallScrollUp), Some("window.scrollBy(0, -70)"));
    assert_eq!(scroll_script(Action::BigScrollUp), Some("window.scrollBy(0, -250)"));
    assert_eq!(scroll_script(Action::ScrollToTop), Some("window.scroll({top: 0})"));
    assert_eq!(
        scroll_script(Action::ScrollToBottom),
        Some("window.scroll({top: document.body.scrollHeight})")
    );
}

#[test]
fn test_the_other_actions_run_once_when_the_key_is_let_go() {
    assert_eq!(release_command(Action::LaunchEditor), Some(Command::LaunchEditor));
    assert_eq!(release_command(Action::ExecEditor), Some(Command::ExecEditor));
    assert_eq!(release_command(Action::ZoomIn), Some(Command::ZoomIn));
    assert_eq!(release_command(Action::ZoomOut), Some(Command::ZoomOut));
    assert_eq!(release_command(Action::ZoomReset), Some(Command::ZoomReset));
    assert_eq!(release_command(Action::ShowHelp), Some(Command::ShowHelp));
    assert_eq!(release_command(Action::Quit), Some(Command::Quit));
}

#[test]
fn test_no_action_runs_twice_and_noop_never() {
    for action in ALL_ACTIONS {
        let on_press = scroll_script(action).is_some();
        let on_release = release_command(action).is_some();
        assert_eq!(on_press || on_release, action != Action::Noop);
        assert!(!(on_press && on_release));
    }
}

#[test]
fn test_keys_reach_their_commands_through_the_keymap() {
    let keymaps = Keymaps::default();
    let none = Modifiers::empty();
    let j = Key::lowercase(0x6a);
    let capital_g = Key::uppercase(0x47, 0x67);
    let q = Key::lowercase(0x71);
    let plus = Key::caseless(0x2b);

    assert_eq!(key_press(&keymaps, none, j), Some("window.scrollBy(0, 70)"));
    assert_eq!(key_release(&keymaps, none, j), None);
    assert_eq!(
        key_press(&keymaps, none, capital_g),
        Some("window.scroll({top: document.body.scrollHeight})")
    );
    assert_eq!(key_press(&keymaps, Modifiers::control(), q), None);
    assert_eq!(key_release(&keymaps, Modifiers::control(), q), Some(Command::Quit));
    assert_eq!(key_release(&keymaps, none, q), None);
    assert_eq!(key_release(&keymaps, none, plus), Some(Command::ZoomIn));
}

#[test]
fn test_the_wheel_zooms_with_control_only() {
    assert_eq!(wheel_command(true, WheelDirection::Up), Some(Command::ZoomIn));
    assert_eq!(wheel_command(true, WheelDirection::Down), Some(Command::ZoomOut));
    assert_eq!(wheel_command(true, WheelDirection::Other), None);
    assert_eq!(wheel_command(false, WheelDirection::Up), None);
    assert_eq!(wheel_command(false, WheelDirection::Down), None);
    assert_eq!(wheel_command(false, WheelDirection::Other), None);
}

#[test]
fn test_the_editor_is_called_on_the_file() {
    assert_eq!(PATH_PLACEHOLDER, "{path}");
    assert!(editor_call(&Vec::new(), "/notes/doc.md").is_none());

    let call = editor_call(&words(&["gvim"]), "/notes/doc.md").unwrap();
    assert_eq!(call.program, "gvim");
    assert!(call.arguments.is_empty());

    let command = words(&["alacritty", "-e", "vim", "{path}", "--", "{path}", "{path}s", ""]);
    let call = editor_call(&command, "/notes/doc.md").unwrap();
    assert_eq!(call.program, "alacritty");
    assert_eq!(
        call.arguments,
        vec!["-e", "vim", "/notes/doc.md", "--", "/notes/doc.md", "{path}s", ""]
    );

    // The program itself is taken as it is written.
    let call = editor_call(&words(&["{path}", "{path}"]), "x").unwrap();
    assert_eq!(call.program, "{path}");
    assert_eq!(call.arguments, vec!["x"]);
}

#[test]
fn test_the_title_names_the_file() {
    let file = InputFile::from("/notes/doc.md", "");
    let stdin = InputFile::from("-", "/tmp/spool");
    assert_eq!(window_title(&file, "~/doc.md"), "~/doc.md - Quickmd");
    assert_eq!(window_title(&file, ""), " - Quickmd");
    assert_eq!(window_title(&stdin, "~/doc.md"), "Quickmd");
    assert_eq!(title(&stdin), "Quickmd");
}

#[test]
fn test_the_title_follows_the_home_directory() {
    // A path outside every home directory has no shorter form.
    let file = InputFile::from("/nowhere-at-all/doc.md", "");
    assert_eq!(title(&file), "/nowhere-at-all/doc.md - Quickmd");
}

#[test]
fn test_the_page_is_loaded_from_disk() {
    assert_eq!(page_uri("/tmp/x/index.html"), "file:///tmp/x/index.html");
    assert_eq!(page_uri(""), "file://");
}
