use std::sync::mpsc;
use std::sync::mpsc::TryRecvError;

use quickmd::background::{
    deliver, delivery_of, signal, Delivery, FileEvent, Reaction, Sender, WatchSet, WatchTarget,
    MAX_AUXILIARY,
};
use quickmd::markdown::Renderer;
use quickmd::ui::Event;

fn renderer() -> Renderer {
    Renderer::with_parent(
        String::from("doc.md"),
        Some(String::from("/notes/doc.md")),
        Some(String::from("/notes")),
    )
}

fn watched() -> WatchSet {
    let mut watched = WatchSet::new(String::from("/notes/doc.md"));
    assert!(watched.add_auxiliary(String::from("/home/me/.config/quickmd/custom.css")));
    watched
}

fn write(path: &str) -> FileEvent {
    FileEvent::Write(String::from(path))
}

fn create(path: &str) -> FileEvent {
    FileEvent::Create(String::from(path))
}

/// One step of the watcher: what it sends for `event` when the markdown file
/// holds `markdown` at that time.
fn step(
    watched: &WatchSet,
    renderer: &Renderer,
    sender: &mut mpsc::Sender<Event>,
    event: &FileEvent,
    markdown: &str,
) -> Delivery {
    let reaction = watched.reaction(event);
    deliver(sender, signal(renderer, reaction, Some(markdown)))
}

#[test]
fn test_update_loop_detects_file_updates() {
    let renderer = Renderer::new(String::from("file.md"), Some(String::from("/tmp/dir/file.md")));
    let watched = WatchSet::new(renderer.canonical_md_path.clone());
    let (mut sender, receiver) = mpsc::channel();

    // The file held "# Test" when the watcher started, and is written now.
    let event = write("/tmp/dir/file.md");
    assert_eq!(step(&watched, &renderer, &mut sender, &event, "# Changed"), Delivery::Sent);

    // Expect LoadHtml message
    let message = receiver.try_recv();
    assert!(matches!(&message, Ok(Event::LoadHtml(content)) if content.html == "<h1>Changed</h1>\n"));

    // Expect no further message
    let message = receiver.try_recv();
    assert!(matches!(message, Err(TryRecvError::Empty)));
}

#[test]
fn test_update_loop_detects_file_creation() {
    let renderer = Renderer::new(String::from("file.md"), Some(String::from("/tmp/dir/file.md")));
    let watched = WatchSet::new(renderer.canonical_md_path.clone());
    let (mut sender, receiver) = mpsc::channel();

    // The file was removed and written again: the watcher reports a creation.
    let event = create("/tmp/dir/file.md");
    assert_eq!(step(&watched, &renderer, &mut sender, &event, "# Changed"), Delivery::Sent);

    // Expect LoadHtml message
    let message = receiver.try_recv();
    assert!(matches!(message, Ok(Event::LoadHtml(_))));

    // Expect no further message
    let message = receiver.try_recv();
    assert!(matches!(message, Err(TryRecvError::Empty)));
}

#[test]
fn test_update_loop_ignores_unrelated_files() {
    let renderer = Renderer::new(String::from("file.md"), Some(String::from("/tmp/dir/file.md")));
    let watched = WatchSet::new(renderer.canonical_md_path.clone());
    let (mut sender, receiver) = mpsc::channel();

    // Update only the "other" file
    let event = write("/tmp/dir/other.md");
    assert_eq!(step(&watched, &renderer, &mut sender, &event, "# Test"), Delivery::Nothing);

    // No message
    let message = receiver.try_recv();
    assert!(matches!(message, Err(TryRecvError::Empty)));
}

#[test]
fn test_a_write_of_the_markdown_file_sends_its_content_once() {
    let watched = watched();
    let renderer = renderer();
    let (mut sender, receiver) = mpsc::channel();

    // The file held "# A" before; what is rendered is what it holds now.
    let reaction = watched.reaction(&write("/notes/doc.md"));
    assert_eq!(reaction, Reaction::Render);
    let sent = signal(&renderer, reaction, Some("# B"));
    assert_eq!(deliver(&mut sender, sent), Delivery::Sent);

    match receiver.try_recv() {
        Ok(Event::LoadHtml(content)) => assert_eq!(content.html, "<h1>B</h1>\n"),
        other => panic!("expected the new content, got {:?}", other),
    }
    assert!(matches!(receiver.try_recv(), Err(TryRecvError::Empty)));
}

#[test]
fn test_a_file_that_is_created_again_counts_as_written() {
    let watched = watched();
    assert_eq!(watched.reaction(&create("/notes/doc.md")), Reaction::Render);
    assert_eq!(
        watched.reaction(&create("/home/me/.config/quickmd/custom.css")),
        Reaction::Reload
    );
}

#[test]
fn test_a_change_of_a_style_file_sends_one_reload() {
    let watched = watched();
    let renderer = renderer();
    let (mut sender, receiver) = mpsc::channel();

    let reaction = watched.reaction(&write("/home/me/.config/quickmd/custom.css"));
    assert_eq!(reaction, Reaction::Reload);
    // Whether the markdown file can be read does not matter.
    assert!(matches!(signal(&renderer, reaction, Some("# A")), Some(Event::Reload)));
    let sent = signal(&renderer, reaction, None);
    assert!(matches!(sent, Some(Event::Reload)));
    assert_eq!(deliver(&mut sender, sent), Delivery::Sent);

    assert!(matches!(receiver.try_recv(), Ok(Event::Reload)));
    assert!(matches!(receiver.try_recv(), Err(TryRecvError::Empty)));
}

#[test]
fn test_changes_of_other_files_send_nothing() {
    let watched = watched();
    let renderer = renderer();
    let (mut sender, receiver) = mpsc::channel();

    for event in [
        write("/notes/other.md"),
        create("/notes/other.md"),
        write("/notes/doc.md.swp"),
        write("/notes"),
        write("doc.md"),
        write(""),
        FileEvent::Other,
    ] {
        let reaction = watched.reaction(&event);
        assert_eq!(reaction, Reaction::Ignore);
        let sent = signal(&renderer, reaction, Some("# A"));
        assert!(sent.is_none());
        assert_eq!(deliver(&mut sender, sent), Delivery::Nothing);
    }
    assert!(matches!(receiver.try_recv(), Err(TryRecvError::Empty)));
}

#[test]
fn test_a_file_that_cannot_be_read_sends_nothing() {
    let sent = signal(&renderer(), Reaction::Render, None);
    assert!(sent.is_none());
}

#[test]
fn test_the_markdown_file_wins_over_a_style_file_at_the_same_path() {
    let mut watched = WatchSet::new(String::from("/notes/doc.md"));
    assert!(watched.add_auxiliary(String::from("/notes/doc.md")));
    assert_eq!(watched.reaction(&write("/notes/doc.md")), Reaction::Render);
}

#[test]
fn test_at_most_two_style_files_are_watched() {
    let mut watched = WatchSet::new(String::from("/notes/doc.md"));
    assert_eq!(MAX_AUXILIARY, 2);
    assert_eq!(watched.reaction(&write("/a.css")), Reaction::Ignore);
    assert!(watched.add_auxiliary(String::from("/a.css")));
    assert!(watched.add_auxiliary(String::from("/b.css")));
    assert!(!watched.add_auxiliary(String::from("/c.css")));
    assert_eq!(watched.reaction(&write("/a.css")), Reaction::Reload);
    assert_eq!(watched.reaction(&write("/b.css")), Reaction::Reload);
    assert_eq!(watched.reaction(&write("/c.css")), Reaction::Ignore);
}

#[test]
fn test_only_the_markdown_file_must_be_watched() {
    let mut watched = WatchSet::new(String::from("/notes/doc.md"));
    let css = WatchTarget::AuxiliaryStyle(String::from("/a.css"));
    let document = WatchTarget::PrimaryDocument(String::from("/notes"));

    assert!(watched.registered(css.clone(), false));
    assert_eq!(watched.reaction(&write("/a.css")), Reaction::Ignore);
    assert!(watched.registered(css, true));
    assert_eq!(watched.reaction(&write("/a.css")), Reaction::Reload);

    assert!(watched.registered(document.clone(), true));
    assert!(!watched.registered(document, false));
    assert_eq!(watched.reaction(&write("/notes/doc.md")), Reaction::Render);
}

#[test]
fn test_a_receiver_that_is_gone_is_reported() {
    let (mut sender, receiver) = mpsc::channel();
    drop(receiver);
    assert_eq!(deliver(&mut sender, Some(Event::Reload)), Delivery::ReceiverGone);
    assert_eq!(deliver(&mut sender, None), Delivery::Nothing);
    assert!(Sender::send(&mut sender, Event::Reload).is_err());
}

#[test]
fn test_what_became_of_a_signal() {
    assert_eq!(delivery_of(&Ok(())), Delivery::Sent);
    assert_eq!(delivery_of(&Err(mpsc::SendError(Event::Reload))), Delivery::ReceiverGone);
}

#[test]
fn test_signals_arrive_in_the_order_in_which_they_were_sent() {
    let renderer = renderer();
    let (mut sender, receiver) = mpsc::channel();
    deliver(&mut sender, signal(&renderer, Reaction::Render, Some("one")));
    deliver(&mut sender, signal(&renderer, Reaction::Reload, None));
    deliver(&mut sender, signal(&renderer, Reaction::Render, Some("two")));

    assert!(matches!(receiver.try_recv(), Ok(Event::LoadHtml(c)) if c.html == "<p>one</p>\n"));
    assert!(matches!(receiver.try_recv(), Ok(Event::Reload)));
    assert!(matches!(receiver.try_recv(), Ok(Event::LoadHtml(c)) if c.html == "<p>two</p>\n"));
    assert!(matches!(receiver.try_recv(), Err(TryRecvError::Empty)));
}
