//! Watching the markdown file: what a change on disk asks of the window.
//!
//! The file system is watched outside: a watcher hands each change over as a
//! `FileEvent`, already debounced. What is decided here is which changes
//! count, and what is sent to the window for each.

use crate::markdown::{rendered, Renderer};
use crate::text::{holds_text, same_text, texts};
use crate::ui::{Event, EventView};
use std::sync::mpsc::SendError;
use vstd::prelude::*;

verus! {

/// Declares `std::sync::mpsc::SendError` to Verus, which sees nothing inside.
#[verifier::external_type_specification]
#[verifier::external_body]
#[verifier::reject_recursive_types(T)]
pub struct ExSendError<T>(std::sync::mpsc::SendError<T>);

/// Declares `std::sync::mpsc::Sender` to Verus, which sees nothing inside.
#[verifier::external_type_specification]
#[verifier::external_body]
#[verifier::reject_recursive_types(T)]
pub struct ExSender<T>(std::sync::mpsc::Sender<T>);

/// The way to the preview window. Whatever carries an `Event` to the one
/// receiver at the other end can stand here.
pub trait Sender {
    /// Sends `event` to the receiver, or gives it back when the receiver is
    /// gone.
    fn send(&mut self, event: Event) -> Result<(), SendError<Event>>;
}

/// Calls `std::sync::mpsc::Sender::send`, which hands the event to the
/// channel's receiver or gives it back as an error when the receiver is gone.
/// Which of the two happens is not known here.
#[verifier::external_body]
fn channel_send(channel: &std::sync::mpsc::Sender<Event>, event: Event) -> Result<
    (),
    SendError<Event>,
> {
    channel.send(event)
}

impl Sender for std::sync::mpsc::Sender<Event> {
    fn send(&mut self, event: Event) -> Result<(), SendError<Event>> {
        channel_send(self, event)
    }
}

/// A change on disk, as the watcher reports it once it has settled.
#[derive(Clone, Debug)]
pub enum FileEvent {
    /// The file at this path was written.
    Write(String),
    /// The file at this path was created, perhaps after it was removed.
    Create(String),
    /// Anything else: a removal, a rename, a change of permissions.
    Other,
}

impl FileEvent {
    /// The path of the file that was written or created.
    pub open spec fn changed_path(self) -> Option<Seq<char>> {
        match self {
            FileEvent::Write(path) => Some(path@),
            FileEvent::Create(path) => Some(path@),
            FileEvent::Other => None,
        }
    }
}

/// What a change asks for.
#[derive(Clone, Copy, Debug, PartialEq, Eq, Structural)]
pub enum Reaction {
    /// The markdown file changed: read it, render it and show the result.
    Render,
    /// A style file changed: load the page again as it is.
    Reload,
    /// Nothing to do.
    Ignore,
}

/// The reaction to a change of the file at `changed`, if a file changed at
/// all, when `primary` is the markdown file and `auxiliary` are the style
/// files.
pub open spec fn reaction_to(
    primary: Seq<char>,
    auxiliary: Seq<Seq<char>>,
    changed: Option<Seq<char>>,
) -> Reaction {
    match changed {
        Some(path) => if path == primary {
            Reaction::Render
        } else if auxiliary.contains(path) {
            Reaction::Reload
        } else {
            Reaction::Ignore
        },
        None => Reaction::Ignore,
    }
}

/// A path that the watcher is asked to watch.
#[derive(Clone, Debug)]
pub enum WatchTarget {
    /// The markdown file, by the path that it is watched under. Nothing can
    /// be done without it.
    PrimaryDocument(String),
    /// A style file. The preview works without it.
    AuxiliaryStyle(String),
}

/// The most style files that are watched beside the markdown file.
pub const MAX_AUXILIARY: usize = 2;

/// The files whose changes count: the markdown file and at most two style
/// files.
#[derive(Debug)]
pub struct WatchSet {
    primary: String,
    auxiliary: Vec<String>,
}

impl WatchSet {
    /// The path of the markdown file.
    pub closed spec fn primary(&self) -> Seq<char> {
        self.primary@
    }

    /// The paths of the style files.
    pub closed spec fn auxiliary(&self) -> Seq<Seq<char>> {
        texts(self.auxiliary@)
    }

    /// Whether no more than two style files are watched.
    pub open spec fn well_formed(&self) -> bool {
        self.auxiliary().len() <= MAX_AUXILIARY
    }

    /// Watches the markdown file at `primary` and no style file.
    pub fn new(primary: String) -> (watched: WatchSet)
        ensures
            watched.well_formed(),
            watched.primary() == primary@,
            watched.auxiliary() == Seq::<Seq<char>>::empty(),
    {
        let watched = WatchSet { primary, auxiliary: Vec::new() };
        assert(watched.auxiliary() =~= Seq::<Seq<char>>::empty());
        watched
    }

    /// Watches the style file at `path` too, unless two are watched already.
    /// Says whether it is watched now.
    pub fn add_auxiliary(&mut self, path: String) -> (added: bool)
        requires
            old(self).well_formed(),
        ensures
            final(self).well_formed(),
            final(self).primary() == old(self).primary(),
            added == (old(self).auxiliary().len() < MAX_AUXILIARY),
            final(self).auxiliary() == if added {
                old(self).auxiliary().push(path@)
            } else {
                old(self).auxiliary()
            },
    {
        if self.auxiliary.len() < MAX_AUXILIARY {
            self.auxiliary.push(path);
            assert(self.auxiliary() =~= old(self).auxiliary().push(path@));
            true
        } else {
            false
        }
    }

    /// Takes note of an attempt to watch `target`, and says whether the
    /// watcher goes on. It stops when the markdown file cannot be watched. A
    /// style file that cannot be watched is left out, and one that can is
    /// watched from now on, unless two are watched already.
    pub fn registered(&mut self, target: WatchTarget, succeeded: bool) -> (go_on: bool)
        requires
            old(self).well_formed(),
        ensures
            final(self).well_formed(),
            final(self).primary() == old(self).primary(),
            match target {
                WatchTarget::PrimaryDocument(_) => go_on == succeeded && final(self).auxiliary()
                    == old(self).auxiliary(),
                WatchTarget::AuxiliaryStyle(path) => go_on && final(self).auxiliary() == if succeeded
                    && old(self).auxiliary().len() < MAX_AUXILIARY {
                    old(self).auxiliary().push(path@)
                } else {
                    old(self).auxiliary()
                },
            },
    {
        match target {
            WatchTarget::PrimaryDocument(_) => succeeded,
            WatchTarget::AuxiliaryStyle(path) => {
                if succeeded {
                    self.add_auxiliary(path);
                }
                true
            },
        }
    }

    /// What `event` asks for: a change of the markdown file asks for a
    /// rendering, a change of a style file for a reload, and anything else
    /// for nothing. A file that is created counts like one that is written.
    pub fn reaction(&self, event: &FileEvent) -> (reaction: Reaction)
        ensures
            reaction == reaction_to(self.primary(), self.auxiliary(), event.changed_path()),
    {
        match event {
            FileEvent::Write(path) => self.reaction_to_change(path.as_str()),
            FileEvent::Create(path) => self.reaction_to_change(path.as_str()),
            FileEvent::Other => Reaction::Ignore,
        }
    }

    fn reaction_to_change(&self, path: &str) -> (reaction: Reaction)
        ensures
            reaction == reaction_to(self.primary(), self.auxiliary(), Some(path@)),
    {
        if same_text(path, self.primary.as_str()) {
            Reaction::Render
        } else if holds_text(&self.auxiliary, path) {
            Reaction::Reload
        } else {
            Reaction::Ignore
        }
    }
}

/// What is sent to the window for a reaction, when the markdown file stands
/// in `root_dir` and `markdown` is its text as it was read after the change,
/// or `None` where it could not be read.
pub open spec fn signal_for(
    root_dir: Seq<char>,
    reaction: Reaction,
    markdown: Option<Seq<char>>,
) -> Option<EventView> {
    match reaction {
        Reaction::Render => match markdown {
            Some(text) => Some(EventView::LoadHtml(rendered(text, root_dir))),
            None => None,
        },
        Reaction::Reload => Some(EventView::Reload),
        Reaction::Ignore => None,
    }
}

/// What is sent to the window for a reaction. `markdown` is the text of the
/// markdown file as it was read after the change, or `None` where it could not
/// be read.
///
/// A rendering sends the new content, unless the file could not be read: then
/// nothing is sent. A reload sends the bare instruction, whatever the file
/// holds. Nothing is sent where nothing is to do.
pub fn signal(renderer: &Renderer, reaction: Reaction, markdown: Option<&str>) -> (sent: Option<Event>)
    ensures
        match sent {
            Some(event) => Some(event@),
            None => None,
        } == signal_for(
            renderer.root_dir@,
            reaction,
            match markdown {
                Some(text) => Some(text@),
                None => None,
            },
        ),
        sent matches Some(Event::LoadHtml(content)) ==> content.well_formed(),
{
    match reaction {
        Reaction::Render => match markdown {
            Some(text) => Some(Event::LoadHtml(renderer.run(text))),
            None => None,
        },
        Reaction::Reload => Some(Event::Reload),
        Reaction::Ignore => None,
    }
}

/// What became of a signal.
#[derive(Clone, Copy, Debug, PartialEq, Eq, Structural)]
pub enum Delivery {
    /// There was nothing to send.
    Nothing,
    /// The signal was handed to the receiver.
    Sent,
    /// The receiver is gone: the signal is lost.
    ReceiverGone,
}

/// What became of a signal, from what sending it gave.
pub fn delivery_of(outcome: &Result<(), SendError<Event>>) -> (delivery: Delivery)
    ensures
        delivery == if outcome is Ok {
            Delivery::Sent
        } else {
            Delivery::ReceiverGone
        },
{
    match outcome {
        Ok(_) => Delivery::Sent,
        Err(_) => Delivery::ReceiverGone,
    }
}

/// Sends `signal`, if there is one, and says what became of it. A receiver
/// that is gone is no reason to stop watching.
pub fn deliver<S: Sender>(sender: &mut S, signal: Option<Event>) -> (delivery: Delivery)
    ensures
        delivery == Delivery::Nothing <==> signal is None,
{
    match signal {
        Some(event) => delivery_of(&sender.send(event)),
        None => Delivery::Nothing,
    }
}

/// A file that is written or created at the markdown file's path, and whose
/// text can be read, sends exactly one signal: the rendering of the text that
/// was read. One whose text cannot be read sends nothing.
pub proof fn lemma_primary_change_sends_content(
    primary: Seq<char>,
    auxiliary: Seq<Seq<char>>,
    root_dir: Seq<char>,
    markdown: Option<Seq<char>>,
)
    ensures
        signal_for(root_dir, reaction_to(primary, auxiliary, Some(primary)), markdown) == match markdown {
            Some(text) => Some(EventView::LoadHtml(rendered(text, root_dir))),
            None => None,
        },
{
}

/// A file that is written or created at the path of a style file, and not at
/// that of the markdown file, sends exactly one signal: a reload, whatever the
/// markdown file holds.
pub proof fn lemma_style_change_reloads(
    primary: Seq<char>,
    auxiliary: Seq<Seq<char>>,
    root_dir: Seq<char>,
    path: Seq<char>,
    markdown: Option<Seq<char>>,
)
    requires
        auxiliary.contains(path),
        path != primary,
    ensures
        signal_for(root_dir, reaction_to(primary, auxiliary, Some(path)), markdown) == Some(
            EventView::Reload,
        ),
{
}

/// A change at a path that is neither the markdown file's nor a style file's
/// sends nothing, and neither does an event that is no write and no creation.
pub proof fn lemma_unrelated_change_sends_nothing(
    primary: Seq<char>,
    auxiliary: Seq<Seq<char>>,
    root_dir: Seq<char>,
    changed: Option<Seq<char>>,
    markdown: Option<Seq<char>>,
)
    requires
        changed matches Some(path) ==> path != primary && !auxiliary.contains(path),
    ensures
        signal_for(root_dir, reaction_to(primary, auxiliary, changed), markdown) is None,
{
}

} // verus!
