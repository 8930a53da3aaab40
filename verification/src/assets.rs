//! The page round the rendered markdown, and the directory it is built in.
//!
//! The page is a fixed layout with four places to fill: the state of the page
//! as the window last saw it, the user's own style sheet, the scripts that
//! highlight the code blocks, and the rendered markdown itself.

use crate::markdown::RenderedContent;
use crate::text::{
    chars_of, find_from, first_occurrence, joined, lemma_first_occurrence,
    lemma_first_occurrence_is, occurs_at, optional_text, texts,
};
use vstd::prelude::*;
use vstd::string::*;

verus! {

/// The version of highlight.js that highlights the code blocks.
pub const HIGHLIGHT_JS_VERSION: &'static str = "9.18.1";

/// Where highlight.js is loaded from, up to the version.
pub const HIGHLIGHT_JS_URL: &'static str = "https://cdnjs.cloudflare.com/ajax/libs/highlight.js/";

/// The layout up to the state of the page, which stands in the title.
pub const LAYOUT_START: &'static str = "<!doctype html>\n<html>\n<head>\n<meta charset=\"utf-8\">\n<title>";

/// What ends the state of the page.
pub const TITLE_END: &'static str = "</title>";

/// The layout between the title and the path of the user's style sheet.
pub const LAYOUT_STYLES: &'static str = "\n<link rel=\"stylesheet\" href=\"github.css\" />\n<link rel=\"stylesheet\" href=\"main.css\" />\n<link rel=\"stylesheet\" href=\"file://";

/// The layout between the path of the user's style sheet and the scripts that
/// highlight.
pub const LAYOUT_SCRIPTS: &'static str = "\" />\n";

/// The layout between the scripts that highlight and the rendered markdown.
pub const LAYOUT_BODY: &'static str = "</head>\n<body>\n<main class=\"markdown-body\">\n";

/// The layout after the rendered markdown.
pub const LAYOUT_END: &'static str = "</main>\n<script src=\"main.js\"></script>\n</body>\n</html>\n";

/// The address that highlight.js is loaded from.
pub open spec fn highlight_root() -> Seq<char> {
    HIGHLIGHT_JS_URL@ + HIGHLIGHT_JS_VERSION@
}

/// The script that highlights one language.
pub open spec fn language_tag(language: Seq<char>) -> Seq<char> {
    "<script src=\""@ + highlight_root() + "/languages/"@ + language + ".min.js\"></script>\n"@
}

/// The scripts that highlight the languages, in their order.
pub open spec fn language_tags(languages: Seq<Seq<char>>) -> Seq<char>
    decreases languages.len(),
{
    if languages.len() == 0 {
        Seq::empty()
    } else {
        language_tags(languages.drop_last()) + language_tag(languages.last())
    }
}

/// The style sheet and the script of highlight.js.
pub open spec fn highlight_start() -> Seq<char> {
    "<link rel=\"stylesheet\" href=\""@ + highlight_root() + "/styles/github.min.css\" />\n"@
        + "<script src=\""@ + highlight_root() + "/highlight.min.js\"></script>\n"@
}

/// What a page needs to highlight its code blocks: nothing where no block
/// names a language, else highlight.js, one script for each language, and the
/// call that starts it.
pub open spec fn highlight_tags(languages: Seq<Seq<char>>) -> Seq<char> {
    if languages.len() == 0 {
        Seq::empty()
    } else {
        highlight_start() + language_tags(languages) + "<script>hljs.initHighlighting()</script>\n"@
    }
}

/// The page: the layout with its four places filled.
pub open spec fn page_text(
    body: Seq<char>,
    languages: Seq<Seq<char>>,
    page_state: Seq<char>,
    custom_css_path: Seq<char>,
) -> Seq<char> {
    LAYOUT_START@ + page_state + TITLE_END@ + LAYOUT_STYLES@ + custom_css_path + LAYOUT_SCRIPTS@
        + highlight_tags(languages) + LAYOUT_BODY@ + body + LAYOUT_END@
}

fn highlight_root_url() -> (root: String)
    ensures
        root@ == highlight_root(),
{
    joined(HIGHLIGHT_JS_URL, HIGHLIGHT_JS_VERSION)
}

fn language_script(root: &str, language: &str) -> (tag: String)
    requires
        root@ == highlight_root(),
    ensures
        tag@ == language_tag(language@),
{
    let mut tag = joined("<script src=\"", root);
    tag.append("/languages/");
    tag.append(language);
    tag.append(".min.js\"></script>\n");
    tag
}

fn language_scripts(root: &str, languages: &Vec<String>) -> (tags: String)
    requires
        root@ == highlight_root(),
    ensures
        tags@ == language_tags(texts(languages@)),
{
    let mut tags = String::new();
    let mut i: usize = 0;
    assert(texts(languages@).take(0) =~= Seq::<Seq<char>>::empty());
    while i < languages.len()
        invariant
            i <= languages.len(),
            root@ == highlight_root(),
            tags@ == language_tags(texts(languages@).take(i as int)),
        decreases languages.len() - i,
    {
        proof {
            assert(texts(languages@).take(i + 1).drop_last() =~= texts(languages@).take(i as int));
            assert(texts(languages@).take(i + 1).last() == languages[i as int]@);
        }
        let tag = language_script(root, languages[i].as_str());
        tags.append(tag.as_str());
        i = i + 1;
    }
    proof {
        assert(texts(languages@).take(i as int) =~= texts(languages@));
    }
    tags
}

/// What a page with code blocks in `languages` needs to highlight them.
pub fn highlight_scripts(languages: &Vec<String>) -> (tags: String)
    ensures
        tags@ == highlight_tags(texts(languages@)),
{
    if languages.len() == 0 {
        String::new()
    } else {
        let root = highlight_root_url();
        let mut tags = joined("<link rel=\"stylesheet\" href=\"", root.as_str());
        tags.append("/styles/github.min.css\" />\n");
        tags.append("<script src=\"");
        tags.append(root.as_str());
        tags.append("/highlight.min.js\"></script>\n");
        let scripts = language_scripts(root.as_str(), languages);
        tags.append(scripts.as_str());
        tags.append("<script>hljs.initHighlighting()</script>\n");
        tags
    }
}

/// The page that shows `content`, with the state of the page as the window
/// last saw it and with the user's own style sheet. The state is written into
/// the page as it is given, for the page's script to read it back.
pub fn page(content: &RenderedContent, page_state: &str, custom_css_path: &str) -> (text: String)
    ensures
        text@ == page_text(content@.html, content@.code_languages, page_state@, custom_css_path@),
{
    let tags = highlight_scripts(&content.code_languages);
    let mut text = joined(LAYOUT_START, page_state);
    text.append(TITLE_END);
    text.append(LAYOUT_STYLES);
    text.append(custom_css_path);
    text.append(LAYOUT_SCRIPTS);
    text.append(tags.as_str());
    text.append(LAYOUT_BODY);
    text.append(content.html.as_str());
    text.append(LAYOUT_END);
    text
}

/// The state that a page holds: what stands between the start of the layout
/// and the first end of a title after it. A text that does not start as the
/// layout does, or in which no title ends, holds none.
pub open spec fn embedded_state(page: Seq<char>) -> Option<Seq<char>> {
    if occurs_at(page, LAYOUT_START@, 0) {
        let rest = page.skip(LAYOUT_START@.len() as int);
        match first_occurrence(rest, TITLE_END@, 0) {
            Some(end) => Some(rest.take(end)),
            None => None,
        }
    } else {
        None
    }
}

/// The state that `page` holds, as the page's script finds it.
pub fn page_state_of(page: &str) -> (state: Option<String>)
    ensures
        match state {
            Some(text) => embedded_state(page@) == Some(text@),
            None => embedded_state(page@) is None,
        },
{
    let text = chars_of(page);
    let start = chars_of(LAYOUT_START);
    let end = chars_of(TITLE_END);
    proof {
        lemma_first_occurrence(text@, start@, 0);
    }
    match find_from(&text, &start, 0) {
        Some(0) => {},
        _ => {
            return None;
        },
    }
    let ghost rest = page@.skip(start@.len() as int);
    match find_from(&text, &end, start.len()) {
        Some(at) => {
            proof {
                lemma_first_occurrence(text@, end@, start@.len() as int);
                assert forall|i: int| 0 <= i implies (occurs_at(rest, end@, i) <==> occurs_at(
                    text@,
                    end@,
                    i + start@.len(),
                )) by {
                    lemma_occurrence_after_skip(text@, end@, start@.len() as int, i);
                }
                lemma_first_occurrence_is(rest, end@, 0, at - start@.len());
                assert(rest.take(at - start@.len()) =~= page@.subrange(
                    start@.len() as int,
                    at as int,
                ));
            }
            Some(String::from_str(page.substring_char(start.len(), at)))
        },
        None => {
            proof {
                lemma_first_occurrence(text@, end@, start@.len() as int);
                lemma_first_occurrence(rest, end@, 0);
                assert forall|i: int| 0 <= i implies (occurs_at(rest, end@, i) <==> occurs_at(
                    text@,
                    end@,
                    i + start@.len(),
                )) by {
                    lemma_occurrence_after_skip(text@, end@, start@.len() as int, i);
                }
            }
            None
        },
    }
}

proof fn lemma_occurrence_after_skip(text: Seq<char>, pattern: Seq<char>, skipped: int, at: int)
    requires
        0 <= skipped <= text.len(),
    ensures
        occurs_at(text.skip(skipped), pattern, at) <==> at >= 0 && occurs_at(
            text,
            pattern,
            at + skipped,
        ),
{
    if at >= 0 && at + pattern.len() + skipped <= text.len() {
        assert(text.skip(skipped).subrange(at, at + pattern.len()) =~= text.subrange(
            at + skipped,
            at + skipped + pattern.len(),
        ));
    }
}

/// The state comes back as it went in: a page holds the state that it was
/// built with, whatever else it shows, as long as no title ends inside the
/// state.
pub proof fn lemma_state_round_trip(
    body: Seq<char>,
    languages: Seq<Seq<char>>,
    state: Seq<char>,
    custom_css_path: Seq<char>,
)
    requires
        first_occurrence(state, TITLE_END@, 0) is None,
    ensures
        embedded_state(page_text(body, languages, state, custom_css_path)) == Some(state),
{
    let page = page_text(body, languages, state, custom_css_path);
    let start = LAYOUT_START@;
    let end = TITLE_END@;
    let after = LAYOUT_STYLES@ + custom_css_path + LAYOUT_SCRIPTS@ + highlight_tags(languages)
        + LAYOUT_BODY@ + body + LAYOUT_END@;
    assert(page =~= start + (state + end + after));
    assert(page.subrange(0, start.len() as int) =~= start);
    let rest = page.skip(start.len() as int);
    assert(rest =~= state + end + after);
    assert(rest.subrange(state.len() as int, (state.len() + end.len()) as int) =~= end);
    reveal_strlit("</title>");
    lemma_first_occurrence(state, end, 0);
    assert forall|i: int| 0 <= i < state.len() implies !occurs_at(rest, end, i) by {
        if occurs_at(rest, end, i) {
            let found = rest.subrange(i, i + end.len());
            if i + end.len() <= state.len() {
                assert(state.subrange(i, i + end.len()) =~= found);
                assert(occurs_at(state, end, i));
            } else {
                let k = state.len() - i;
                assert(found[k] == rest[state.len() as int]);
                assert(rest[state.len() as int] == end[0]);
            }
        }
    }
    lemma_first_occurrence_is(rest, end, 0, state.len() as int);
    assert(rest.take(state.len() as int) =~= state);
}

/// Why a page could not be built.
#[derive(Clone, Copy, Debug, PartialEq, Eq, Structural)]
pub enum AssetsError {
    /// The assets have no directory: the temporary one was cleaned up.
    NoOutputDir,
}

impl AssetsError {
    /// The error in words.
    pub fn message(&self) -> (text: String)
        ensures
            text@ == "Assets don't have an output dir, there might be a synchronization error"@,
    {
        String::from_str("Assets don't have an output dir, there might be a synchronization error")
    }
}

/// Where the page and its static files are built: in a directory that the
/// user gave, or in a temporary one that goes away with the application.
#[derive(Clone, Debug)]
pub struct Assets {
    real_dir: Option<String>,
    temp_dir: Option<String>,
}

/// An `Assets` as a value of specifications.
pub struct AssetsView {
    /// The directory that the user gave.
    pub real_dir: Option<Seq<char>>,
    /// The temporary directory.
    pub temp_dir: Option<Seq<char>>,
}

impl AssetsView {
    /// The directory that is built in: the one that the user gave, else the
    /// temporary one.
    pub open spec fn output_dir(self) -> Option<Seq<char>> {
        match self.real_dir {
            Some(directory) => Some(directory),
            None => self.temp_dir,
        }
    }
}

impl View for Assets {
    type V = AssetsView;

    closed spec fn view(&self) -> AssetsView {
        AssetsView { real_dir: optional_text(self.real_dir), temp_dir: optional_text(self.temp_dir) }
    }
}

impl Assets {
    /// Assets that are built in `real_dir`, where the user gave a directory,
    /// and in the temporary directory `temp_dir` otherwise.
    pub fn init(real_dir: Option<String>, temp_dir: Option<String>) -> (assets: Assets)
        ensures
            assets@.real_dir == optional_text(real_dir),
            assets@.temp_dir == optional_text(temp_dir),
    {
        Assets { real_dir, temp_dir }
    }

    /// The directory that the page and the static files go to.
    pub fn output_path(&self) -> (path: Result<String, AssetsError>)
        ensures
            match path {
                Ok(directory) => self@.output_dir() == Some(directory@),
                Err(error) => self@.output_dir() is None && error == AssetsError::NoOutputDir,
            },
    {
        match &self.real_dir {
            Some(directory) => Ok(directory.clone()),
            None => match &self.temp_dir {
                Some(directory) => Ok(directory.clone()),
                None => Err(AssetsError::NoOutputDir),
            },
        }
    }

    /// The page that shows `content`, to be written to the output directory.
    /// There is no page without a directory to write it to.
    pub fn build(&self, content: &RenderedContent, page_state: &str, custom_css_path: &str) -> (built:
        Result<String, AssetsError>)
        ensures
            match built {
                Ok(text) => self@.output_dir() is Some && text@ == page_text(
                    content@.html,
                    content@.code_languages,
                    page_state@,
                    custom_css_path@,
                ),
                Err(error) => self@.output_dir() is None && error == AssetsError::NoOutputDir,
            },
    {
        match self.output_path() {
            Ok(_) => Ok(page(content, page_state, custom_css_path)),
            Err(error) => Err(error),
        }
    }

    /// Forgets the temporary directory and hands its path out, for it to be
    /// deleted. A second call hands out nothing. A directory that the user
    /// gave stays.
    pub fn clean_up(&mut self) -> (removed: Option<String>)
        ensures
            optional_text(removed) == old(self)@.temp_dir,
            final(self)@.temp_dir is None,
            final(self)@.real_dir == old(self)@.real_dir,
    {
        self.temp_dir.take()
    }
}

} // verus!
