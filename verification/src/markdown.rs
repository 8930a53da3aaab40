//! Rendering markdown to HTML.
//!
//! The markdown itself is parsed and written by `pulldown_cmark`. What is
//! decided here is where local images are looked for and which languages the
//! page's code blocks are written in.

use crate::text::{holds_text, joined, optional_text, texts};
use pulldown_cmark::{html, CodeBlockKind, Event, Options, Parser, Tag};
use regex::Regex;
use vstd::prelude::*;
use vstd::string::*;

verus! {

/// The parser's options: tables (2), footnotes (4), strikethrough (8) and
/// task lists (16).
pub const RENDER_OPTIONS: u32 = 30;

/// The pattern of an address that starts with a scheme, such as `http://`.
pub const ABSOLUTE_URL: &'static str = "^[a-z]+://";

/// The pattern of what is taken off the front of a local address: one `/`
/// or one `./`, if there is one.
pub const PATH_PREFIX: &'static str = "^(/|\\./)?";

/// Whether `text` matches the regular expression `pattern`, or `None` where
/// `pattern` is no regular expression.
pub uninterp spec fn regex_match(pattern: Seq<char>, text: Seq<char>) -> Option<bool>;

/// `text` with the first match of the regular expression `pattern` replaced
/// by the expansion of `replacement`, or `None` where `pattern` is no regular
/// expression.
pub uninterp spec fn regex_replacement(
    pattern: Seq<char>,
    text: Seq<char>,
    replacement: Seq<char>,
) -> Option<Seq<char>>;

/// What a markdown text holds, read with the parser's options `options`: the
/// addresses of its images and the info strings of its fenced code blocks,
/// each in their order.
pub uninterp spec fn markdown_scan(markdown: Seq<char>, options: u32) -> (
    Seq<Seq<char>>,
    Seq<Seq<char>>,
);

/// The HTML that a markdown text renders to with the parser's options
/// `options`, when its images are loaded from `addresses`, one for each image
/// in their order. An image that `addresses` has no place for keeps its own
/// address.
pub uninterp spec fn markdown_html(
    markdown: Seq<char>,
    options: u32,
    addresses: Seq<Seq<char>>,
) -> Seq<char>;

/// Calls `regex::Regex::new` on `pattern` and, where that compiles,
/// `regex::Regex::is_match` on `text`. The result is a function of the two
/// texts; nothing else is claimed of it.
#[verifier::external_body]
fn is_match(pattern: &str, text: &str) -> (matched: Option<bool>)
    ensures
        matched == regex_match(pattern@, text@),
{
    Regex::new(pattern).ok().map(|regex| regex.is_match(text))
}

/// Calls `regex::Regex::new` on `pattern` and, where that compiles,
/// `regex::Regex::replace` on `text` and `replacement`. The result is a
/// function of the three texts; nothing else is claimed of it.
#[verifier::external_body]
fn replace_first(pattern: &str, text: &str, replacement: &str) -> (replaced: Option<String>)
    ensures
        match replaced {
            Some(result) => regex_replacement(pattern@, text@, replacement@) == Some(result@),
            None => regex_replacement(pattern@, text@, replacement@) is None,
        },
{
    Regex::new(pattern).ok().map(|regex| regex.replace(text, replacement).into_owned())
}

/// Runs `pulldown_cmark::Parser::new_ext` on `markdown` with `options` and
/// notes, event by event, the address of each image and the info string of
/// each fenced code block. The result is a function of the two arguments;
/// nothing else is claimed of it.
#[verifier::external_body]
fn scan_events(markdown: &str, options: u32) -> (found: (Vec<String>, Vec<String>))
    ensures
        texts(found.0@) == markdown_scan(markdown@, options).0,
        texts(found.1@) == markdown_scan(markdown@, options).1,
{
    let mut images = Vec::new();
    let mut infos = Vec::new();
    Parser::new_ext(markdown, Options::from_bits_truncate(options)).for_each(|event| match event {
        Event::Start(Tag::Image(_, url, _)) => images.push(url.to_string()),
        Event::Start(Tag::CodeBlock(CodeBlockKind::Fenced(info))) => infos.push(info.to_string()),
        _ => (),
    });
    (images, infos)
}

/// Runs `pulldown_cmark::Parser::new_ext` on `markdown` with `options` and
/// writes its events with `pulldown_cmark::html::push_html`, each image with
/// the address that `next_address` hands out for it. The result is a function
/// of the three arguments; nothing else is claimed of it.
#[verifier::external_body]
fn write_html(markdown: &str, options: u32, addresses: &Vec<String>) -> (page: String)
    ensures
        page@ == markdown_html(markdown@, options, texts(addresses@)),
{
    let mut seen: usize = 0;
    let mut page = String::new();
    let parser = Parser::new_ext(markdown, Options::from_bits_truncate(options));
    let events = parser.map(|event| match event {
        Event::Start(Tag::Image(kind, url, title)) => {
            Event::Start(Tag::Image(kind, next_address(addresses, &mut seen, &url).into(), title))
        },
        other => other,
    });
    html::push_html(&mut page, events);
    page
}

/// The address of the next image: the one at the place `seen` of `addresses`,
/// which is then counted as seen, or the image's own where no place is left.
pub fn next_address(addresses: &Vec<String>, seen: &mut usize, own: &str) -> (address: String)
    ensures
        address@ == if *old(seen) < addresses.len() {
            addresses[*old(seen) as int]@
        } else {
            own@
        },
        *final(seen) == if *old(seen) < addresses.len() {
            (*old(seen) + 1) as usize
        } else {
            *old(seen)
        },
{
    if *seen < addresses.len() {
        let address = addresses[*seen].clone();
        *seen = *seen + 1;
        address
    } else {
        String::from_str(own)
    }
}

/// The address under which an image is loaded: an absolute address stays as
/// it is, a local one is looked for under `root_dir`, without its prefix.
pub open spec fn image_url(
    url: Seq<char>,
    root_dir: Seq<char>,
    absolute: bool,
    stripped: Seq<char>,
) -> Seq<char> {
    if absolute {
        url
    } else {
        "file://"@ + root_dir + "/"@ + stripped
    }
}

/// Whether an address starts with a scheme.
pub open spec fn is_absolute_url(url: Seq<char>) -> bool {
    regex_match(ABSOLUTE_URL@, url) == Some(true)
}

/// An address without a leading `/` or `./`.
pub open spec fn without_prefix(url: Seq<char>) -> Seq<char> {
    match regex_replacement(PATH_PREFIX@, url, ""@) {
        Some(stripped) => stripped,
        None => url,
    }
}

/// The address under which an image is loaded, given whether its address is
/// absolute and what the address is without its prefix.
pub fn rewrite_image_url(url: &str, root_dir: &str, absolute: bool, stripped: &str) -> (address:
    String)
    ensures
        address@ == image_url(url@, root_dir@, absolute, stripped@),
{
    if absolute {
        String::from_str(url)
    } else {
        let mut address = joined("file://", root_dir);
        address.append("/");
        address.append(stripped);
        address
    }
}

/// The address under which the image at `url` is loaded by a page that stands
/// in `root_dir`.
pub fn local_image_url(url: &str, root_dir: &str) -> (address: String)
    ensures
        address@ == image_url(url@, root_dir@, is_absolute_url(url@), without_prefix(url@)),
{
    let absolute = match is_match(ABSOLUTE_URL, url) {
        Some(matched) => matched,
        None => false,
    };
    match replace_first(PATH_PREFIX, url, "") {
        Some(stripped) => rewrite_image_url(url, root_dir, absolute, stripped.as_str()),
        None => rewrite_image_url(url, root_dir, absolute, url),
    }
}

/// The languages that a page's code blocks name: the info strings that are
/// not empty, each once, in the order in which they first occur.
pub open spec fn distinct_languages(infos: Seq<Seq<char>>) -> Seq<Seq<char>>
    decreases infos.len(),
{
    if infos.len() == 0 {
        Seq::empty()
    } else {
        let before = distinct_languages(infos.drop_last());
        let info = infos.last();
        if info.len() > 0 && !before.contains(info) {
            before.push(info)
        } else {
            before
        }
    }
}

/// Whether a list of languages names each once and none by an empty name.
pub open spec fn languages_well_formed(languages: Seq<Seq<char>>) -> bool {
    &&& forall|i: int| 0 <= i < languages.len() ==> (#[trigger] languages[i]).len() > 0
    &&& forall|i: int, j: int|
        0 <= i < j < languages.len() ==> #[trigger] languages[i] != #[trigger] languages[j]
}

/// The languages of a page are well formed, whatever its info strings are.
pub proof fn lemma_distinct_languages_well_formed(infos: Seq<Seq<char>>)
    ensures
        languages_well_formed(distinct_languages(infos)),
    decreases infos.len(),
{
    if infos.len() > 0 {
        lemma_distinct_languages_well_formed(infos.drop_last());
    }
}

/// The languages that a page's code blocks name, from their info strings.
pub fn languages_of(infos: &Vec<String>) -> (languages: Vec<String>)
    ensures
        texts(languages@) == distinct_languages(texts(infos@)),
        languages_well_formed(texts(languages@)),
{
    let mut languages: Vec<String> = Vec::new();
    let mut i: usize = 0;
    assert(texts(infos@).take(0) =~= Seq::<Seq<char>>::empty());
    assert(texts(languages@) =~= Seq::<Seq<char>>::empty());
    while i < infos.len()
        invariant
            i <= infos.len(),
            texts(languages@) == distinct_languages(texts(infos@).take(i as int)),
        decreases infos.len() - i,
    {
        let ghost before = texts(languages@);
        proof {
            assert(texts(infos@).take(i + 1).drop_last() =~= texts(infos@).take(i as int));
            assert(texts(infos@).take(i + 1).last() == infos[i as int]@);
        }
        if !infos[i].as_str().is_empty() && !holds_text(&languages, infos[i].as_str()) {
            languages.push(infos[i].clone());
            assert(texts(languages@) =~= before.push(infos[i as int]@));
        }
        i = i + 1;
    }
    proof {
        assert(texts(infos@).take(i as int) =~= texts(infos@));
        lemma_distinct_languages_well_formed(texts(infos@));
    }
    languages
}

/// What a markdown file renders to: the HTML and what the page built round
/// it needs to know.
#[derive(Debug)]
pub struct RenderedContent {
    /// The rendered HTML.
    pub html: String,
    /// The languages of the fenced code blocks: each once, in the order in
    /// which they first occur.
    pub code_languages: Vec<String>,
}

/// A `RenderedContent` as a value of specifications.
pub struct RenderedView {
    /// The rendered HTML.
    pub html: Seq<char>,
    /// The languages of the fenced code blocks.
    pub code_languages: Seq<Seq<char>>,
}

impl View for RenderedContent {
    type V = RenderedView;

    open spec fn view(&self) -> RenderedView {
        RenderedView { html: self.html@, code_languages: texts(self.code_languages@) }
    }
}

impl Default for RenderedContent {
    /// No HTML and no language.
    fn default() -> (content: RenderedContent)
        ensures
            content@ == (RenderedView { html: Seq::empty(), code_languages: Seq::empty() }),
            content.well_formed(),
    {
        let content = RenderedContent { html: String::new(), code_languages: Vec::new() };
        assert(content@.code_languages =~= Seq::<Seq<char>>::empty());
        content
    }
}

impl RenderedContent {
    /// Whether the languages are named each once and none by an empty name.
    pub open spec fn well_formed(&self) -> bool {
        languages_well_formed(self@.code_languages)
    }
}

/// The addresses under which the images at `images` are loaded by a page
/// that stands in `root_dir`.
pub open spec fn image_addresses(images: Seq<Seq<char>>, root_dir: Seq<char>) -> Seq<Seq<char>> {
    Seq::new(
        images.len(),
        |i: int| image_url(images[i], root_dir, is_absolute_url(images[i]), without_prefix(images[i])),
    )
}

/// The addresses under which the images at `images` are loaded by a page
/// that stands in `root_dir`.
pub fn local_image_urls(images: &Vec<String>, root_dir: &str) -> (addresses: Vec<String>)
    ensures
        texts(addresses@) == image_addresses(texts(images@), root_dir@),
{
    let mut addresses: Vec<String> = Vec::new();
    let mut i: usize = 0;
    while i < images.len()
        invariant
            i <= images.len(),
            addresses.len() == i,
            forall|j: int|
                0 <= j < i ==> (#[trigger] addresses[j])@ == image_addresses(
                    texts(images@),
                    root_dir@,
                )[j],
        decreases images.len() - i,
    {
        addresses.push(local_image_url(images[i].as_str(), root_dir));
        i = i + 1;
    }
    assert(texts(addresses@) =~= image_addresses(texts(images@), root_dir@));
    addresses
}

/// What a markdown text renders to when its file stands in `root_dir`: the
/// HTML with each image under the address that it is loaded from, and the
/// languages of the fenced code blocks.
pub open spec fn rendered(markdown: Seq<char>, root_dir: Seq<char>) -> RenderedView {
    RenderedView {
        html: markdown_html(
            markdown,
            RENDER_OPTIONS,
            image_addresses(markdown_scan(markdown, RENDER_OPTIONS).0, root_dir),
        ),
        code_languages: distinct_languages(markdown_scan(markdown, RENDER_OPTIONS).1),
    }
}

/// Renders a markdown text whose file stands in `root_dir`.
pub fn render(markdown: &str, root_dir: &str) -> (content: RenderedContent)
    ensures
        content@ == rendered(markdown@, root_dir@),
        content.well_formed(),
{
    let (images, infos) = scan_events(markdown, RENDER_OPTIONS);
    let addresses = local_image_urls(&images, root_dir);
    let html = write_html(markdown, RENDER_OPTIONS, &addresses);
    RenderedContent { html, code_languages: languages_of(&infos) }
}

/// Calls `std::path::Path::parent` on `path`. What comes back depends on the
/// platform's rules for paths, so nothing is claimed of it.
#[verifier::external_body]
fn parent_of(path: &str) -> (parent: Option<String>) {
    std::path::Path::new(path).parent().and_then(|parent| parent.to_str()).map(String::from)
}

/// A markdown file and what is needed to render it.
#[derive(Debug)]
pub struct Renderer {
    /// The path as it was given.
    pub md_path: String,
    /// The canonical path: the one that the file's changes are reported under.
    pub canonical_md_path: String,
    /// The directory that the file's local images are looked for in.
    pub root_dir: String,
    /// The path to watch for changes of the file: its directory, so that a
    /// file that is removed and written again is seen.
    pub watch_path: String,
}

impl Renderer {
    /// The directory that local images are looked for in: the file's parent,
    /// or the empty path where it has none.
    pub open spec fn root_for(parent: Option<Seq<char>>) -> Seq<char> {
        match parent {
            Some(directory) => directory,
            None => Seq::empty(),
        }
    }

    /// The path to watch: the file's parent, or the file itself where it has
    /// none.
    pub open spec fn watch_for(canonical: Seq<char>, parent: Option<Seq<char>>) -> Seq<char> {
        match parent {
            Some(directory) => directory,
            None => canonical,
        }
    }

    /// The canonical path: the one that the file system gave, or the path as
    /// it was given where it gave none.
    pub open spec fn canonical_for(md_path: Seq<char>, canonical: Option<Seq<char>>) -> Seq<char> {
        match canonical {
            Some(path) => path,
            None => md_path,
        }
    }

    /// A renderer for the file at `md_path`, whose canonical path has the
    /// parent directory `parent`, if it has one.
    pub fn with_parent(md_path: String, canonical: Option<String>, parent: Option<String>) -> (renderer:
        Renderer)
        ensures
            renderer.md_path@ == md_path@,
            renderer.canonical_md_path@ == Self::canonical_for(
                md_path@,
                optional_text(canonical),
            ),
            renderer.root_dir@ == Self::root_for(
                optional_text(parent),
            ),
            renderer.watch_path@ == Self::watch_for(
                renderer.canonical_md_path@,
                optional_text(parent),
            ),
    {
        let canonical_md_path = match canonical {
            Some(path) => path,
            None => md_path.clone(),
        };
        let (root_dir, watch_path) = match parent {
            Some(directory) => (directory.clone(), directory),
            None => (String::new(), canonical_md_path.clone()),
        };
        Renderer { md_path, canonical_md_path, root_dir, watch_path }
    }

    /// A renderer for the file at `md_path`. `canonical` is the canonical
    /// form of that path, where the file system gave one.
    pub fn new(md_path: String, canonical: Option<String>) -> (renderer: Renderer)
        ensures
            renderer.md_path@ == md_path@,
            renderer.canonical_md_path@ == Self::canonical_for(
                md_path@,
                optional_text(canonical),
            ),
            exists|parent: Option<Seq<char>>|
                renderer.root_dir@ == Self::root_for(parent) && renderer.watch_path@
                    == #[trigger] Self::watch_for(renderer.canonical_md_path@, parent),
    {
        let parent = match &canonical {
            Some(path) => parent_of(path.as_str()),
            None => parent_of(md_path.as_str()),
        };
        let ghost seen = optional_text(parent);
        let renderer = Self::with_parent(md_path, canonical, parent);
        assert(renderer.watch_path@ == Self::watch_for(renderer.canonical_md_path@, seen));
        renderer
    }

    /// Renders the file's text `markdown`.
    pub fn run(&self, markdown: &str) -> (content: RenderedContent)
        ensures
            content@ == rendered(markdown@, self.root_dir@),
            content.well_formed(),
    {
        render(markdown, self.root_dir.as_str())
    }
}

} // verus!
