use quickmd::assets::{
    highlight_scripts, page, page_state_of, Assets, AssetsError, HIGHLIGHT_JS_VERSION,
};
use quickmd::markdown::{render, RenderedContent};

fn content(html: &str, languages: &[&str]) -> RenderedContent {
    RenderedContent {
        html: String::from(html),
        code_languages: languages.iter().map(|language| String::from(*language)).collect(),
    }
}

fn assets() -> Assets {
    Assets::init(None, Some(String::from("/tmp/quickmd-assets")))
}

const DEFAULT_STATE: &str = "{\"scroll_top\":0.0,\"image_widths\":{},\"image_heights\":{}}";

#[test]
fn test_initialization_works() {
    let assets = Assets::init(None, Some(String::from("/tmp/quickmd-assets")));
    assert_eq!(assets.output_path(), Ok(String::from("/tmp/quickmd-assets")));
}

#[test]
fn test_multiple_cleanups_work() {
    let mut assets = assets();

    assets.clean_up();
    assets.clean_up();
}

#[test]
fn test_output_to_a_given_directory() {
    let path = String::from("/tmp/given");
    let mut assets = Assets::init(Some(path.clone()), None);

    assert!(assets.build(&content("", &[]), DEFAULT_STATE, "").is_ok());

    // Clearing asset tempdir should not remove explicitly given directory
    assert_eq!(assets.clean_up(), None);
    assert_eq!(assets.output_path(), Ok(path));
}

#[test]
fn test_will_create_output_dir_if_it_doesnt_exist() {
    let path = String::from("/tmp/given/nested/output");
    let assets = Assets::init(Some(path.clone()), None);

    assert_eq!(assets.output_path(), Ok(path));
    assert!(assets.build(&content("", &[]), DEFAULT_STATE, "").is_ok());
}

#[test]
fn test_building_a_file_with_assets_includes_the_given_html() {
    let html = "<h1>Example</h1>";

    let text = assets().build(&content(html, &[]), DEFAULT_STATE, "/custom.css").unwrap();

    assert!(text.contains(html));
    assert!(text.contains("main.js"));
    assert!(text.contains("main.css"));
}

#[test]
fn test_building_a_file_with_assets_includes_main_static_files() {
    let text = assets().build(&content("", &[]), DEFAULT_STATE, "/custom.css").unwrap();

    assert!(text.contains("main.js"));
    assert!(text.contains("main.css"));
}

#[test]
fn test_building_a_file_with_assets_includes_scroll_position_as_the_title() {
    let page_state = "{\"scroll_top\":100.5,\"image_widths\":{},\"image_heights\":{}}";
    let text = assets().build(&content("", &[]), page_state, "/custom.css").unwrap();

    assert!(text.contains(
        r#"<title>{"scroll_top":100.5,"image_widths":{},"image_heights":{}}</title>"#
    ));
}

#[test]
fn test_the_whole_page() {
    let text = page(&content("<p>Hi</p>\n", &[]), "{}", "/home/me/custom.css");
    assert_eq!(
        text,
        concat_lines(&[
            "<!doctype html>",
            "<html>",
            "<head>",
            "<meta charset=\"utf-8\">",
            "<title>{}</title>",
            "<link rel=\"stylesheet\" href=\"github.css\" />",
            "<link rel=\"stylesheet\" href=\"main.css\" />",
            "<link rel=\"stylesheet\" href=\"file:///home/me/custom.css\" />",
            "</head>",
            "<body>",
            "<main class=\"markdown-body\">",
            "<p>Hi</p>",
            "</main>",
            "<script src=\"main.js\"></script>",
            "</body>",
            "</html>",
        ])
    );
}

fn concat_lines(lines: &[&str]) -> String {
    let mut text = String::new();
    for line in lines {
        text.push_str(line);
        text.push('\n');
    }
    text
}

#[test]
fn test_highlighting_is_loaded_for_the_languages_of_the_page() {
    assert_eq!(HIGHLIGHT_JS_VERSION, "9.18.1");
    assert_eq!(highlight_scripts(&Vec::new()), "");

    let languages = vec![String::from("rust"), String::from("vim")];
    let root = "https://cdnjs.cloudflare.com/ajax/libs/highlight.js/9.18.1";
    assert_eq!(
        highlight_scripts(&languages),
        concat_lines(&[
            &format!("<link rel=\"stylesheet\" href=\"{}/styles/github.min.css\" />", root),
            &format!("<script src=\"{}/highlight.min.js\"></script>", root),
            &format!("<script src=\"{}/languages/rust.min.js\"></script>", root),
            &format!("<script src=\"{}/languages/vim.min.js\"></script>", root),
            "<script>hljs.initHighlighting()</script>",
        ])
    );

    let text = page(&content("", &["rust", "vim"]), "{}", "");
    assert!(text.contains(&highlight_scripts(&languages)));
    let text = page(&content("", &[]), "{}", "");
    assert!(!text.contains("highlight"));
}

#[test]
fn test_a_rendered_file_is_built_into_a_page() {
    let rendered = render("```ruby\nputs 1\n```\n", "/notes");
    let text = page(&rendered, "{}", "");
    assert!(text.contains("<pre><code class=\"language-ruby\">puts 1\n</code></pre>"));
    assert!(text.contains("/languages/ruby.min.js"));
}

#[test]
fn test_the_state_of_a_page_is_read_back_as_it_was_written() {
    for state in [
        DEFAULT_STATE,
        "{\"scroll_top\":100.5,\"image_widths\":{\"a.png\":10.0},\"image_heights\":{}}",
        "{}",
        "",
        "<title>",
        "</titl",
        "</title",
        "caf\u{e9} \u{1f600}",
    ] {
        let text = page(&content("<p></title></p>", &["c"]), state, "/x</title>.css");
        assert_eq!(page_state_of(&text).as_deref(), Some(state));
    }
}

#[test]
fn test_a_state_that_ends_the_title_is_cut_short() {
    let text = page(&content("", &[]), "a</title>b", "");
    assert_eq!(page_state_of(&text).as_deref(), Some("a"));
}

#[test]
fn test_a_text_that_is_no_page_holds_no_state() {
    assert_eq!(page_state_of(""), None);
    assert_eq!(page_state_of("<title>{}</title>"), None);
    assert_eq!(page_state_of("<!doctype html>"), None);
    let text = page(&content("", &[]), "{}", "");
    assert_eq!(page_state_of(&text[1..]), None);
    let cut = text.find("</title>").unwrap();
    assert_eq!(page_state_of(&text[..cut]), None);
    assert_eq!(page_state_of(&text[..cut + 7]), None);
    assert_eq!(page_state_of(&text[..cut + 8]).as_deref(), Some("{}"));
}

#[test]
fn test_the_directory_that_the_user_gave_goes_first() {
    let both = Assets::init(Some(String::from("/out")), Some(String::from("/tmp/x")));
    assert_eq!(both.output_path(), Ok(String::from("/out")));
    let given = Assets::init(Some(String::from("/out")), None);
    assert_eq!(given.output_path(), Ok(String::from("/out")));
    assert_eq!(assets().output_path(), Ok(String::from("/tmp/quickmd-assets")));
    let neither = Assets::init(None, None);
    assert_eq!(neither.output_path(), Err(AssetsError::NoOutputDir));
}

#[test]
fn test_cleaning_up_twice_hands_the_directory_out_once() {
    let mut assets = assets();
    assert_eq!(assets.clean_up(), Some(String::from("/tmp/quickmd-assets")));
    assert_eq!(assets.clean_up(), None);
    assert_eq!(assets.output_path(), Err(AssetsError::NoOutputDir));
    assert_eq!(
        assets.build(&content("", &[]), "{}", "").unwrap_err(),
        AssetsError::NoOutputDir
    );
}

#[test]
fn test_cleaning_up_keeps_the_directory_that_the_user_gave() {
    let mut assets = Assets::init(Some(String::from("/out")), None);
    assert_eq!(assets.clean_up(), None);
    assert_eq!(assets.output_path(), Ok(String::from("/out")));
    assert!(assets.build(&content("", &[]), "{}", "").is_ok());

    let mut both = Assets::init(Some(String::from("/out")), Some(String::from("/tmp/x")));
    assert_eq!(both.clean_up(), Some(String::from("/tmp/x")));
    assert_eq!(both.output_path(), Ok(String::from("/out")));
}

#[test]
fn test_the_error_in_words() {
    assert_eq!(
        AssetsError::NoOutputDir.message(),
        "Assets don't have an output dir, there might be a synchronization error"
    );
}
