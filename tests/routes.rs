use phobost::routes::health::{health, ApiHealth};
use phobost::routes::md2html::{md2html, RenderProfile};

const EXAMPLE: &str = "# Example Heading\n\n- *italics*\n- **bold**\n\n~~Strikethough~~\n[example link](https://example.com/)\n";

const MARKDOWN_SNIPPET: &str = r#"# Example Heading

- *italics*
- **bold**
- ***bold italics***.

Break:
-----

+ Numbered
+ Lists

~~Strikethough~~
[example link](https://pricehiller.com/)

## And more..."#;

#[test]
fn md2html_correctly_converts_markdown() {
    let profile = RenderProfile::standard();
    let response = md2html(&profile, MARKDOWN_SNIPPET);
    assert_eq!(response.content_type(), "text/html; charset=utf-8");
    assert_eq!(
        response.html.trim(),
        r##"
<h1><a href="#example-heading" aria-hidden="true" class="anchor" id="md-hd-example-heading"></a>Example Heading</h1>
<ul>
<li><em>italics</em></li>
<li><strong>bold</strong></li>
<li><em><strong>bold italics</strong></em>.</li>
</ul>
<h2><a href="#break" aria-hidden="true" class="anchor" id="md-hd-break"></a>Break:</h2>
<ul>
<li>Numbered</li>
<li>Lists</li>
</ul>
<p><del>Strikethough</del>
<a href="https://pricehiller.com/">example link</a></p>
<h2><a href="#and-more" aria-hidden="true" class="anchor" id="md-hd-and-more"></a>And more...</h2>
"##.trim()
    );
}

#[test]
fn unicode_white_space_around_input_is_ignored() {
    let profile = RenderProfile::standard();
    let plain = md2html(&profile, "# T").html;
    assert_eq!(md2html(&profile, "\u{3000}\u{a0}\t# T\u{2028}\r\n").html, plain);
}

#[test]
fn status_returns_200_ok() {
    for _ in 0..3 {
        assert_eq!(health(), ApiHealth::Healthy);
    }
}

#[test]
fn md2html_correctly_sets_content_type() {
    let profile = RenderProfile::standard();
    let r = md2html(&profile, EXAMPLE);
    assert_eq!(r.content_type(), "text/html; charset=utf-8");
}

#[test]
fn standard_profile_settings() {
    let p = RenderProfile::standard();
    assert_eq!(p.header_id_prefix, "md-hd-");
    assert!(p.extensions.table && p.extensions.footnotes && p.extensions.strikethrough);
    assert!(p.extensions.tasklist && p.extensions.autolink && p.extensions.alerts);
}

#[test]
fn example_renders_heading_list_and_links() {
    let profile = RenderProfile::standard();
    let html = md2html(&profile, EXAMPLE).html;
    assert!(html.contains("<h1"));
    assert!(html.contains("id=\"md-hd-example-heading\""));
    assert!(html.contains("<ul>"));
    assert!(html.contains("<li><em>italics</em></li>"));
    assert!(html.contains("<li><strong>bold</strong></li>"));
    assert!(html.contains("<del>Strikethough</del>"));
    assert!(html.contains("<a href=\"https://example.com/\">example link</a>"));
}

#[test]
fn rendering_twice_gives_identical_bytes() {
    let profile = RenderProfile::standard();
    let a = md2html(&profile, EXAMPLE).html;
    let b = md2html(&profile, EXAMPLE).html;
    assert_eq!(a, b);
    let other = RenderProfile::standard();
    assert_eq!(md2html(&other, EXAMPLE).html, a);
}

#[test]
fn input_is_trimmed_before_rendering() {
    let profile = RenderProfile::standard();
    let html = md2html(&profile, "\n\n    # Title\n\n").html;
    assert!(html.contains("<h1"));
    assert!(!html.contains("<pre>"));
    assert_eq!(html, md2html(&profile, "# Title").html);
}

#[test]
fn empty_input_renders_empty_html() {
    let profile = RenderProfile::standard();
    assert_eq!(md2html(&profile, "").html, "");
    assert_eq!(md2html(&profile, "   \n\t ").html, "");
}

#[test]
fn duplicate_headings_get_distinct_ids() {
    let profile = RenderProfile::standard();
    let html = md2html(&profile, "# A\n\n# A").html;
    assert!(html.contains("id=\"md-hd-a\""));
    assert!(html.contains("id=\"md-hd-a-1\""));
}

#[test]
fn tables_and_tasklists_are_enabled() {
    let profile = RenderProfile::standard();
    let html = md2html(&profile, "| a | b |\n|---|---|\n| 1 | 2 |").html;
    assert!(html.contains("<table>"));
    let html = md2html(&profile, "- [x] done").html;
    assert!(html.contains("checkbox"));
}
