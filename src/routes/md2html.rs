use vstd::prelude::*;
use vstd::string::StringExecFns;

verus! {

/// The markdown extensions that rendering enables.
#[derive(Clone, Copy, PartialEq, Eq, Structural, Debug)]
pub struct Extensions {
    pub alerts: bool,
    pub footnotes: bool,
    pub inline_footnotes: bool,
    pub table: bool,
    pub autolink: bool,
    pub cjk_friendly_emphasis: bool,
    pub superscript: bool,
    pub strikethrough: bool,
    pub subscript: bool,
    pub spoiler: bool,
    pub greentext: bool,
    pub shortcodes: bool,
    pub tasklist: bool,
}

/// The rendering configuration: built once, then only read.
pub struct RenderProfile {
    pub extensions: Extensions,
    /// Namespace put before every heading's anchor identifier.
    pub header_id_prefix: String,
}

/// The HTML of a markdown text, with its content type.
pub struct RenderResult {
    pub html: String,
}

/// What comrak renders from `text` with the extensions `ext` and heading identifiers
/// prefixed by `header_id_prefix`, every other option at its default.
pub uninterp spec fn comrak_html(ext: Extensions, header_id_prefix: Seq<char>, text: Seq<char>) -> Seq<char>;

/// Whether `c` has Unicode's White_Space property.
pub open spec fn is_white_space(c: char) -> bool {
    let n = c as u32;
    (9 <= n && n <= 13) || n == 32 || n == 0x85 || n == 0xa0 || n == 0x1680
        || (0x2000 <= n && n <= 0x200a) || n == 0x2028 || n == 0x2029 || n == 0x202f
        || n == 0x205f || n == 0x3000
}

/// Whether every character of `s` is whitespace.
pub open spec fn all_white_space(s: Seq<char>) -> bool {
    forall|i: int| 0 <= i < s.len() ==> is_white_space(#[trigger] s[i])
}

/// `s` without its leading whitespace.
pub open spec fn trim_start(s: Seq<char>) -> Seq<char>
    decreases s.len(),
{
    if s.len() > 0 && is_white_space(s[0]) { trim_start(s.drop_first()) } else { s }
}

/// `s` without its trailing whitespace.
pub open spec fn trim_end(s: Seq<char>) -> Seq<char>
    decreases s.len(),
{
    if s.len() > 0 && is_white_space(s.last()) { trim_end(s.drop_last()) } else { s }
}

/// `s` without its leading and trailing whitespace.
pub open spec fn trimmed(s: Seq<char>) -> Seq<char> {
    trim_end(trim_start(s))
}

/// Relies on `str::trim`: it removes the leading and trailing characters that have
/// Unicode's White_Space property.
#[verifier::external_body]
fn trim(s: &str) -> (r: &str)
    ensures
        r@ == trimmed(s@),
{
    s.trim()
}

/// Relies on `comrak::markdown_to_html`, called with options that enable the extensions
/// of `ext`, set the heading prefix, and leave the rest at their defaults.
#[verifier::external_body]
fn markdown_to_html(text: &str, ext: Extensions, prefix: &str) -> (r: String)
    ensures
        r@ == comrak_html(ext, prefix@, text@),
{
    let extension = comrak::options::Extension {
        alerts: ext.alerts, footnotes: ext.footnotes, inline_footnotes: ext.inline_footnotes,
        table: ext.table, autolink: ext.autolink, cjk_friendly_emphasis: ext.cjk_friendly_emphasis,
        superscript: ext.superscript, strikethrough: ext.strikethrough, subscript: ext.subscript,
        spoiler: ext.spoiler, greentext: ext.greentext, shortcodes: ext.shortcodes,
        tasklist: ext.tasklist, header_ids: Some(prefix.to_string()), ..Default::default()
    };
    let options = comrak::Options { extension, ..Default::default() };
    comrak::markdown_to_html(text, &options)
}

impl Extensions {
    /// Every extension of the profile turned on.
    pub open spec fn all_on(self) -> bool {
        &&& self.alerts && self.footnotes && self.inline_footnotes && self.table
        &&& self.autolink && self.cjk_friendly_emphasis && self.superscript
        &&& self.strikethrough && self.subscript && self.spoiler && self.greentext
        &&& self.shortcodes && self.tasklist
    }
}

impl RenderProfile {
    /// The service's fixed profile: every extension on, headings prefixed by `md-hd-`.
    pub fn standard() -> (r: RenderProfile)
        ensures
            r.extensions.all_on(),
            r.header_id_prefix@ == "md-hd-"@,
    {
        let extensions = Extensions {
            alerts: true,
            footnotes: true,
            inline_footnotes: true,
            table: true,
            autolink: true,
            cjk_friendly_emphasis: true,
            superscript: true,
            strikethrough: true,
            subscript: true,
            spoiler: true,
            greentext: true,
            shortcodes: true,
            tasklist: true,
        };
        RenderProfile { extensions, header_id_prefix: String::from_str("md-hd-") }
    }

    /// Renders a text that is already trimmed.
    pub fn render_trimmed(&self, text: &str) -> (r: String)
        ensures
            r@ == comrak_html(self.extensions, self.header_id_prefix@, text@),
    {
        markdown_to_html(text, self.extensions, self.header_id_prefix.as_str())
    }
}

impl RenderResult {
    pub fn content_type(&self) -> (r: &'static str)
        ensures
            r@ == "text/html; charset=utf-8"@,
    {
        "text/html; charset=utf-8"
    }
}

/// The HTML that `profile` makes of `text`: the trimmed text, rendered.
pub open spec fn rendered(profile: RenderProfile, text: Seq<char>) -> Seq<char> {
    comrak_html(profile.extensions, profile.header_id_prefix@, trimmed(text))
}

/// Convert the given input markdown text to html.
pub fn md2html(profile: &RenderProfile, markdown_text: &str) -> (r: RenderResult)
    ensures
        r.html@ == rendered(*profile, markdown_text@),
{
    let text = trim(markdown_text);
    RenderResult { html: profile.render_trimmed(text) }
}

/// Rendering is a function of the configuration and the text: the same text under
/// profiles with the same settings gives the same HTML, byte for byte.
pub proof fn lemma_render_deterministic(p1: RenderProfile, p2: RenderProfile, a: Seq<char>, b: Seq<char>)
    requires
        p1.extensions == p2.extensions,
        p1.header_id_prefix@ == p2.header_id_prefix@,
        a == b,
    ensures
        rendered(p1, a) == rendered(p2, b),
{
}

proof fn lemma_trim_start_skips(pre: Seq<char>, x: Seq<char>)
    requires
        all_white_space(pre),
    ensures
        trim_start(pre + x) == trim_start(x),
    decreases pre.len(),
{
    if pre.len() > 0 {
        assert((pre + x)[0] == pre[0]);
        assert((pre + x).drop_first() =~= pre.drop_first() + x);
        lemma_trim_start_skips(pre.drop_first(), x);
    } else {
        assert(pre + x =~= x);
    }
}

proof fn lemma_trim_end_skips(x: Seq<char>, post: Seq<char>)
    requires
        all_white_space(post),
    ensures
        trim_end(x + post) == trim_end(x),
    decreases post.len(),
{
    if post.len() > 0 {
        assert((x + post).last() == post.last());
        assert((x + post).drop_last() =~= x + post.drop_last());
        lemma_trim_end_skips(x, post.drop_last());
    } else {
        assert(x + post =~= x);
    }
}

proof fn lemma_trimmed_skips_suffix(a: Seq<char>, post: Seq<char>)
    requires
        all_white_space(post),
    ensures
        trim_end(trim_start(a + post)) == trim_end(trim_start(a)),
    decreases a.len(),
{
    if a.len() == 0 {
        assert(a + post =~= post + Seq::<char>::empty());
        lemma_trim_start_skips(post, Seq::<char>::empty());
    } else if is_white_space(a[0]) {
        assert((a + post)[0] == a[0]);
        assert((a + post).drop_first() =~= a.drop_first() + post);
        lemma_trimmed_skips_suffix(a.drop_first(), post);
    } else {
        assert((a + post)[0] == a[0]);
        lemma_trim_end_skips(a, post);
    }
}

/// Whitespace around a text changes nothing in what it renders to.
pub proof fn lemma_surrounding_white_space(p: RenderProfile, pre: Seq<char>, a: Seq<char>, post: Seq<char>)
    requires
        all_white_space(pre),
        all_white_space(post),
    ensures
        rendered(p, pre + a + post) == rendered(p, a),
{
    assert(pre + a + post =~= pre + (a + post));
    lemma_trim_start_skips(pre, a + post);
    lemma_trimmed_skips_suffix(a, post);
}

} // verus!
