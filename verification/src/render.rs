//! The markup of the page: one block for each shelf and for each of its
//! projects, one link for each site, all in the order the content lists
//! them. Every text and every attribute value that comes from the content is
//! escaped on its way into the document.

use crate::content::{
    shelf_views, site_views, Project, ProjectView, Shelf, ShelfView, Site, SiteView,
};
use crate::escape::{escape_text, push_escaped};
use crate::markup::element;
use vstd::prelude::*;
use vstd::string::*;

verus! {

/// The title of the page.
pub const TITLE: &'static str = "JT Raber";

/// What the page says of itself to search engines and link previews.
pub const DESCRIPTION: &'static str = "See what I have made!";

/// The first line under the name in the page's header.
pub const DEGREE_IN_COMPUTING: &'static str =
    "\u{1F4BB} Level 100 Technomancer (B.Sc. Computer Science)";

/// The second line under the name in the page's header.
pub const DEGREE_IN_MATHEMATICS: &'static str =
    "\u{1F9EE} Level 100 Mathemagician (B.Sc. Applied Mathematics)";

/// A piece of markup: text that is escaped already and goes into a document
/// as it is.
pub struct Markup(pub String);

impl View for Markup {
    type V = Seq<char>;

    open spec fn view(&self) -> Seq<char> {
        self.0@
    }
}

impl Markup {
    /// The markup as a string.
    pub fn into_string(self) -> (text: String)
        ensures
            text@ == self@,
    {
        self.0
    }

    /// The markup as a string slice.
    pub fn as_str(&self) -> (text: &str)
        ensures
            text@ == self@,
    {
        self.0.as_str()
    }
}

/// A `meta` tag whose content is a value: the tag's front, the value
/// escaped, and the end of the tag.
pub open spec fn meta_with(front: Seq<char>, value: Seq<char>) -> Seq<char> {
    front + escape_text(value) + "\">"@
}

/// The Open Graph tags of a page with the given title and description.
pub open spec fn open_graph_markup(title: Seq<char>, description: Seq<char>) -> Seq<char> {
    "<meta property=\"og:url\" content=\"https://jtraber.com/\">"@
        + "<meta property=\"og:type\" content=\"website\">"@ + meta_with(
        "<meta property=\"og:title\" content=\""@,
        title,
    ) + meta_with("<meta property=\"og:description\" content=\""@, description)
}

/// The Twitter card tags of a page with the given title and description.
pub open spec fn twitter_card_markup(title: Seq<char>, description: Seq<char>) -> Seq<char> {
    "<meta name=\"twitter:card\" content=\"summary_large_image\">"@
        + "<meta property=\"twitter:domain\" content=\"jtraber.com\">"@
        + "<meta property=\"twitter:url\" content=\"https://jtraber.com/\">"@ + meta_with(
        "<meta name=\"twitter:title\" content=\""@,
        title,
    ) + meta_with("<meta name=\"twitter:description\" content=\""@, description)
}

/// The metadata of a page with the given title and description: the title
/// element, the description, the Open Graph tags, the Twitter card tags and
/// the character set.
pub open spec fn meta_tags_markup(title: Seq<char>, description: Seq<char>) -> Seq<char> {
    element("<title>"@, escape_text(title), "</title>"@) + meta_with(
        "<meta name=\"description\" content=\""@,
        description,
    ) + open_graph_markup(title, description) + twitter_card_markup(title, description)
        + "<meta charset=\"UTF-8\">"@
}

/// The block of one project: its name as a heading, its description as a
/// paragraph.
pub open spec fn project_markup(project: ProjectView) -> Seq<char> {
    "<div class=\"neumorphic inset flex-column\">"@
        + element("<h1>"@, escape_text(project.name), "</h1>"@)
        + element("<p style=\"width: 30ch;\">"@, escape_text(project.description), "</p>"@)
        + "</div>"@
}

/// The blocks of the given projects, one after the other.
pub open spec fn projects_markup(projects: Seq<ProjectView>) -> Seq<char>
    decreases projects.len(),
{
    if projects.len() == 0 {
        Seq::empty()
    } else {
        projects_markup(projects.drop_last()) + project_markup(projects.last())
    }
}

/// The block of one shelf: its name as a label, then the blocks of its
/// projects.
pub open spec fn shelf_markup(shelf: ShelfView) -> Seq<char> {
    "<div class=\"neumorphic outset flex-column\" style=\"font-size: 2rem; width: 95vw;\">"@
        + element(
        "<span class=\"neumorphic inset\" style=\"font-weight: 100;\">"@,
        escape_text(shelf.name),
        "</span>"@,
    ) + "<div class=\"flex-row\" style=\"align-items: stretch; flex-wrap: wrap;\">"@
        + projects_markup(shelf.projects) + "</div>"@ + "</div>"@
}

/// The blocks of the given shelves, one after the other.
pub open spec fn shelves_markup(shelves: Seq<ShelfView>) -> Seq<char>
    decreases shelves.len(),
{
    if shelves.len() == 0 {
        Seq::empty()
    } else {
        shelves_markup(shelves.drop_last()) + shelf_markup(shelves.last())
    }
}

/// The start of a link's tag, up to and with its target.
pub open spec fn link_target(url: Seq<char>) -> Seq<char> {
    "<a href=\""@ + escape_text(url) + "\""@
}

/// The tag that opens the link to a site: its target, and the site's color
/// as an inline style.
pub open spec fn anchor_tag(site: SiteView) -> Seq<char> {
    link_target(site.url)
        + " target=\"_blank\" class=\"clickable social neumorphic outset flex-row\" style=\"color: "@
        + escape_text(site.color) + "\">"@
}

/// The tag that opens the icon of a site.
pub open spec fn icon_tag(site: SiteView) -> Seq<char> {
    "<span class=\"fab "@ + escape_text(site.icon) + "\" style=\"font-size: 1.5rem;\">"@
}

/// The link to one site: an anchor around the site's icon.
pub open spec fn site_markup(site: SiteView) -> Seq<char> {
    anchor_tag(site) + icon_tag(site) + "</span>"@ + "</a>"@
}

/// The links to the given sites, one after the other.
pub open spec fn sites_markup(sites: Seq<SiteView>) -> Seq<char>
    decreases sites.len(),
{
    if sites.len() == 0 {
        Seq::empty()
    } else {
        sites_markup(sites.drop_last()) + site_markup(sites.last())
    }
}

/// The tag that opens each of the two lines under the name in the header.
pub open spec fn header_line_tag() -> Seq<char> {
    "<span class=\"neumorphic inset\" style=\"font-size: 0.33em; font-weight: 100; padding: 0.75vmax; width: 40vw;\">"@
}

/// The head of the page: its metadata, its style sheet and its icon font.
pub open spec fn head_markup() -> Seq<char> {
    "<head>"@ + meta_tags_markup(TITLE@, DESCRIPTION@)
        + "<link rel=\"stylesheet\" href=\"/styles.css\">"@
        + "<script defer src=\"https://kit.fontawesome.com/4f61f8988e.js\" crossorigin=\"anonymous\">"@
        + "</script>"@ + "</head>"@
}

/// The header of the page: the name, and two lines under it.
pub open spec fn header_markup() -> Seq<char> {
    "<header class=\"flex-row\" style=\"font-size: 4rem; justify-content: flex-start;\">"@
        + element(
        "<span class=\"neumorphic outset\" style=\"padding: 0.5vmax 1vmax;\">"@,
        TITLE@,
        "</span>"@,
    )
        + "<div class=\"flex-column\" style=\"align-items: flex-start; justify-content: space-around;\">"@
        + element(header_line_tag(), DEGREE_IN_COMPUTING@, "</span>"@) + element(
        header_line_tag(),
        DEGREE_IN_MATHEMATICS@,
        "</span>"@,
    ) + "</div>"@ + "</header>"@
}

/// The body of the page: the header, the shelves in order, and the links in
/// order in the footer.
pub open spec fn body_markup(shelves: Seq<ShelfView>, sites: Seq<SiteView>) -> Seq<char> {
    "<body class=\"flex-column\">"@ + header_markup() + "<main>"@ + shelves_markup(shelves)
        + "</main>"@ + "<footer class=\"neumorphic inset flex-row\" style=\"font-size: 2rem;\">"@
        + sites_markup(sites) + "</footer>"@ + "</body>"@
}

/// The whole document that shows the given shelves and sites.
pub open spec fn page_markup(shelves: Seq<ShelfView>, sites: Seq<SiteView>) -> Seq<char> {
    "<!DOCTYPE html>"@ + "<html>"@ + head_markup() + body_markup(shelves, sites) + "</html>"@
}

/// The document type declaration, as `maud::DOCTYPE` holds it: the literal
/// `<!DOCTYPE html>`.
#[verifier::external_body]
fn doctype() -> (declaration: &'static str)
    ensures
        declaration@ == "<!DOCTYPE html>"@,
{
    maud::DOCTYPE.0
}

/// Appends an element whose content is `text`, escaped.
fn push_element(out: &mut String, open: &str, text: &str, close: &str)
    ensures
        final(out)@ == old(out)@ + element(open@, escape_text(text@), close@),
{
    out.append(open);
    push_escaped(text, out);
    out.append(close);
    assert(out@ =~= old(out)@ + element(open@, escape_text(text@), close@));
}

/// Appends an element whose content is `markup`, as it is.
fn push_element_raw(out: &mut String, open: &str, markup: &str, close: &str)
    ensures
        final(out)@ == old(out)@ + element(open@, markup@, close@),
{
    out.append(open);
    out.append(markup);
    out.append(close);
    assert(out@ =~= old(out)@ + element(open@, markup@, close@));
}

/// Appends a `meta` tag whose content is `value`, escaped.
fn push_meta(out: &mut String, front: &str, value: &str)
    ensures
        final(out)@ == old(out)@ + meta_with(front@, value@),
{
    out.append(front);
    push_escaped(value, out);
    out.append("\">");
    assert(out@ =~= old(out)@ + meta_with(front@, value@));
}

/// Appends the Open Graph tags.
fn push_open_graph(out: &mut String, title: &str, description: &str)
    ensures
        final(out)@ == old(out)@ + open_graph_markup(title@, description@),
{
    let mut tags = String::from_str("<meta property=\"og:url\" content=\"https://jtraber.com/\">");
    tags.append("<meta property=\"og:type\" content=\"website\">");
    push_meta(&mut tags, "<meta property=\"og:title\" content=\"", title);
    push_meta(&mut tags, "<meta property=\"og:description\" content=\"", description);
    out.append(tags.as_str());
}

/// Appends the Twitter card tags.
fn push_twitter_card(out: &mut String, title: &str, description: &str)
    ensures
        final(out)@ == old(out)@ + twitter_card_markup(title@, description@),
{
    let mut tags = String::from_str("<meta name=\"twitter:card\" content=\"summary_large_image\">");
    tags.append("<meta property=\"twitter:domain\" content=\"jtraber.com\">");
    tags.append("<meta property=\"twitter:url\" content=\"https://jtraber.com/\">");
    push_meta(&mut tags, "<meta name=\"twitter:title\" content=\"", title);
    push_meta(&mut tags, "<meta name=\"twitter:description\" content=\"", description);
    out.append(tags.as_str());
}

/// Renders the metadata of a page with the given title and description: the
/// title element, the description, the Open Graph tags, the Twitter card
/// tags and the character set.
pub fn meta_tags(title: &str, description: &str) -> (markup: Markup)
    ensures
        markup@ == meta_tags_markup(title@, description@),
{
    let mut out = String::from_str("<title>");
    push_escaped(title, &mut out);
    out.append("</title>");
    push_meta(&mut out, "<meta name=\"description\" content=\"", description);
    push_open_graph(&mut out, title, description);
    push_twitter_card(&mut out, title, description);
    out.append("<meta charset=\"UTF-8\">");
    Markup(out)
}

/// Renders the metadata of this site's page.
pub fn get_meta_tags() -> (markup: Markup)
    ensures
        markup@ == meta_tags_markup(TITLE@, DESCRIPTION@),
{
    meta_tags(TITLE, DESCRIPTION)
}

impl Project {
    /// Renders the project's block.
    pub fn render(&self) -> (markup: Markup)
        ensures
            markup@ == project_markup(self@),
    {
        let mut out = String::from_str("<div class=\"neumorphic inset flex-column\">");
        push_element(&mut out, "<h1>", self.name, "</h1>");
        push_element(&mut out, "<p style=\"width: 30ch;\">", self.description, "</p>");
        out.append("</div>");
        Markup(out)
    }
}

impl Shelf {
    /// Renders the shelf's block, with the blocks of its projects in order.
    pub fn render(&self) -> (markup: Markup)
        ensures
            markup@ == shelf_markup(self@),
    {
        let mut out = String::from_str(
            "<div class=\"neumorphic outset flex-column\" style=\"font-size: 2rem; width: 95vw;\">",
        );
        push_element(
            &mut out,
            "<span class=\"neumorphic inset\" style=\"font-weight: 100;\">",
            self.name,
            "</span>",
        );
        out.append("<div class=\"flex-row\" style=\"align-items: stretch; flex-wrap: wrap;\">");
        let ghost head = out@;
        let ghost projects = self@.projects;
        let mut i: usize = 0;
        assert(projects.take(0) =~= Seq::empty());
        assert(out@ =~= head + projects_markup(projects.take(0)));
        while i < self.projects.len()
            invariant
                i <= self.projects.len(),
                projects == self@.projects,
                out@ == head + projects_markup(projects.take(i as int)),
            decreases self.projects.len() - i,
        {
            let block = self.projects[i].render();
            out.append(block.as_str());
            proof {
                let next = projects.take(i + 1);
                assert(next.drop_last() =~= projects.take(i as int));
                assert(next.last() == self.projects[i as int]@);
                assert(out@ =~= head + projects_markup(next));
            }
            i += 1;
        }
        assert(projects.take(i as int) =~= projects);
        out.append("</div>");
        out.append("</div>");
        Markup(out)
    }
}

impl Site {
    /// Renders the link to the site.
    pub fn render(&self) -> (markup: Markup)
        ensures
            markup@ == site_markup(self@),
    {
        let mut out = String::from_str("<a href=\"");
        push_escaped(self.url, &mut out);
        out.append("\"");
        out.append(
            " target=\"_blank\" class=\"clickable social neumorphic outset flex-row\" style=\"color: ",
        );
        push_escaped(self.color, &mut out);
        out.append("\">");
        assert(out@ == anchor_tag(self@));
        out.append("<span class=\"fab ");
        push_escaped(self.icon, &mut out);
        out.append("\" style=\"font-size: 1.5rem;\">");
        assert(out@ =~= anchor_tag(self@) + icon_tag(self@));
        out.append("</span>");
        out.append("</a>");
        Markup(out)
    }
}

/// Renders the blocks of the given shelves, in their order.
fn render_shelves(shelves: &[Shelf]) -> (out: String)
    ensures
        out@ == shelves_markup(shelf_views(shelves@)),
{
    let mut out = String::new();
    let ghost all = shelf_views(shelves@);
    let mut i: usize = 0;
    assert(all.take(0) =~= Seq::empty());
    while i < shelves.len()
        invariant
            i <= shelves.len(),
            all == shelf_views(shelves@),
            out@ == shelves_markup(all.take(i as int)),
        decreases shelves.len() - i,
    {
        let block = shelves[i].render();
        out.append(block.as_str());
        proof {
            let next = all.take(i + 1);
            assert(next.drop_last() =~= all.take(i as int));
            assert(next.last() == shelves[i as int]@);
        }
        i += 1;
    }
    assert(all.take(i as int) =~= all);
    out
}

/// Renders the links to the given sites, in their order.
fn render_sites(sites: &[Site]) -> (out: String)
    ensures
        out@ == sites_markup(site_views(sites@)),
{
    let mut out = String::new();
    let ghost all = site_views(sites@);
    let mut i: usize = 0;
    assert(all.take(0) =~= Seq::empty());
    while i < sites.len()
        invariant
            i <= sites.len(),
            all == site_views(sites@),
            out@ == sites_markup(all.take(i as int)),
        decreases sites.len() - i,
    {
        let link = sites[i].render();
        out.append(link.as_str());
        proof {
            let next = all.take(i + 1);
            assert(next.drop_last() =~= all.take(i as int));
            assert(next.last() == sites[i as int]@);
        }
        i += 1;
    }
    assert(all.take(i as int) =~= all);
    out
}

/// Renders the head of the page.
fn render_head() -> (out: String)
    ensures
        out@ == head_markup(),
{
    let mut out = String::from_str("<head>");
    let meta = get_meta_tags();
    out.append(meta.as_str());
    out.append("<link rel=\"stylesheet\" href=\"/styles.css\">");
    out.append(
        "<script defer src=\"https://kit.fontawesome.com/4f61f8988e.js\" crossorigin=\"anonymous\">",
    );
    out.append("</script>");
    out.append("</head>");
    out
}

/// Renders the header of the page.
fn render_header() -> (out: String)
    ensures
        out@ == header_markup(),
{
    let mut out = String::from_str(
        "<header class=\"flex-row\" style=\"font-size: 4rem; justify-content: flex-start;\">",
    );
    push_element_raw(
        &mut out,
        "<span class=\"neumorphic outset\" style=\"padding: 0.5vmax 1vmax;\">",
        TITLE,
        "</span>",
    );
    out.append(
        "<div class=\"flex-column\" style=\"align-items: flex-start; justify-content: space-around;\">",
    );
    push_element_raw(
        &mut out,
        "<span class=\"neumorphic inset\" style=\"font-size: 0.33em; font-weight: 100; padding: 0.75vmax; width: 40vw;\">",
        DEGREE_IN_COMPUTING,
        "</span>",
    );
    push_element_raw(
        &mut out,
        "<span class=\"neumorphic inset\" style=\"font-size: 0.33em; font-weight: 100; padding: 0.75vmax; width: 40vw;\">",
        DEGREE_IN_MATHEMATICS,
        "</span>",
    );
    out.append("</div>");
    out.append("</header>");
    out
}

/// Renders the body of the page.
fn render_body(shelves: &[Shelf], sites: &[Site]) -> (out: String)
    ensures
        out@ == body_markup(shelf_views(shelves@), site_views(sites@)),
{
    let mut out = String::from_str("<body class=\"flex-column\">");
    let header = render_header();
    out.append(header.as_str());
    out.append("<main>");
    let blocks = render_shelves(shelves);
    out.append(blocks.as_str());
    out.append("</main>");
    out.append("<footer class=\"neumorphic inset flex-row\" style=\"font-size: 2rem;\">");
    let links = render_sites(sites);
    out.append(links.as_str());
    out.append("</footer>");
    out.append("</body>");
    out
}

/// Renders the whole document that shows the given shelves and sites: the
/// document type, the head, and the body with one block for each shelf and
/// one link for each site, in their order.
pub fn render_page(shelves: &[Shelf], sites: &[Site]) -> (markup: Markup)
    ensures
        markup@ == page_markup(shelf_views(shelves@), site_views(sites@)),
{
    let mut out = String::from_str(doctype());
    out.append("<html>");
    let head = render_head();
    out.append(head.as_str());
    let body = render_body(shelves, sites);
    out.append(body.as_str());
    out.append("</html>");
    Markup(out)
}

} // verus!
