//! What a reader finds in the rendered page: which tags and which text, and
//! in what order. The renderers say what they write, character for
//! character; the proofs here say that the result reads as it was meant to,
//! whatever the content holds.

use crate::content::{ProjectView, ShelfView, SiteView};
use crate::escape::{escape_text, is_plain, lemma_escaped_is_inert, lemma_plain_text_unchanged};
use crate::markup::{
    angle_free, closes_tag, element, is_fragment, is_tag, lemma_element, lemma_tag,
    lemma_tag_closed, lemma_tag_front, lemma_then, lemma_then_element, lemma_then_tag, node,
    opens_tag, reads_as, tags, text_nodes,
};
use crate::render::{
    anchor_tag, body_markup, head_markup, header_line_tag, header_markup, icon_tag, link_target,
    meta_tags_markup, meta_with, open_graph_markup, page_markup, project_markup, projects_markup,
    shelf_markup, shelves_markup, site_markup, sites_markup, twitter_card_markup,
    DEGREE_IN_COMPUTING, DEGREE_IN_MATHEMATICS, DESCRIPTION, TITLE,
};
use vstd::prelude::*;

verus! {

/// The tags of a project's block. They are the same for every project.
pub open spec fn project_tags() -> Seq<Seq<char>> {
    seq![
        "<div class=\"neumorphic inset flex-column\">"@,
        "<h1>"@,
        "</h1>"@,
        "<p style=\"width: 30ch;\">"@,
        "</p>"@,
        "</div>"@,
    ]
}

/// The text of a project's block: its name, then its description.
pub open spec fn project_texts(project: ProjectView) -> Seq<Seq<char>> {
    node(escape_text(project.name)) + node(escape_text(project.description))
}

/// The text of the blocks of the given projects, in their order.
pub open spec fn projects_texts(projects: Seq<ProjectView>) -> Seq<Seq<char>>
    decreases projects.len(),
{
    if projects.len() == 0 {
        Seq::empty()
    } else {
        projects_texts(projects.drop_last()) + project_texts(projects.last())
    }
}

/// The text of a shelf's block: its name, then the text of its projects.
pub open spec fn shelf_texts(shelf: ShelfView) -> Seq<Seq<char>> {
    node(escape_text(shelf.name)) + projects_texts(shelf.projects)
}

/// The text of the blocks of the given shelves, in their order.
pub open spec fn shelves_texts(shelves: Seq<ShelfView>) -> Seq<Seq<char>>
    decreases shelves.len(),
{
    if shelves.len() == 0 {
        Seq::empty()
    } else {
        shelves_texts(shelves.drop_last()) + shelf_texts(shelves.last())
    }
}

/// The tags of the link to a site.
pub open spec fn site_tags(site: SiteView) -> Seq<Seq<char>> {
    seq![anchor_tag(site), icon_tag(site), "</span>"@, "</a>"@]
}

/// The tags of the links to the given sites, in their order.
pub open spec fn sites_tags(sites: Seq<SiteView>) -> Seq<Seq<char>>
    decreases sites.len(),
{
    if sites.len() == 0 {
        Seq::empty()
    } else {
        sites_tags(sites.drop_last()) + site_tags(sites.last())
    }
}

/// The text of the whole page: the title, the three lines of the header, and
/// the text of the shelves.
pub open spec fn page_texts(shelves: Seq<ShelfView>) -> Seq<Seq<char>> {
    seq![TITLE@, TITLE@, DEGREE_IN_COMPUTING@, DEGREE_IN_MATHEMATICS@] + shelves_texts(shelves)
}

/// `part` stands somewhere in `doc`, character for character.
pub open spec fn occurs_in(doc: Seq<char>, part: Seq<char>) -> bool {
    exists|i: int| 0 <= i && i + part.len() <= doc.len() && #[trigger] doc.subrange(i, i + part.len()) == part
}

proof fn lemma_project_pieces()
    ensures
        is_tag("<div class=\"neumorphic inset flex-column\">"@),
        is_tag("<h1>"@),
        is_tag("</h1>"@),
        is_tag("<p style=\"width: 30ch;\">"@),
        is_tag("</p>"@),
        is_tag("</div>"@),
{
    reveal_strlit("<div class=\"neumorphic inset flex-column\">");
    reveal_strlit("<h1>");
    reveal_strlit("</h1>");
    reveal_strlit("<p style=\"width: 30ch;\">");
    reveal_strlit("</p>");
    reveal_strlit("</div>");
}

/// A project's block reads as its six tags, the project's name and the
/// project's description, whatever the two hold: no character of them is
/// taken for markup, and none is lost.
pub proof fn lemma_project_reads(project: ProjectView)
    ensures
        reads_as(project_markup(project), project_tags(), project_texts(project)),
{
    lemma_project_pieces();
    lemma_escaped_is_inert(project.name);
    lemma_escaped_is_inert(project.description);
    let open = "<div class=\"neumorphic inset flex-column\">"@;
    let heading = element("<h1>"@, escape_text(project.name), "</h1>"@);
    let paragraph = element(
        "<p style=\"width: 30ch;\">"@,
        escape_text(project.description),
        "</p>"@,
    );
    lemma_tag(open);
    lemma_then_element(open, "<h1>"@, escape_text(project.name), "</h1>"@);
    lemma_then_element(
        open + heading,
        "<p style=\"width: 30ch;\">"@,
        escape_text(project.description),
        "</p>"@,
    );
    lemma_then_tag(open + heading + paragraph, "</div>"@);
    assert(tags(project_markup(project)) =~= project_tags());
    assert(text_nodes(project_markup(project)) =~= project_texts(project));
}

/// The blocks of a list of projects read as the names and descriptions of
/// the projects, in the order of the list, each once.
pub proof fn lemma_projects_read(projects: Seq<ProjectView>)
    ensures
        is_fragment(projects_markup(projects)),
        text_nodes(projects_markup(projects)) == projects_texts(projects),
    decreases projects.len(),
{
    if projects.len() == 0 {
        assert(text_nodes(projects_markup(projects)) =~= projects_texts(projects));
    } else {
        lemma_projects_read(projects.drop_last());
        lemma_project_reads(projects.last());
        lemma_then(projects_markup(projects.drop_last()), project_markup(projects.last()));
    }
}

proof fn lemma_shelf_pieces()
    ensures
        is_tag(
            "<div class=\"neumorphic outset flex-column\" style=\"font-size: 2rem; width: 95vw;\">"@,
        ),
        is_tag("<span class=\"neumorphic inset\" style=\"font-weight: 100;\">"@),
        is_tag("</span>"@),
        is_tag("<div class=\"flex-row\" style=\"align-items: stretch; flex-wrap: wrap;\">"@),
        is_tag("</div>"@),
{
    reveal_strlit(
        "<div class=\"neumorphic outset flex-column\" style=\"font-size: 2rem; width: 95vw;\">",
    );
    reveal_strlit("<span class=\"neumorphic inset\" style=\"font-weight: 100;\">");
    reveal_strlit("</span>");
    reveal_strlit("<div class=\"flex-row\" style=\"align-items: stretch; flex-wrap: wrap;\">");
    reveal_strlit("</div>");
}

/// A shelf's block reads as the shelf's name, then the names and
/// descriptions of its projects in their order, each once.
pub proof fn lemma_shelf_reads(shelf: ShelfView)
    ensures
        is_fragment(shelf_markup(shelf)),
        text_nodes(shelf_markup(shelf)) == shelf_texts(shelf),
{
    lemma_shelf_pieces();
    lemma_escaped_is_inert(shelf.name);
    lemma_projects_read(shelf.projects);
    let open =
        "<div class=\"neumorphic outset flex-column\" style=\"font-size: 2rem; width: 95vw;\">"@;
    let label = element(
        "<span class=\"neumorphic inset\" style=\"font-weight: 100;\">"@,
        escape_text(shelf.name),
        "</span>"@,
    );
    let row = "<div class=\"flex-row\" style=\"align-items: stretch; flex-wrap: wrap;\">"@;
    let blocks = projects_markup(shelf.projects);
    lemma_tag(open);
    lemma_then_element(
        open,
        "<span class=\"neumorphic inset\" style=\"font-weight: 100;\">"@,
        escape_text(shelf.name),
        "</span>"@,
    );
    lemma_then_tag(open + label, row);
    lemma_then(open + label + row, blocks);
    lemma_then_tag(open + label + row + blocks, "</div>"@);
    lemma_then_tag(open + label + row + blocks + "</div>"@, "</div>"@);
    assert(text_nodes(shelf_markup(shelf)) =~= shelf_texts(shelf));
}

/// The blocks of a list of shelves read as, for each shelf in the order of
/// the list, its name and then the names and descriptions of its projects in
/// their order: every name once, and nothing between them that the content
/// does not hold.
pub proof fn lemma_shelves_read(shelves: Seq<ShelfView>)
    ensures
        is_fragment(shelves_markup(shelves)),
        text_nodes(shelves_markup(shelves)) == shelves_texts(shelves),
    decreases shelves.len(),
{
    if shelves.len() == 0 {
        assert(text_nodes(shelves_markup(shelves)) =~= shelves_texts(shelves));
    } else {
        lemma_shelves_read(shelves.drop_last());
        lemma_shelf_reads(shelves.last());
        lemma_then(shelves_markup(shelves.drop_last()), shelf_markup(shelves.last()));
    }
}

proof fn lemma_site_pieces()
    ensures
        opens_tag("<a href=\""@),
        angle_free("\""@),
        angle_free(
            " target=\"_blank\" class=\"clickable social neumorphic outset flex-row\" style=\"color: "@,
        ),
        closes_tag("\">"@),
        opens_tag("<span class=\"fab "@),
        closes_tag("\" style=\"font-size: 1.5rem;\">"@),
        is_tag("</span>"@),
        is_tag("</a>"@),
{
    reveal_strlit("<a href=\"");
    reveal_strlit("\"");
    reveal_strlit(
        " target=\"_blank\" class=\"clickable social neumorphic outset flex-row\" style=\"color: ",
    );
    reveal_strlit("\">");
    reveal_strlit("<span class=\"fab ");
    reveal_strlit("\" style=\"font-size: 1.5rem;\">");
    reveal_strlit("</span>");
    reveal_strlit("</a>");
}

/// The link to a site reads as four tags and no text: the anchor with the
/// site's target and color, the icon, and the two closing tags. Whatever the
/// site's fields hold, each stays inside the attribute it was written into.
pub proof fn lemma_site_reads(site: SiteView)
    ensures
        is_tag(anchor_tag(site)),
        is_tag(icon_tag(site)),
        reads_as(site_markup(site), site_tags(site), Seq::empty()),
{
    lemma_site_pieces();
    lemma_escaped_is_inert(site.url);
    lemma_escaped_is_inert(site.color);
    lemma_escaped_is_inert(site.icon);
    let style =
        " target=\"_blank\" class=\"clickable social neumorphic outset flex-row\" style=\"color: "@;
    lemma_tag_front("<a href=\""@, escape_text(site.url));
    lemma_tag_front("<a href=\""@ + escape_text(site.url), "\""@);
    lemma_tag_front(link_target(site.url), style);
    lemma_tag_front(link_target(site.url) + style, escape_text(site.color));
    lemma_tag_closed(link_target(site.url) + style + escape_text(site.color), "\">"@);
    lemma_tag_front("<span class=\"fab "@, escape_text(site.icon));
    lemma_tag_closed(
        "<span class=\"fab "@ + escape_text(site.icon),
        "\" style=\"font-size: 1.5rem;\">"@,
    );
    lemma_tag(anchor_tag(site));
    lemma_then_tag(anchor_tag(site), icon_tag(site));
    lemma_then_tag(anchor_tag(site) + icon_tag(site), "</span>"@);
    lemma_then_tag(anchor_tag(site) + icon_tag(site) + "</span>"@, "</a>"@);
    assert(tags(site_markup(site)) =~= site_tags(site));
}

/// The links to a list of sites read as the tags of one link for each site,
/// in the order of the list, and as no text: every rendered link is the link
/// to a site of the list, and every site has its link.
pub proof fn lemma_sites_read(sites: Seq<SiteView>)
    ensures
        reads_as(sites_markup(sites), sites_tags(sites), Seq::empty()),
    decreases sites.len(),
{
    if sites.len() == 0 {
        assert(tags(sites_markup(sites)) =~= sites_tags(sites));
        assert(text_nodes(sites_markup(sites)) =~= Seq::<Seq<char>>::empty());
    } else {
        lemma_sites_read(sites.drop_last());
        lemma_site_reads(sites.last());
        lemma_then(sites_markup(sites.drop_last()), site_markup(sites.last()));
        assert(text_nodes(sites_markup(sites)) =~= Seq::<Seq<char>>::empty());
    }
}

/// The target of a link whose address holds no markup character is the
/// address itself, character for character, between `<a href="` and `"`.
pub proof fn lemma_plain_link_target(url: Seq<char>)
    requires
        is_plain(url),
    ensures
        link_target(url) == "<a href=\""@ + url + "\""@,
{
    lemma_plain_text_unchanged(url);
}

/// A part stands in whatever is put together around it.
pub proof fn lemma_occurs_in_parts(before: Seq<char>, part: Seq<char>, after: Seq<char>)
    ensures
        occurs_in(before + part + after, part),
{
    let doc = before + part + after;
    let at = before.len() as int;
    assert(doc.subrange(at, at + part.len()) =~= part);
}

/// What stands in a part of a document stands in the document.
pub proof fn lemma_occurs_in_whole(doc: Seq<char>, mid: Seq<char>, part: Seq<char>)
    requires
        occurs_in(doc, mid),
        occurs_in(mid, part),
    ensures
        occurs_in(doc, part),
{
    let i = choose|i: int|
        0 <= i && i + mid.len() <= doc.len() && #[trigger] doc.subrange(i, i + mid.len()) == mid;
    let j = choose|j: int|
        0 <= j && j + part.len() <= mid.len() && #[trigger] mid.subrange(j, j + part.len()) == part;
    assert(doc.subrange(i + j, i + j + part.len()) =~= mid.subrange(j, j + part.len()));
}

/// The links to a list of sites hold the link to each site of the list.
pub proof fn lemma_sites_hold_each(sites: Seq<SiteView>, j: int)
    requires
        0 <= j < sites.len(),
    ensures
        occurs_in(sites_markup(sites), site_markup(sites[j])),
    decreases sites.len(),
{
    let front = sites_markup(sites.drop_last());
    let last = site_markup(sites.last());
    let nothing = Seq::<char>::empty();
    if j == sites.len() - 1 {
        lemma_occurs_in_parts(front, last, nothing);
        assert(front + last + nothing =~= sites_markup(sites));
    } else {
        lemma_sites_hold_each(sites.drop_last(), j);
        lemma_occurs_in_parts(nothing, front, last);
        assert(nothing + front + last =~= sites_markup(sites));
        lemma_occurs_in_whole(sites_markup(sites), front, site_markup(sites[j]));
    }
}

/// The Open Graph tags of a page with the given title and description.
pub open spec fn open_graph_tags(title: Seq<char>, description: Seq<char>) -> Seq<Seq<char>> {
    seq![
        "<meta property=\"og:url\" content=\"https://jtraber.com/\">"@,
        "<meta property=\"og:type\" content=\"website\">"@,
        meta_with("<meta property=\"og:title\" content=\""@, title),
        meta_with("<meta property=\"og:description\" content=\""@, description),
    ]
}

/// The Twitter card tags of a page with the given title and description.
pub open spec fn twitter_card_tags(title: Seq<char>, description: Seq<char>) -> Seq<Seq<char>> {
    seq![
        "<meta name=\"twitter:card\" content=\"summary_large_image\">"@,
        "<meta property=\"twitter:domain\" content=\"jtraber.com\">"@,
        "<meta property=\"twitter:url\" content=\"https://jtraber.com/\">"@,
        meta_with("<meta name=\"twitter:title\" content=\""@, title),
        meta_with("<meta name=\"twitter:description\" content=\""@, description),
    ]
}

/// The tags of the metadata of a page with the given title and description.
pub open spec fn meta_tags_list(title: Seq<char>, description: Seq<char>) -> Seq<Seq<char>> {
    seq![
        "<title>"@,
        "</title>"@,
        meta_with("<meta name=\"description\" content=\""@, description),
    ] + open_graph_tags(title, description) + twitter_card_tags(title, description)
        + seq!["<meta charset=\"UTF-8\">"@]
}

proof fn lemma_value_end()
    ensures
        closes_tag("\">"@),
{
    reveal_strlit("\">");
}

/// A `meta` tag with a value for its content is one tag, whatever the value
/// holds.
proof fn lemma_meta_with(front: Seq<char>, value: Seq<char>)
    requires
        opens_tag(front),
    ensures
        is_tag(meta_with(front, value)),
{
    lemma_value_end();
    lemma_escaped_is_inert(value);
    lemma_tag_front(front, escape_text(value));
    lemma_tag_closed(front + escape_text(value), "\">"@);
}

proof fn lemma_open_graph_pieces()
    ensures
        is_tag("<meta property=\"og:url\" content=\"https://jtraber.com/\">"@),
        is_tag("<meta property=\"og:type\" content=\"website\">"@),
        opens_tag("<meta property=\"og:title\" content=\""@),
        opens_tag("<meta property=\"og:description\" content=\""@),
{
    reveal_strlit("<meta property=\"og:url\" content=\"https://jtraber.com/\">");
    reveal_strlit("<meta property=\"og:type\" content=\"website\">");
    reveal_strlit("<meta property=\"og:title\" content=\"");
    reveal_strlit("<meta property=\"og:description\" content=\"");
}

/// The Open Graph tags read as four tags and no text.
pub proof fn lemma_open_graph_reads(title: Seq<char>, description: Seq<char>)
    ensures
        reads_as(
            open_graph_markup(title, description),
            open_graph_tags(title, description),
            Seq::empty(),
        ),
{
    lemma_open_graph_pieces();
    let address = "<meta property=\"og:url\" content=\"https://jtraber.com/\">"@;
    let kind = "<meta property=\"og:type\" content=\"website\">"@;
    let name = meta_with("<meta property=\"og:title\" content=\""@, title);
    let about = meta_with("<meta property=\"og:description\" content=\""@, description);
    lemma_meta_with("<meta property=\"og:title\" content=\""@, title);
    lemma_meta_with("<meta property=\"og:description\" content=\""@, description);
    lemma_tag(address);
    lemma_then_tag(address, kind);
    lemma_then_tag(address + kind, name);
    lemma_then_tag(address + kind + name, about);
    assert(tags(open_graph_markup(title, description)) =~= open_graph_tags(title, description));
}

proof fn lemma_twitter_card_pieces()
    ensures
        is_tag("<meta name=\"twitter:card\" content=\"summary_large_image\">"@),
        is_tag("<meta property=\"twitter:domain\" content=\"jtraber.com\">"@),
        is_tag("<meta property=\"twitter:url\" content=\"https://jtraber.com/\">"@),
        opens_tag("<meta name=\"twitter:title\" content=\""@),
        opens_tag("<meta name=\"twitter:description\" content=\""@),
{
    reveal_strlit("<meta name=\"twitter:card\" content=\"summary_large_image\">");
    reveal_strlit("<meta property=\"twitter:domain\" content=\"jtraber.com\">");
    reveal_strlit("<meta property=\"twitter:url\" content=\"https://jtraber.com/\">");
    reveal_strlit("<meta name=\"twitter:title\" content=\"");
    reveal_strlit("<meta name=\"twitter:description\" content=\"");
}

/// The Twitter card tags read as five tags and no text.
pub proof fn lemma_twitter_card_reads(title: Seq<char>, description: Seq<char>)
    ensures
        reads_as(
            twitter_card_markup(title, description),
            twitter_card_tags(title, description),
            Seq::empty(),
        ),
{
    lemma_twitter_card_pieces();
    let card = "<meta name=\"twitter:card\" content=\"summary_large_image\">"@;
    let domain = "<meta property=\"twitter:domain\" content=\"jtraber.com\">"@;
    let address = "<meta property=\"twitter:url\" content=\"https://jtraber.com/\">"@;
    let name = meta_with("<meta name=\"twitter:title\" content=\""@, title);
    let about = meta_with("<meta name=\"twitter:description\" content=\""@, description);
    lemma_meta_with("<meta name=\"twitter:title\" content=\""@, title);
    lemma_meta_with("<meta name=\"twitter:description\" content=\""@, description);
    lemma_tag(card);
    lemma_then_tag(card, domain);
    lemma_then_tag(card + domain, address);
    lemma_then_tag(card + domain + address, name);
    lemma_then_tag(card + domain + address + name, about);
    assert(tags(twitter_card_markup(title, description)) =~= twitter_card_tags(
        title,
        description,
    ));
}

proof fn lemma_meta_pieces()
    ensures
        is_tag("<title>"@),
        is_tag("</title>"@),
        opens_tag("<meta name=\"description\" content=\""@),
        is_tag("<meta charset=\"UTF-8\">"@),
{
    reveal_strlit("<title>");
    reveal_strlit("</title>");
    reveal_strlit("<meta name=\"description\" content=\"");
    reveal_strlit("<meta charset=\"UTF-8\">");
}

/// The metadata reads as thirteen tags and one text: the title, between the
/// only `title` tags. Whatever the title and the description hold, each
/// stays where it was written.
pub proof fn lemma_meta_tags_read(title: Seq<char>, description: Seq<char>)
    ensures
        reads_as(
            meta_tags_markup(title, description),
            meta_tags_list(title, description),
            node(escape_text(title)),
        ),
{
    lemma_meta_pieces();
    lemma_escaped_is_inert(title);
    let heading = element("<title>"@, escape_text(title), "</title>"@);
    let about = meta_with("<meta name=\"description\" content=\""@, description);
    let graph = open_graph_markup(title, description);
    let card = twitter_card_markup(title, description);
    lemma_element("<title>"@, escape_text(title), "</title>"@);
    lemma_meta_with("<meta name=\"description\" content=\""@, description);
    lemma_open_graph_reads(title, description);
    lemma_twitter_card_reads(title, description);
    lemma_then_tag(heading, about);
    lemma_then(heading + about, graph);
    lemma_then(heading + about + graph, card);
    lemma_then_tag(heading + about + graph + card, "<meta charset=\"UTF-8\">"@);
    assert(tags(heading + about) =~= seq!["<title>"@, "</title>"@, about]);
    assert(tags(meta_tags_markup(title, description)) =~= meta_tags_list(title, description));
    assert(text_nodes(meta_tags_markup(title, description)) =~= node(escape_text(title)));
}

proof fn lemma_fixed_texts()
    ensures
        is_plain(TITLE@),
        TITLE@.len() > 0,
        angle_free(TITLE@),
        angle_free(DEGREE_IN_COMPUTING@),
        DEGREE_IN_COMPUTING@.len() > 0,
        angle_free(DEGREE_IN_MATHEMATICS@),
        DEGREE_IN_MATHEMATICS@.len() > 0,
{
    reveal_strlit("JT Raber");
    reveal_strlit("\u{1F4BB} Level 100 Technomancer (B.Sc. Computer Science)");
    reveal_strlit("\u{1F9EE} Level 100 Mathemagician (B.Sc. Applied Mathematics)");
}

proof fn lemma_head_pieces()
    ensures
        is_tag("<head>"@),
        is_tag("<link rel=\"stylesheet\" href=\"/styles.css\">"@),
        is_tag(
            "<script defer src=\"https://kit.fontawesome.com/4f61f8988e.js\" crossorigin=\"anonymous\">"@,
        ),
        is_tag("</script>"@),
        is_tag("</head>"@),
{
    reveal_strlit("<head>");
    reveal_strlit("<link rel=\"stylesheet\" href=\"/styles.css\">");
    reveal_strlit(
        "<script defer src=\"https://kit.fontawesome.com/4f61f8988e.js\" crossorigin=\"anonymous\">",
    );
    reveal_strlit("</script>");
    reveal_strlit("</head>");
}

/// The head of the page reads as one text, the title.
pub proof fn lemma_head_reads()
    ensures
        is_fragment(head_markup()),
        text_nodes(head_markup()) == seq![TITLE@],
{
    lemma_head_pieces();
    lemma_fixed_texts();
    lemma_plain_text_unchanged(TITLE@);
    lemma_meta_tags_read(TITLE@, DESCRIPTION@);
    let meta = meta_tags_markup(TITLE@, DESCRIPTION@);
    let sheet = "<link rel=\"stylesheet\" href=\"/styles.css\">"@;
    let font =
        "<script defer src=\"https://kit.fontawesome.com/4f61f8988e.js\" crossorigin=\"anonymous\">"@;
    lemma_tag("<head>"@);
    lemma_then("<head>"@, meta);
    lemma_then_tag("<head>"@ + meta, sheet);
    lemma_then_tag("<head>"@ + meta + sheet, font);
    lemma_then_tag("<head>"@ + meta + sheet + font, "</script>"@);
    lemma_then_tag("<head>"@ + meta + sheet + font + "</script>"@, "</head>"@);
    assert(text_nodes(head_markup()) =~= seq![TITLE@]);
}

proof fn lemma_header_pieces()
    ensures
        is_tag(
            "<header class=\"flex-row\" style=\"font-size: 4rem; justify-content: flex-start;\">"@,
        ),
        is_tag("<span class=\"neumorphic outset\" style=\"padding: 0.5vmax 1vmax;\">"@),
        is_tag("</span>"@),
        is_tag(
            "<div class=\"flex-column\" style=\"align-items: flex-start; justify-content: space-around;\">"@,
        ),
        is_tag(header_line_tag()),
        is_tag("</div>"@),
        is_tag("</header>"@),
{
    reveal_strlit(
        "<header class=\"flex-row\" style=\"font-size: 4rem; justify-content: flex-start;\">",
    );
    reveal_strlit("<span class=\"neumorphic outset\" style=\"padding: 0.5vmax 1vmax;\">");
    reveal_strlit("</span>");
    reveal_strlit(
        "<div class=\"flex-column\" style=\"align-items: flex-start; justify-content: space-around;\">",
    );
    reveal_strlit(
        "<span class=\"neumorphic inset\" style=\"font-size: 0.33em; font-weight: 100; padding: 0.75vmax; width: 40vw;\">",
    );
    reveal_strlit("</div>");
    reveal_strlit("</header>");
}

/// The header of the page reads as its three lines.
pub proof fn lemma_header_reads()
    ensures
        is_fragment(header_markup()),
        text_nodes(header_markup()) == seq![TITLE@, DEGREE_IN_COMPUTING@, DEGREE_IN_MATHEMATICS@],
{
    lemma_header_pieces();
    lemma_fixed_texts();
    let open =
        "<header class=\"flex-row\" style=\"font-size: 4rem; justify-content: flex-start;\">"@;
    let name_tag = "<span class=\"neumorphic outset\" style=\"padding: 0.5vmax 1vmax;\">"@;
    let name = element(name_tag, TITLE@, "</span>"@);
    let column =
        "<div class=\"flex-column\" style=\"align-items: flex-start; justify-content: space-around;\">"@;
    let first = element(header_line_tag(), DEGREE_IN_COMPUTING@, "</span>"@);
    let second = element(header_line_tag(), DEGREE_IN_MATHEMATICS@, "</span>"@);
    lemma_tag(open);
    lemma_then_element(open, name_tag, TITLE@, "</span>"@);
    lemma_then_tag(open + name, column);
    lemma_then_element(open + name + column, header_line_tag(), DEGREE_IN_COMPUTING@, "</span>"@);
    lemma_then_element(
        open + name + column + first,
        header_line_tag(),
        DEGREE_IN_MATHEMATICS@,
        "</span>"@,
    );
    lemma_then_tag(open + name + column + first + second, "</div>"@);
    lemma_then_tag(open + name + column + first + second + "</div>"@, "</header>"@);
    assert(text_nodes(header_markup()) =~= seq![
        TITLE@,
        DEGREE_IN_COMPUTING@,
        DEGREE_IN_MATHEMATICS@,
    ]);
}

proof fn lemma_page_pieces()
    ensures
        is_tag("<!DOCTYPE html>"@),
        is_tag("<html>"@),
        is_tag("</html>"@),
        is_tag("<body class=\"flex-column\">"@),
        is_tag("<main>"@),
        is_tag("</main>"@),
        is_tag("<footer class=\"neumorphic inset flex-row\" style=\"font-size: 2rem;\">"@),
        is_tag("</footer>"@),
        is_tag("</body>"@),
{
    reveal_strlit("<!DOCTYPE html>");
    reveal_strlit("<html>");
    reveal_strlit("</html>");
    reveal_strlit("<body class=\"flex-column\">");
    reveal_strlit("<main>");
    reveal_strlit("</main>");
    reveal_strlit("<footer class=\"neumorphic inset flex-row\" style=\"font-size: 2rem;\">");
    reveal_strlit("</footer>");
    reveal_strlit("</body>");
}

/// The body of the page reads as the three lines of the header and then the
/// text of the shelves in their order. The links in the footer add no text.
pub proof fn lemma_body_reads(shelves: Seq<ShelfView>, sites: Seq<SiteView>)
    ensures
        is_fragment(body_markup(shelves, sites)),
        text_nodes(body_markup(shelves, sites)) == seq![
            TITLE@,
            DEGREE_IN_COMPUTING@,
            DEGREE_IN_MATHEMATICS@,
        ] + shelves_texts(shelves),
{
    lemma_page_pieces();
    lemma_header_reads();
    lemma_shelves_read(shelves);
    lemma_sites_read(sites);
    let open = "<body class=\"flex-column\">"@;
    let header = header_markup();
    let blocks = shelves_markup(shelves);
    let footer = "<footer class=\"neumorphic inset flex-row\" style=\"font-size: 2rem;\">"@;
    let links = sites_markup(sites);
    lemma_tag(open);
    lemma_then(open, header);
    lemma_then_tag(open + header, "<main>"@);
    lemma_then(open + header + "<main>"@, blocks);
    lemma_then_tag(open + header + "<main>"@ + blocks, "</main>"@);
    lemma_then_tag(open + header + "<main>"@ + blocks + "</main>"@, footer);
    lemma_then(open + header + "<main>"@ + blocks + "</main>"@ + footer, links);
    lemma_then_tag(open + header + "<main>"@ + blocks + "</main>"@ + footer + links, "</footer>"@);
    lemma_then_tag(
        open + header + "<main>"@ + blocks + "</main>"@ + footer + links + "</footer>"@,
        "</body>"@,
    );
    assert(text_nodes(body_markup(shelves, sites)) =~= seq![
        TITLE@,
        DEGREE_IN_COMPUTING@,
        DEGREE_IN_MATHEMATICS@,
    ] + shelves_texts(shelves));
}

/// The text of the whole page is the title, the three lines of the header,
/// and then, for each shelf in the order of the content, the shelf's name
/// followed by the name and the description of each of its projects in
/// their order. Every name stands there once, at its place, and the page
/// holds no text besides.
pub proof fn lemma_page_reads(shelves: Seq<ShelfView>, sites: Seq<SiteView>)
    ensures
        is_fragment(page_markup(shelves, sites)),
        text_nodes(page_markup(shelves, sites)) == page_texts(shelves),
{
    lemma_page_pieces();
    lemma_head_reads();
    lemma_body_reads(shelves, sites);
    let declaration = "<!DOCTYPE html>"@;
    let head = head_markup();
    let body = body_markup(shelves, sites);
    lemma_tag(declaration);
    lemma_then_tag(declaration, "<html>"@);
    lemma_then(declaration + "<html>"@, head);
    lemma_then(declaration + "<html>"@ + head, body);
    lemma_then_tag(declaration + "<html>"@ + head + body, "</html>"@);
    assert(text_nodes(page_markup(shelves, sites)) =~= page_texts(shelves));
}

/// The page holds the target of the link to every site of the content:
/// `<a href="`, the site's address escaped, and `"`. Where the address holds
/// no markup character, that is the address itself, character for
/// character.
pub proof fn lemma_page_holds_links(shelves: Seq<ShelfView>, sites: Seq<SiteView>, j: int)
    requires
        0 <= j < sites.len(),
    ensures
        occurs_in(page_markup(shelves, sites), link_target(sites[j].url)),
        is_plain(sites[j].url) ==> link_target(sites[j].url) == "<a href=\""@ + sites[j].url
            + "\""@,
{
    let site = sites[j];
    let nothing = Seq::<char>::empty();
    let style =
        " target=\"_blank\" class=\"clickable social neumorphic outset flex-row\" style=\"color: "@;
    let rest = style + escape_text(site.color) + "\">"@ + icon_tag(site) + "</span>"@ + "</a>"@;
    lemma_occurs_in_parts(nothing, link_target(site.url), rest);
    assert(nothing + link_target(site.url) + rest =~= site_markup(site));
    lemma_sites_hold_each(sites, j);
    lemma_occurs_in_whole(sites_markup(sites), site_markup(site), link_target(site.url));
    let before = "<body class=\"flex-column\">"@ + header_markup() + "<main>"@ + shelves_markup(
        shelves,
    ) + "</main>"@ + "<footer class=\"neumorphic inset flex-row\" style=\"font-size: 2rem;\">"@;
    let after = "</footer>"@ + "</body>"@;
    lemma_occurs_in_parts(before, sites_markup(sites), after);
    assert(before + sites_markup(sites) + after =~= body_markup(shelves, sites));
    lemma_occurs_in_whole(body_markup(shelves, sites), sites_markup(sites), link_target(site.url));
    lemma_occurs_in_parts(
        "<!DOCTYPE html>"@ + "<html>"@ + head_markup(),
        body_markup(shelves, sites),
        "</html>"@,
    );
    lemma_occurs_in_whole(
        page_markup(shelves, sites),
        body_markup(shelves, sites),
        link_target(site.url),
    );
    if is_plain(site.url) {
        lemma_plain_link_target(site.url);
    }
}

} // verus!
