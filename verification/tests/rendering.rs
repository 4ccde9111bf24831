use portfolio::content::{shelves, sites, Project, Shelf, Site};
use portfolio::escape::escape;
use portfolio::render::{get_meta_tags, meta_tags, render_page};

fn count(haystack: &str, needle: &str) -> usize {
    haystack.matches(needle).count()
}

#[test]
fn escaping_replaces_the_four_markup_characters() {
    assert_eq!(
        escape("<script>launchMissiles()</script>"),
        "&lt;script&gt;launchMissiles()&lt;/script&gt;"
    );
    assert_eq!(escape("a & b"), "a &amp; b");
    assert_eq!(escape("say \"hi\""), "say &quot;hi&quot;");
}

#[test]
fn escaping_leaves_other_characters_alone() {
    assert_eq!(escape("it's"), "it's");
    assert_eq!(escape(""), "");
    assert_eq!(escape("caf\u{e9} \u{1F4BB}"), "caf\u{e9} \u{1F4BB}");
}

#[test]
fn meta_tags_of_the_site() {
    let expected = concat_all(&[
        "<title>JT Raber</title>",
        "<meta name=\"description\" content=\"See what I have made!\">",
        "<meta property=\"og:url\" content=\"https://jtraber.com/\">",
        "<meta property=\"og:type\" content=\"website\">",
        "<meta property=\"og:title\" content=\"JT Raber\">",
        "<meta property=\"og:description\" content=\"See what I have made!\">",
        "<meta name=\"twitter:card\" content=\"summary_large_image\">",
        "<meta property=\"twitter:domain\" content=\"jtraber.com\">",
        "<meta property=\"twitter:url\" content=\"https://jtraber.com/\">",
        "<meta name=\"twitter:title\" content=\"JT Raber\">",
        "<meta name=\"twitter:description\" content=\"See what I have made!\">",
        "<meta charset=\"UTF-8\">",
    ]);
    assert_eq!(get_meta_tags().into_string(), expected);
}

fn concat_all(parts: &[&str]) -> String {
    let mut all = String::new();
    for part in parts {
        all.push_str(part);
    }
    all
}

#[test]
fn meta_tags_hold_one_title_and_the_character_set() {
    let head = get_meta_tags().into_string();
    assert_eq!(count(&head, "<title>"), 1);
    assert_eq!(count(&head, "</title>"), 1);
    assert!(head.contains("<title>JT Raber</title>"));
    assert_eq!(count(&head, "<meta charset=\"UTF-8\">"), 1);
}

#[test]
fn meta_tags_escape_what_they_are_given() {
    let head = meta_tags("Q&A", "\"<b>\"").into_string();
    assert!(head.starts_with("<title>Q&amp;A</title>"));
    assert!(head.contains("<meta name=\"description\" content=\"&quot;&lt;b&gt;&quot;\">"));
    assert!(head.contains("<meta property=\"og:title\" content=\"Q&amp;A\">"));
    assert_eq!(count(&head, "<title>"), 1);
}

#[test]
fn project_block() {
    let project = Project { name: "Whiteboard", description: "A drawing app." };
    assert_eq!(
        project.render().into_string(),
        "<div class=\"neumorphic inset flex-column\"><h1>Whiteboard</h1><p style=\"width: 30ch;\">A drawing app.</p></div>"
    );
}

#[test]
fn description_with_an_apostrophe_stays_intact() {
    let project = Project { name: "Lamp", description: "cutting open it's wires" };
    assert_eq!(
        project.render().into_string(),
        "<div class=\"neumorphic inset flex-column\"><h1>Lamp</h1><p style=\"width: 30ch;\">cutting open it's wires</p></div>"
    );
}

#[test]
fn description_with_angle_brackets_does_not_break_the_block() {
    let project = Project { name: "a<b", description: "</p><script>x</script> & more" };
    let block = project.render().into_string();
    assert_eq!(
        block,
        "<div class=\"neumorphic inset flex-column\"><h1>a&lt;b</h1><p style=\"width: 30ch;\">&lt;/p&gt;&lt;script&gt;x&lt;/script&gt; &amp; more</p></div>"
    );
    assert_eq!(count(&block, "<"), 6);
    assert_eq!(count(&block, ">"), 6);
}

#[test]
fn shelf_block_holds_its_projects_in_order() {
    let shelf = Shelf {
        name: "Shelf",
        projects: vec![
            Project { name: "One", description: "first" },
            Project { name: "Two", description: "second" },
        ],
    };
    let expected = concat_all(&[
        "<div class=\"neumorphic outset flex-column\" style=\"font-size: 2rem; width: 95vw;\">",
        "<span class=\"neumorphic inset\" style=\"font-weight: 100;\">Shelf</span>",
        "<div class=\"flex-row\" style=\"align-items: stretch; flex-wrap: wrap;\">",
        "<div class=\"neumorphic inset flex-column\"><h1>One</h1><p style=\"width: 30ch;\">first</p></div>",
        "<div class=\"neumorphic inset flex-column\"><h1>Two</h1><p style=\"width: 30ch;\">second</p></div>",
        "</div></div>",
    ]);
    assert_eq!(shelf.render().into_string(), expected);
}

#[test]
fn empty_shelf_block() {
    let shelf = Shelf { name: "Nothing yet", projects: vec![] };
    let expected = concat_all(&[
        "<div class=\"neumorphic outset flex-column\" style=\"font-size: 2rem; width: 95vw;\">",
        "<span class=\"neumorphic inset\" style=\"font-weight: 100;\">Nothing yet</span>",
        "<div class=\"flex-row\" style=\"align-items: stretch; flex-wrap: wrap;\">",
        "</div></div>",
    ]);
    assert_eq!(shelf.render().into_string(), expected);
}

#[test]
fn site_link() {
    let site = Site { url: "https://github.com/JMANN240", color: "#4078c0", icon: "fa-github" };
    assert_eq!(
        site.render().into_string(),
        "<a href=\"https://github.com/JMANN240\" target=\"_blank\" class=\"clickable social neumorphic outset flex-row\" style=\"color: #4078c0\"><span class=\"fab fa-github\" style=\"font-size: 1.5rem;\"></span></a>"
    );
}

#[test]
fn site_link_escapes_its_fields() {
    let site = Site { url: "https://x.test/?a=1&b=\"2\"", color: "red\">", icon: "<i>" };
    assert_eq!(
        site.render().into_string(),
        "<a href=\"https://x.test/?a=1&amp;b=&quot;2&quot;\" target=\"_blank\" class=\"clickable social neumorphic outset flex-row\" style=\"color: red&quot;&gt;\"><span class=\"fab &lt;i&gt;\" style=\"font-size: 1.5rem;\"></span></a>"
    );
}

#[test]
fn page_of_nothing() {
    let expected = concat_all(&[
        "<!DOCTYPE html><html><head>",
        &get_meta_tags().into_string(),
        "<link rel=\"stylesheet\" href=\"/styles.css\">",
        "<script defer src=\"https://kit.fontawesome.com/4f61f8988e.js\" crossorigin=\"anonymous\"></script>",
        "</head><body class=\"flex-column\">",
        "<header class=\"flex-row\" style=\"font-size: 4rem; justify-content: flex-start;\">",
        "<span class=\"neumorphic outset\" style=\"padding: 0.5vmax 1vmax;\">JT Raber</span>",
        "<div class=\"flex-column\" style=\"align-items: flex-start; justify-content: space-around;\">",
        "<span class=\"neumorphic inset\" style=\"font-size: 0.33em; font-weight: 100; padding: 0.75vmax; width: 40vw;\">",
        "\u{1F4BB} Level 100 Technomancer (B.Sc. Computer Science)</span>",
        "<span class=\"neumorphic inset\" style=\"font-size: 0.33em; font-weight: 100; padding: 0.75vmax; width: 40vw;\">",
        "\u{1F9EE} Level 100 Mathemagician (B.Sc. Applied Mathematics)</span>",
        "</div></header><main></main>",
        "<footer class=\"neumorphic inset flex-row\" style=\"font-size: 2rem;\"></footer>",
        "</body></html>",
    ]);
    assert_eq!(render_page(&[], &[]).into_string(), expected);
}

#[test]
fn page_is_its_frame_around_shelves_and_links() {
    let shelf = Shelf { name: "S", projects: vec![Project { name: "P", description: "D" }] };
    let site = Site { url: "https://x.test/", color: "#000", icon: "fa-x" };
    let empty = render_page(&[], &[]).into_string();
    let block = shelf.render().into_string();
    let link = site.render().into_string();
    let expected = empty
        .replace("<main></main>", &format!("<main>{}{}</main>", block, block))
        .replace("\"></footer>", &format!("\">{}</footer>", link));
    let shelf_again = Shelf { name: "S", projects: vec![Project { name: "P", description: "D" }] };
    assert_eq!(render_page(&[shelf, shelf_again], &[site]).into_string(), expected);
}

#[test]
fn page_lists_every_name_once_and_in_order() {
    let catalog = shelves();
    let page = render_page(&catalog, &sites()).into_string();
    let mut from = 0;
    let mut projects = 0;
    for shelf in &catalog {
        let label = format!(
            "<span class=\"neumorphic inset\" style=\"font-weight: 100;\">{}</span>",
            shelf.name
        );
        assert_eq!(count(&page, &label), 1);
        let at = page[from..].find(&label).unwrap();
        from += at + label.len();
        for project in &shelf.projects {
            let heading = format!("<h1>{}</h1>", project.name);
            assert_eq!(count(&page, &heading), 1);
            let at = page[from..].find(&heading).unwrap();
            from += at + heading.len();
            projects += 1;
        }
    }
    assert_eq!(projects, 16);
    assert_eq!(count(&page, "<h1>"), 16);
    assert_eq!(count(&page, "<span class=\"neumorphic inset\" style=\"font-weight: 100;\">"), 2);
}

#[test]
fn page_links_to_every_site_in_order() {
    let links = sites();
    let page = render_page(&shelves(), &links).into_string();
    let mut from = 0;
    for site in &links {
        let target = format!("<a href=\"{}\"", site.url);
        assert_eq!(count(&page, &target), 1);
        let at = page[from..].find(&target).unwrap();
        from += at + target.len();
    }
    assert_eq!(count(&page, "<a "), 4);
    assert!(page.contains("<a href=\"https://stackoverflow.com/users/14108612/jt-raber\""));
}

#[test]
fn page_starts_with_the_document_type() {
    let page = render_page(&shelves(), &sites()).into_string();
    assert!(page.starts_with("<!DOCTYPE html><html><head><title>JT Raber</title>"));
    assert!(page.ends_with("</footer></body></html>"));
    assert!(page.contains("an internet-controlled lamp") || page.contains("internet-controlled lamp"));
    assert!(page.contains("cutting open it's wires"));
}
