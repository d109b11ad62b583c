use rompatch::metadata::{page_parts, page_record};
use rompatch::site::{announced_downloads, list_page_ids, page_heading, page_links, page_metas, page_title};

const LIST_PAGE: &str = "<html><body>\
<a href=\"hack.php?id=1\">outside any cell</a>\
<table>\
<tr><td><a href=\"hack.php?id=756\">Hyper</a> <a name=\"anchor\">no link</a></td>\
<td>text <b><a href=\"hack.php?id=12\">deep</a></b></td></tr>\
<tr><td><a href=\"profile.php?id=5\">author</a></td>\
<td><table><tr><td><a href=\"hack.php?id=99\">nested</a></td></tr></table></td></tr>\
</table></body></html>";

const HACK_PAGE: &str = "<html><head>\
<meta charset=\"utf-8\">\
<meta property=\"og:title\" content=\"Hyper Metroid\">\
<meta property=\"og:image\" content=\"shot.png\">\
</head><body><table>\
<tr><td class=\"underboxA\">  Heading Title \
<span>sub</span></td><td class=\"underboxA\">Second</td></tr>\
<tr><td class=\"underboxD\"><b>Release date:</b> Jan 01, 2015</td></tr>\
<tr><td class=\"underboxD\"><b>Author:</b> <a href=\"profile.php?id=1\">RealRed</a></td></tr>\
<tr><td class=\"underboxD\"><b>Genre:</b> Exploration <br></td></tr>\
<tr><td class=\"underboxD\"><b>Difficulty:</b> Veteran <br></td></tr>\
</table>\
<span id=\"average_runtime\">4:32</span><span id=\"average_completion\">87%</span>\
<span title=\"rating\">Average Rating: 4.72 chozo orbs</span>\
<a href=\"download.php?id=756&amp;f=hacks\">Download</a>\
<a href=\"forum.php\">Forum</a>\
</body></html>";

fn strings(items: &[&str]) -> Vec<String> {
    items.iter().map(|s| s.to_string()).collect()
}

#[test]
fn ids_of_the_list_page_come_from_links_in_cells() {
    assert_eq!(list_page_ids(LIST_PAGE), Ok(strings(&["756", "12", "99", "99"])));
    assert_eq!(list_page_ids(""), Ok(Vec::new()));
    assert_eq!(list_page_ids("<a href=\"hack.php?id=3\">no table</a>"), Ok(Vec::new()));
}

#[test]
fn links_of_a_page() {
    assert_eq!(
        page_links(HACK_PAGE),
        Ok(strings(&["profile.php?id=1", "download.php?id=756&f=hacks", "forum.php"]))
    );
    assert_eq!(page_links("plain text"), Ok(Vec::new()));
}

#[test]
fn metas_and_heading_of_a_page() {
    let metas = page_metas(HACK_PAGE).unwrap();
    assert_eq!(metas.len(), 3);
    assert_eq!(metas[0].property(), None);
    assert_eq!(metas[0].content(), None);
    assert_eq!(metas[1].property(), Some("og:title"));
    assert_eq!(metas[1].content(), Some("Hyper Metroid"));
    assert_eq!(metas[2].property(), Some("og:image"));
    assert_eq!(metas[2].content(), Some("shot.png"));
    assert_eq!(page_heading(HACK_PAGE), Ok(Some("  Heading Title ".to_string())));
    assert_eq!(page_heading("<p>none</p>"), Ok(None));
    assert_eq!(page_heading("<table><tr><td class=\"underboxA\"></td></tr></table>"), Ok(None));
}

#[test]
fn title_of_a_page() {
    assert_eq!(page_title(HACK_PAGE), Ok(Some("Hyper Metroid".to_string())));
    let untitled = HACK_PAGE.replace("og:title", "og:other");
    assert_eq!(page_title(&untitled), Ok(Some("Heading Title".to_string())));
    assert_eq!(page_title("<p>nothing</p>"), Ok(None));
}

#[test]
fn downloads_of_a_redirect_page() {
    let page = "<html><head>\
<meta charset=\"utf-8\">\
<meta http-equiv=\"refresh\" content=\"0; url=https://example.org/files/hack.zip\">\
<meta name=\"viewport\" content=\"width=device-width\">\
</head></html>";
    let found = announced_downloads(page, "downloads/0007-756").unwrap();
    assert_eq!(found.len(), 1);
    assert_eq!(found[0].url(), "https://example.org/files/hack.zip");
    assert_eq!(found[0].name(), "hack.zip");
    assert_eq!(found[0].file(), "downloads/0007-756/hack.zip");
    assert!(announced_downloads("<p>none</p>", "d").unwrap().is_empty());
}

#[test]
fn record_of_a_page() {
    let parts = page_parts(HACK_PAGE).unwrap();
    assert_eq!(parts.metas.len(), 3);
    assert_eq!(parts.heading, Some("  Heading Title ".to_string()));
    assert_eq!(parts.details.len(), 4);
    assert_eq!(parts.details[0], "<b>Release date:</b> Jan 01, 2015");
    assert_eq!(parts.runtimes, strings(&["4:32"]));
    assert_eq!(parts.completions, strings(&["87%"]));
    assert_eq!(parts.ratings, strings(&["Average Rating: 4.72 chozo orbs"]));

    let record = page_record(HACK_PAGE).unwrap();
    assert_eq!(record.title, "Hyper Metroid");
    assert_eq!(record.date, "Jan 01, 2015");
    assert_eq!(record.author, "RealRed");
    assert_eq!(record.genre, "Exploration");
    assert_eq!(record.difficulty, "Veteran");
    assert_eq!(record.runtime, "4:32");
    assert_eq!(record.collection, "87%");
    assert_eq!(record.rating, "4.72");
}
