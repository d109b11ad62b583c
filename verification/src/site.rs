//! The catalogue of hacks on the web site: which pages to ask for, what to
//! read from them, and where a download is kept.

use vstd::prelude::*;
use vstd::string::*;
use crate::html::{
    attr_values, first_texts, html_attr, html_first_text, html_nested_attr, nested_attr_values,
    selector_parses,
};
use crate::pattern::{
    captured, matches_in, present, present_texts, regex_captures, regex_compiles, strings_of,
    SyntaxError,
};
use crate::text::{
    after_last, str_equal, tail_after_last, text_of, trim, trimmed, zero_padded,
    zero_padded_text,
};

verus! {

/// The address of the site, with the `/` at its end.
pub open spec fn site() -> Seq<char> {
    "https://metroidconstruction.com/"@
}

/// The query that lists every hack of the game on one page.
pub open spec fn list_query() -> Seq<char> {
    "hacks.php?sort=5&dir=asc&filters%5B%5D=SM&filters%5B%5D=Unknown&filters%5B%5D=Boss+Rush&filters%5B%5D=Exploration&filters%5B%5D=Challenge&filters%5B%5D=Spoof&filters%5B%5D=Speedrun%2FRace&filters%5B%5D=Incomplete&filters%5B%5D=Quick+Play&filters%5B%5D=Improvement&filters%5B%5D=Vanilla%2B&search=&num_per_page=1000"@
}

/// The address of the page that lists all hacks.
pub fn list_url() -> (url: String)
    ensures
        url@ == site() + list_query(),
{
    let mut url = String::from_str("https://metroidconstruction.com/");
    url.append(
        "hacks.php?sort=5&dir=asc&filters%5B%5D=SM&filters%5B%5D=Unknown&filters%5B%5D=Boss+Rush&filters%5B%5D=Exploration&filters%5B%5D=Challenge&filters%5B%5D=Spoof&filters%5B%5D=Speedrun%2FRace&filters%5B%5D=Incomplete&filters%5B%5D=Quick+Play&filters%5B%5D=Improvement&filters%5B%5D=Vanilla%2B&search=&num_per_page=1000",
    );
    url
}

/// The address of the page of the hack with the given id.
pub fn hack_url(id: &str) -> (url: String)
    ensures
        url@ == site() + "hack.php?id="@ + id@,
{
    let mut url = String::from_str("https://metroidconstruction.com/");
    url.append("hack.php?id=");
    url.append(id);
    url
}

/// The address behind a link of the site, which is given from its root.
pub fn redirect_url(href: &str) -> (url: String)
    ensures
        url@ == site() + href@,
{
    let mut url = String::from_str("https://metroidconstruction.com/");
    url.append(href);
    url
}

/// The pattern of a link to a hack's page; its one group is the hack's id.
pub open spec fn hack_link_pattern() -> Seq<char> {
    "^hack\\.php\\?id=([0-9]+)$"@
}

/// The ids in a run of links: what the group of `hack_link_pattern` captures
/// in each, in the order of the links.
pub open spec fn ids_in(hrefs: Seq<Seq<char>>) -> Seq<Seq<char>>
    decreases hrefs.len(),
{
    if hrefs.len() == 0 {
        Seq::empty()
    } else {
        ids_in(hrefs.drop_last()) + present(regex_captures(hack_link_pattern(), 1, hrefs.last()))
    }
}

/// Collects the ids of the hacks that the links of the list page lead to.
///
/// Fails only if there is a link to look at and the pattern does not
/// compile.
pub fn hack_ids(hrefs: &Vec<String>) -> (ids: Result<Vec<String>, SyntaxError>)
    ensures
        ids is Err <==> hrefs@.len() > 0 && !regex_compiles(hack_link_pattern()),
        ids matches Ok(found) ==> strings_of(found@) == ids_in(strings_of(hrefs@)),
{
    let ghost links = strings_of(hrefs@);
    let mut found: Vec<String> = Vec::new();
    let mut i: usize = 0;
    assert(links.take(0) =~= Seq::<Seq<char>>::empty());
    while i < hrefs.len()
        invariant
            i <= hrefs@.len(),
            links == strings_of(hrefs@),
            strings_of(found@) == ids_in(links.take(i as int)),
            i > 0 ==> regex_compiles(hack_link_pattern()),
        decreases hrefs@.len() - i,
    {
        let mut more = match captured("^hack\\.php\\?id=([0-9]+)$", 1, hrefs[i].as_str()) {
            Ok(more) => more,
            Err(e) => return Err(e),
        };
        proof {
            assert(links.take(i + 1).drop_last() =~= links.take(i as int));
            assert(links.take(i + 1).last() == hrefs@[i as int]@);
        }
        let ghost before = strings_of(found@);
        let ghost added = strings_of(more@);
        found.append(&mut more);
        assert(strings_of(found@) =~= before + added);
        i = i + 1;
    }
    assert(links.take(hrefs@.len() as int) =~= links);
    Ok(found)
}

/// The pattern of a link that starts the download of the hack with the
/// given id.
pub open spec fn download_link_pattern(id: Seq<char>) -> Seq<char> {
    "(^download\\.php\\?id="@ + id + ")"@
}

/// Tells whether a link of a hack's page starts the download of that hack.
/// Fails exactly when the pattern made from the id does not compile.
pub fn is_download_link(id: &str, href: &str) -> (found: Result<bool, SyntaxError>)
    ensures
        found is Ok <==> regex_compiles(download_link_pattern(id@)),
        found matches Ok(is_link) ==> is_link == (regex_captures(
            download_link_pattern(id@),
            0,
            href@,
        ).len() > 0),
{
    let mut pattern = String::from_str("(^download\\.php\\?id=");
    pattern.append(id);
    pattern.append(")");
    matches_in(pattern.as_str(), href)
}

/// What `sanitise_file_name::sanitise` makes of a name: a name that a file
/// system takes.
pub uninterp spec fn sanitised(name: Seq<char>) -> Seq<char>;

/// Calls `sanitise_file_name::sanitise`, with its default options.
///
/// Not proved: that the result is the one that `sanitised` names.
#[verifier::external_body]
fn sanitise_name(name: &str) -> (clean: String)
    ensures
        clean@ == sanitised(name@),
{
    sanitise_file_name::sanitise(name)
}

/// The directory that keeps the downloads of one hack: below `downloads`,
/// named by the place of the hack in the list in four digits, its id and,
/// where the page gave one, its title, the whole made safe as a file name.
pub open spec fn download_dir_of(place: nat, id: Seq<char>, title: Option<Seq<char>>) -> Seq<char> {
    match title {
        Some(title) => "downloads/"@ + sanitised(zero_padded(place, 4) + "-"@ + id + "-"@ + title),
        None => "downloads/"@ + zero_padded(place, 4) + "-"@ + id,
    }
}

/// Names the directory that keeps the downloads of one hack.
pub fn download_dir(place: usize, id: &str, title: Option<&str>) -> (dir: String)
    ensures
        dir@ == download_dir_of(place as nat, id@, match title {
            Some(t) => Some(t@),
            None => None,
        }),
{
    let mut name = zero_padded_text(place, 4);
    name.append("-");
    name.append(id);
    let mut dir = String::from_str("downloads/");
    match title {
        Some(title) => {
            name.append("-");
            name.append(title);
            let clean = sanitise_name(name.as_str());
            dir.append(clean.as_str());
        },
        None => {
            dir.append(name.as_str());
        },
    }
    dir
}

/// A file to fetch, and where to keep it.
#[derive(Debug)]
pub struct Download {
    url: String,
    name: String,
    file: String,
}

/// A download as text: the address to fetch, the name of the file, and its
/// path.
pub struct DownloadModel {
    pub url: Seq<char>,
    pub name: Seq<char>,
    pub file: Seq<char>,
}

impl View for Download {
    type V = DownloadModel;

    closed spec fn view(&self) -> DownloadModel {
        DownloadModel { url: self.url@, name: self.name@, file: self.file@ }
    }
}

impl Download {
    /// The address to fetch.
    pub fn url(&self) -> (url: &str)
        ensures
            url@ == self@.url,
    {
        self.url.as_str()
    }

    /// The name of the file, as the address gives it.
    pub fn name(&self) -> (name: &str)
        ensures
            name@ == self@.name,
    {
        self.name.as_str()
    }

    /// The path of the file that keeps what was fetched.
    pub fn file(&self) -> (file: &str)
        ensures
            file@ == self@.file,
    {
        self.file.as_str()
    }
}

/// The download that a redirect page announces in the content of one of its
/// `meta` elements: the address is what follows the last `=` of the content,
/// and the file is named by what follows the last `/` of the address, in
/// `dir`. A content without `=`, or an address without `/`, announces none.
pub open spec fn download_of(content: Seq<char>, dir: Seq<char>) -> Option<DownloadModel> {
    match tail_after_last(content, '=') {
        Some(url) => match tail_after_last(url, '/') {
            Some(name) => Some(DownloadModel { url, name, file: dir + "/"@ + name }),
            None => None,
        },
        None => None,
    }
}

/// Reads the download that the content of a `meta` element announces.
pub fn download_for(content: &str, dir: &str) -> (download: Option<Download>)
    ensures
        match download {
            Some(d) => download_of(content@, dir@) == Some(d@),
            None => download_of(content@, dir@) is None,
        },
{
    let url = match after_last(content, '=') {
        Some(url) => url,
        None => return None,
    };
    let name = match after_last(url.as_str(), '/') {
        Some(name) => name,
        None => return None,
    };
    let mut file = String::from_str(dir);
    file.append("/");
    file.append(name.as_str());
    Some(Download { url, name, file })
}

/// A `meta` element of a page: its `property` and `content` attributes,
/// where it has them.
#[derive(Debug)]
pub struct MetaTag {
    property: Option<String>,
    content: Option<String>,
}

/// A `meta` element as text.
pub struct MetaModel {
    pub property: Option<Seq<char>>,
    pub content: Option<Seq<char>>,
}

impl View for MetaTag {
    type V = MetaModel;

    closed spec fn view(&self) -> MetaModel {
        MetaModel { property: text_of(self.property), content: text_of(self.content) }
    }
}

impl MetaTag {
    /// A `meta` element with the given attributes.
    pub fn new(property: Option<String>, content: Option<String>) -> (tag: MetaTag)
        ensures
            tag@ == (MetaModel { property: text_of(property), content: text_of(content) }),
    {
        MetaTag { property, content }
    }

    /// The `property` attribute.
    pub fn property(&self) -> (property: Option<&str>)
        ensures
            match property {
                Some(p) => self@.property == Some(p@),
                None => self@.property is None,
            },
    {
        match &self.property {
            Some(p) => Some(p.as_str()),
            None => None,
        }
    }

    /// The `content` attribute.
    pub fn content(&self) -> (content: Option<&str>)
        ensures
            match content {
                Some(c) => self@.content == Some(c@),
                None => self@.content is None,
            },
    {
        match &self.content {
            Some(c) => Some(c.as_str()),
            None => None,
        }
    }
}

/// The models of a run of `meta` elements.
pub open spec fn metas_of(tags: Seq<MetaTag>) -> Seq<MetaModel> {
    Seq::new(tags.len(), |i: int| tags[i]@)
}

/// The title that the `meta` elements of a page give: the content of the
/// last one whose property is `og:title`. It is `None` where the page has no
/// such element, and also where the last such element has no content.
pub open spec fn meta_title(metas: Seq<MetaModel>) -> Option<Seq<char>>
    decreases metas.len(),
{
    if metas.len() == 0 {
        None
    } else if metas.last().property == Some("og:title"@) {
        metas.last().content
    } else {
        meta_title(metas.drop_last())
    }
}

/// The title of a hack: the one that the `meta` elements give or, failing
/// that, the text that heads the page, without the white space around it.
pub open spec fn title_of(metas: Seq<MetaModel>, heading: Option<Seq<char>>) -> Option<Seq<char>> {
    match meta_title(metas) {
        Some(title) => Some(title),
        None => match heading {
            Some(text) => Some(trimmed(text)),
            None => None,
        },
    }
}

/// Picks the title of a hack from what its page holds.
pub fn pick_title(metas: &Vec<MetaTag>, heading: Option<&str>) -> (title: Option<String>)
    ensures
        text_of(title) == title_of(metas_of(metas@), match heading {
            Some(h) => Some(h@),
            None => None,
        }),
{
    let ghost all = metas_of(metas@);
    let mut i: usize = metas.len();
    assert(all.take(metas@.len() as int) =~= all);
    while i > 0
        invariant
            i <= metas@.len(),
            all == metas_of(metas@),
            meta_title(all) == meta_title(all.take(i as int)),
        decreases i,
    {
        proof {
            assert(all.take(i as int).drop_last() =~= all.take(i - 1));
            assert(all.take(i as int).last() == metas@[i - 1]@);
        }
        i = i - 1;
        let tag = &metas[i];
        let is_title = match &tag.property {
            Some(property) => str_equal(property.as_str(), "og:title"),
            None => false,
        };
        if is_title {
            match &tag.content {
                Some(content) => return Some(content.clone()),
                None => {
                    return match heading {
                        Some(text) => Some(trim(text)),
                        None => None,
                    };
                },
            }
        }
    }
    assert(all.take(0) =~= Seq::<MetaModel>::empty());
    match heading {
        Some(text) => Some(trim(text)),
        None => None,
    }
}

/// The links of the list page: the `href` of every `a` inside a `td`, in
/// the order of the page.
pub open spec fn cell_links(body: Seq<char>) -> Seq<Seq<char>> {
    present(html_nested_attr(body, "td"@, "a"@, "href"@))
}

/// Reads the ids of all hacks from the list page.
///
/// Fails only for a selector that does not parse or, where the page has a
/// link to look at, a pattern that does not compile.
pub fn list_page_ids(body: &str) -> (ids: Result<Vec<String>, SyntaxError>)
    ensures
        ids is Err <==> !(selector_parses("td"@) && selector_parses("a"@)) || (cell_links(
            body@,
        ).len() > 0 && !regex_compiles(hack_link_pattern())),
        ids matches Ok(found) ==> strings_of(found@) == ids_in(cell_links(body@)),
{
    let values = match nested_attr_values(body, "td", "a", "href") {
        Ok(values) => values,
        Err(e) => return Err(e),
    };
    let hrefs = present_texts(&values);
    hack_ids(&hrefs)
}

/// The links of a page: the `href` of every `a`, in the order of the page.
pub open spec fn links_in(page: Seq<char>) -> Seq<Seq<char>> {
    present(html_attr(page, "a"@, "href"@))
}

/// Reads the links of a page. Fails exactly when the selector does not
/// parse.
pub fn page_links(page: &str) -> (links: Result<Vec<String>, SyntaxError>)
    ensures
        links is Ok <==> selector_parses("a"@),
        links matches Ok(found) ==> strings_of(found@) == links_in(page@),
{
    match attr_values(page, "a", "href") {
        Ok(values) => Ok(present_texts(&values)),
        Err(e) => Err(e),
    }
}

/// The `meta` elements of a page, in the order of the page.
pub open spec fn metas_in(page: Seq<char>) -> Seq<MetaModel> {
    let properties = html_attr(page, "meta"@, "property"@);
    let contents = html_attr(page, "meta"@, "content"@);
    Seq::new(
        if properties.len() <= contents.len() {
            properties.len()
        } else {
            contents.len()
        },
        |i: int| MetaModel { property: properties[i], content: contents[i] },
    )
}

fn copy_text(text: &Option<String>) -> (copy: Option<String>)
    ensures
        text_of(copy) == text_of(*text),
{
    match text {
        Some(text) => Some(text.clone()),
        None => None,
    }
}

/// Reads the `meta` elements of a page. Fails exactly when the selector
/// does not parse.
pub fn page_metas(page: &str) -> (metas: Result<Vec<MetaTag>, SyntaxError>)
    ensures
        metas is Ok <==> selector_parses("meta"@),
        metas matches Ok(tags) ==> metas_of(tags@) == metas_in(page@),
{
    let properties = match attr_values(page, "meta", "property") {
        Ok(values) => values,
        Err(e) => return Err(e),
    };
    let contents = match attr_values(page, "meta", "content") {
        Ok(values) => values,
        Err(e) => return Err(e),
    };
    let count = if properties.len() <= contents.len() {
        properties.len()
    } else {
        contents.len()
    };
    let mut tags: Vec<MetaTag> = Vec::new();
    let mut i: usize = 0;
    while i < count
        invariant
            i <= count,
            count <= properties@.len(),
            count <= contents@.len(),
            tags@.len() == i,
            forall|k: int|
                0 <= k < i ==> (#[trigger] tags@[k])@ == (MetaModel {
                    property: text_of(properties@[k]),
                    content: text_of(contents@[k]),
                }),
        decreases count - i,
    {
        tags.push(MetaTag::new(copy_text(&properties[i]), copy_text(&contents[i])));
        i = i + 1;
    }
    assert(metas_of(tags@) =~= metas_in(page@));
    Ok(tags)
}

/// The text that heads a page: the first piece of text in the first
/// `td.underboxA`.
pub open spec fn heading_in(page: Seq<char>) -> Option<Seq<char>> {
    let texts = html_first_text(page, "td.underboxA"@);
    if texts.len() == 0 {
        None
    } else {
        texts[0]
    }
}

/// Reads the text that heads a page. Fails exactly when the selector does
/// not parse.
pub fn page_heading(page: &str) -> (heading: Result<Option<String>, SyntaxError>)
    ensures
        heading is Ok <==> selector_parses("td.underboxA"@),
        heading matches Ok(text) ==> text_of(text) == heading_in(page@),
{
    let texts = match first_texts(page, "td.underboxA") {
        Ok(texts) => texts,
        Err(e) => return Err(e),
    };
    if texts.len() == 0 {
        Ok(None)
    } else {
        Ok(copy_text(&texts[0]))
    }
}

/// Reads the title of a hack from its page. Fails exactly when one of the
/// two selectors does not parse.
pub fn page_title(page: &str) -> (title: Result<Option<String>, SyntaxError>)
    ensures
        title is Ok <==> selector_parses("meta"@) && selector_parses("td.underboxA"@),
        title matches Ok(text) ==> text_of(text) == title_of(metas_in(page@), heading_in(page@)),
{
    let metas = match page_metas(page) {
        Ok(metas) => metas,
        Err(e) => return Err(e),
    };
    let heading = match page_heading(page) {
        Ok(heading) => heading,
        Err(e) => return Err(e),
    };
    let text = match &heading {
        Some(text) => Some(text.as_str()),
        None => None,
    };
    Ok(pick_title(&metas, text))
}

/// The models of a run of downloads.
pub open spec fn downloads_of(downloads: Seq<Download>) -> Seq<DownloadModel> {
    Seq::new(downloads.len(), |i: int| downloads[i]@)
}

/// The downloads that a run of contents announces, in order; a content that
/// announces none is passed over.
pub open spec fn announced(contents: Seq<Seq<char>>, dir: Seq<char>) -> Seq<DownloadModel>
    decreases contents.len(),
{
    if contents.len() == 0 {
        Seq::empty()
    } else {
        match download_of(contents.last(), dir) {
            Some(download) => announced(contents.drop_last(), dir).push(download),
            None => announced(contents.drop_last(), dir),
        }
    }
}

/// Reads the downloads that a redirect page announces in the contents of
/// its `meta` elements. Fails exactly when the selector does not parse.
pub fn announced_downloads(page: &str, dir: &str) -> (downloads: Result<
    Vec<Download>,
    SyntaxError,
>)
    ensures
        downloads is Ok <==> selector_parses("meta"@),
        downloads matches Ok(found) ==> downloads_of(found@) == announced(
            present(html_attr(page@, "meta"@, "content"@)),
            dir@,
        ),
{
    let values = match attr_values(page, "meta", "content") {
        Ok(values) => values,
        Err(e) => return Err(e),
    };
    let contents = present_texts(&values);
    let ghost all = strings_of(contents@);
    let mut found: Vec<Download> = Vec::new();
    let mut i: usize = 0;
    assert(all.take(0) =~= Seq::<Seq<char>>::empty());
    while i < contents.len()
        invariant
            i <= contents@.len(),
            all == strings_of(contents@),
            downloads_of(found@) == announced(all.take(i as int), dir@),
        decreases contents@.len() - i,
    {
        proof {
            assert(all.take(i + 1).drop_last() =~= all.take(i as int));
            assert(all.take(i + 1).last() == contents@[i as int]@);
        }
        match download_for(contents[i].as_str(), dir) {
            Some(download) => {
                let ghost before = downloads_of(found@);
                found.push(download);
                assert(downloads_of(found@) =~= before.push(download@));
            },
            None => {},
        }
        i = i + 1;
    }
    assert(all.take(contents@.len() as int) =~= all);
    Ok(found)
}

} // verus!
