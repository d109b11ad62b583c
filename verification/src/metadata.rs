//! The record of one hack, read from the parts of its page, and the line
//! that it makes in the table of all hacks.

use vstd::prelude::*;
use vstd::string::*;
use crate::pattern::{captured, present, regex_captures, regex_compiles, strings_of, SyntaxError};
use crate::html::{html_inner, inner_markup, selector_parses};
use crate::site::{
    heading_in, metas_in, metas_of, page_heading, page_metas, pick_title, title_of, MetaModel,
    MetaTag,
};
use crate::text::{equal_ignoring_case, lowered, text_of, trim, trimmed};

verus! {

/// The names under which one author publishes.
#[derive(Debug)]
pub struct Aliases {
    names: Vec<String>,
}

impl View for Aliases {
    type V = Seq<Seq<char>>;

    closed spec fn view(&self) -> Seq<Seq<char>> {
        strings_of(self.names@)
    }
}

impl Aliases {
    /// The given names.
    pub fn new(names: Vec<String>) -> (aliases: Aliases)
        ensures
            aliases@ == strings_of(names@),
    {
        Aliases { names }
    }

    /// Whether `author` is one of the names, whatever the case of its ASCII
    /// letters.
    pub open spec fn includes(&self, author: Seq<char>) -> bool {
        exists|i: int| 0 <= i < self@.len() && lowered(#[trigger] self@[i]) == lowered(author)
    }

    /// Tells whether `author` is one of the names.
    pub fn holds(&self, author: &str) -> (found: bool)
        ensures
            found == self.includes(author@),
    {
        let mut i: usize = 0;
        while i < self.names.len()
            invariant
                i <= self.names@.len(),
                self@ == strings_of(self.names@),
                forall|k: int| 0 <= k < i ==> lowered(#[trigger] self@[k]) != lowered(author@),
            decreases self.names@.len() - i,
        {
            if equal_ignoring_case(self.names[i].as_str(), author) {
                assert(lowered(self@[i as int]) == lowered(author@));
                return true;
            }
            i = i + 1;
        }
        false
    }
}

/// The pattern of the release date in the details of a page.
pub open spec fn date_pattern() -> Seq<char> {
    "<b>Release date:</b>(.*)"@
}

/// The pattern of the author in the details of a page.
pub open spec fn author_pattern() -> Seq<char> {
    "<b>Author:</b> <a href=\".*\">(.*)</a>"@
}

/// The pattern of the genre in the details of a page.
pub open spec fn genre_pattern() -> Seq<char> {
    "<b>Genre:</b> (.*) <"@
}

/// The pattern of the difficulty in the details of a page.
pub open spec fn difficulty_pattern() -> Seq<char> {
    "<b>Difficulty:</b> (.*) <"@
}

/// The pattern of the average rating in the rating of a page.
pub open spec fn rating_pattern() -> Seq<char> {
    "Average Rating: ([0-9]+.[0-9]+) chozo orbs"@
}

/// What the group of `pattern` captured last in a run of blocks, read block
/// by block and match by match, without the white space around it; empty
/// where it captured nothing.
pub open spec fn last_capture(pattern: Seq<char>, blocks: Seq<Seq<char>>) -> Seq<char>
    decreases blocks.len(),
{
    if blocks.len() == 0 {
        Seq::empty()
    } else {
        let found = present(regex_captures(pattern, 1, blocks.last()));
        if found.len() > 0 {
            trimmed(found.last())
        } else {
            last_capture(pattern, blocks.drop_last())
        }
    }
}

/// Finds what the group of `pattern` captured last in a run of blocks.
/// Fails exactly when there is a block to read and the pattern does not
/// compile.
pub fn last_capture_in(pattern: &str, blocks: &Vec<String>) -> (found: Result<String, SyntaxError>)
    ensures
        found is Err <==> blocks@.len() > 0 && !regex_compiles(pattern@),
        found matches Ok(text) ==> text@ == last_capture(pattern@, strings_of(blocks@)),
{
    let ghost all = strings_of(blocks@);
    let mut i: usize = blocks.len();
    assert(all.take(blocks@.len() as int) =~= all);
    while i > 0
        invariant
            i <= blocks@.len(),
            all == strings_of(blocks@),
            last_capture(pattern@, all) == last_capture(pattern@, all.take(i as int)),
            i < blocks@.len() ==> regex_compiles(pattern@),
        decreases i,
    {
        proof {
            assert(all.take(i as int).drop_last() =~= all.take(i - 1));
            assert(all.take(i as int).last() == blocks@[i - 1]@);
        }
        i = i - 1;
        let texts = match captured(pattern, 1, blocks[i].as_str()) {
            Ok(texts) => texts,
            Err(e) => return Err(e),
        };
        if texts.len() > 0 {
            let last = &texts[texts.len() - 1];
            assert(strings_of(texts@).last() == last@);
            return Ok(trim(last.as_str()));
        }
    }
    assert(all.take(0) =~= Seq::<Seq<char>>::empty());
    Ok(String::new())
}

/// The last of a run of texts; empty where there is none.
pub open spec fn last_or_empty(items: Seq<Seq<char>>) -> Seq<char> {
    if items.len() == 0 {
        Seq::empty()
    } else {
        items.last()
    }
}

fn last_text(items: &Vec<String>) -> (text: String)
    ensures
        text@ == last_or_empty(strings_of(items@)),
{
    if items.len() == 0 {
        String::new()
    } else {
        items[items.len() - 1].clone()
    }
}

/// What the page of a hack holds, as far as its record is read from it.
#[derive(Debug)]
pub struct PageParts {
    /// The `meta` elements of the page.
    pub metas: Vec<MetaTag>,
    /// The text that heads the page, where there is one.
    pub heading: Option<String>,
    /// The blocks of details, each as markup.
    pub details: Vec<String>,
    /// What stands in the places for the average runtime.
    pub runtimes: Vec<String>,
    /// What stands in the places for the average completion.
    pub completions: Vec<String>,
    /// The blocks that may hold the rating, each as markup.
    pub ratings: Vec<String>,
}

/// The parts of a page as text.
pub struct PageModel {
    pub metas: Seq<MetaModel>,
    pub heading: Option<Seq<char>>,
    pub details: Seq<Seq<char>>,
    pub runtimes: Seq<Seq<char>>,
    pub completions: Seq<Seq<char>>,
    pub ratings: Seq<Seq<char>>,
}

impl View for PageParts {
    type V = PageModel;

    open spec fn view(&self) -> PageModel {
        PageModel {
            metas: metas_of(self.metas@),
            heading: text_of(self.heading),
            details: strings_of(self.details@),
            runtimes: strings_of(self.runtimes@),
            completions: strings_of(self.completions@),
            ratings: strings_of(self.ratings@),
        }
    }
}

/// The record of one hack.
#[derive(Debug)]
pub struct Record {
    /// The title; empty where the page gave none.
    pub title: String,
    /// The release date.
    pub date: String,
    /// The author.
    pub author: String,
    /// The genre.
    pub genre: String,
    /// The difficulty.
    pub difficulty: String,
    /// The average runtime.
    pub runtime: String,
    /// The average completion.
    pub collection: String,
    /// The average rating.
    pub rating: String,
}

/// A record as text.
pub struct RecordModel {
    pub title: Seq<char>,
    pub date: Seq<char>,
    pub author: Seq<char>,
    pub genre: Seq<char>,
    pub difficulty: Seq<char>,
    pub runtime: Seq<char>,
    pub collection: Seq<char>,
    pub rating: Seq<char>,
}

impl View for Record {
    type V = RecordModel;

    open spec fn view(&self) -> RecordModel {
        RecordModel {
            title: self.title@,
            date: self.date@,
            author: self.author@,
            genre: self.genre@,
            difficulty: self.difficulty@,
            runtime: self.runtime@,
            collection: self.collection@,
            rating: self.rating@,
        }
    }
}

/// Whether the four patterns for the details compile.
pub open spec fn detail_patterns_compile() -> bool {
    &&& regex_compiles(date_pattern())
    &&& regex_compiles(author_pattern())
    &&& regex_compiles(genre_pattern())
    &&& regex_compiles(difficulty_pattern())
}

/// The record that the parts of a page give: each field is the last that
/// the page holds of its kind, and empty where the page holds none.
pub open spec fn record_of(page: PageModel) -> RecordModel {
    RecordModel {
        title: match title_of(page.metas, page.heading) {
            Some(title) => title,
            None => Seq::empty(),
        },
        date: last_capture(date_pattern(), page.details),
        author: last_capture(author_pattern(), page.details),
        genre: last_capture(genre_pattern(), page.details),
        difficulty: last_capture(difficulty_pattern(), page.details),
        runtime: last_or_empty(page.runtimes),
        collection: last_or_empty(page.completions),
        rating: last_capture(rating_pattern(), page.ratings),
    }
}

/// Reads the record of a hack from the parts of its page.
///
/// Fails only for a pattern that does not compile: one of the four for the
/// details where the page has details, or the one for the rating where the
/// page has a block for it.
pub fn read_record(page: &PageParts) -> (record: Result<Record, SyntaxError>)
    ensures
        record is Err <==> pattern_fails(page@),
        record matches Ok(r) ==> r@ == record_of(page@),
{
    let heading = match &page.heading {
        Some(text) => Some(text.as_str()),
        None => None,
    };
    let title = match pick_title(&page.metas, heading) {
        Some(title) => title,
        None => String::new(),
    };
    let date = match last_capture_in("<b>Release date:</b>(.*)", &page.details) {
        Ok(text) => text,
        Err(e) => return Err(e),
    };
    let author = match last_capture_in("<b>Author:</b> <a href=\".*\">(.*)</a>", &page.details) {
        Ok(text) => text,
        Err(e) => return Err(e),
    };
    let genre = match last_capture_in("<b>Genre:</b> (.*) <", &page.details) {
        Ok(text) => text,
        Err(e) => return Err(e),
    };
    let difficulty = match last_capture_in("<b>Difficulty:</b> (.*) <", &page.details) {
        Ok(text) => text,
        Err(e) => return Err(e),
    };
    let runtime = last_text(&page.runtimes);
    let collection = last_text(&page.completions);
    let rating = match last_capture_in(
        "Average Rating: ([0-9]+.[0-9]+) chozo orbs",
        &page.ratings,
    ) {
        Ok(text) => text,
        Err(e) => return Err(e),
    };
    Ok(Record { title, date, author, genre, difficulty, runtime, collection, rating })
}

/// The first line of the table.
pub open spec fn table_header() -> Seq<char> {
    "title,date,author,genre,difficulty,avg runtime,avg collection,avg rating,by pedro"@
}

/// The first line of the table, which names its columns.
pub fn csv_header() -> (line: &'static str)
    ensures
        line@ == table_header(),
{
    "title,date,author,genre,difficulty,avg runtime,avg collection,avg rating,by pedro"
}

/// The line of a record in the table: title, date and author in double
/// quotes, the other fields bare, and `Y` or `N` for whether the author is
/// the one whose names are given.
pub open spec fn table_row(record: RecordModel, by_author: bool) -> Seq<char> {
    "\""@ + record.title + "\",\""@ + record.date + "\",\""@ + record.author + "\","@
        + record.genre + ","@ + record.difficulty + ","@ + record.runtime + ","@
        + record.collection + ","@ + record.rating + ","@ + (if by_author {
        "Y"@
    } else {
        "N"@
    })
}

/// Writes the line of a record in the table.
pub fn csv_row(record: &Record, aliases: &Aliases) -> (line: String)
    ensures
        line@ == table_row(record@, aliases.includes(record@.author)),
{
    let mut line = String::from_str("\"");
    line.append(record.title.as_str());
    line.append("\",\"");
    line.append(record.date.as_str());
    line.append("\",\"");
    line.append(record.author.as_str());
    line.append("\",");
    line.append(record.genre.as_str());
    line.append(",");
    line.append(record.difficulty.as_str());
    line.append(",");
    line.append(record.runtime.as_str());
    line.append(",");
    line.append(record.collection.as_str());
    line.append(",");
    line.append(record.rating.as_str());
    line.append(",");
    if aliases.holds(record.author.as_str()) {
        line.append("Y");
    } else {
        line.append("N");
    }
    line
}

/// Whether the six selectors that pick the parts of a page parse.
pub open spec fn page_selectors_parse() -> bool {
    &&& selector_parses("meta"@)
    &&& selector_parses("td.underboxA"@)
    &&& selector_parses(".underboxD"@)
    &&& selector_parses("#average_runtime"@)
    &&& selector_parses("#average_completion"@)
    &&& selector_parses("span[title]"@)
}

/// The parts of the page of a hack.
pub open spec fn page_of(html: Seq<char>) -> PageModel {
    PageModel {
        metas: metas_in(html),
        heading: heading_in(html),
        details: html_inner(html, ".underboxD"@),
        runtimes: html_inner(html, "#average_runtime"@),
        completions: html_inner(html, "#average_completion"@),
        ratings: html_inner(html, "span[title]"@),
    }
}

/// Takes the page of a hack apart. Fails exactly when one of the selectors
/// does not parse.
pub fn page_parts(html: &str) -> (parts: Result<PageParts, SyntaxError>)
    ensures
        parts is Ok <==> page_selectors_parse(),
        parts matches Ok(page) ==> page@ == page_of(html@),
{
    let metas = match page_metas(html) {
        Ok(metas) => metas,
        Err(e) => return Err(e),
    };
    let heading = match page_heading(html) {
        Ok(heading) => heading,
        Err(e) => return Err(e),
    };
    let details = match inner_markup(html, ".underboxD") {
        Ok(blocks) => blocks,
        Err(e) => return Err(e),
    };
    let runtimes = match inner_markup(html, "#average_runtime") {
        Ok(blocks) => blocks,
        Err(e) => return Err(e),
    };
    let completions = match inner_markup(html, "#average_completion") {
        Ok(blocks) => blocks,
        Err(e) => return Err(e),
    };
    let ratings = match inner_markup(html, "span[title]") {
        Ok(blocks) => blocks,
        Err(e) => return Err(e),
    };
    Ok(PageParts { metas, heading, details, runtimes, completions, ratings })
}

/// Whether reading the record of a page fails on a pattern: one of the four
/// for the details where the page has details, or the one for the rating
/// where the page has a block for it.
pub open spec fn pattern_fails(page: PageModel) -> bool {
    ||| page.details.len() > 0 && !detail_patterns_compile()
    ||| page.ratings.len() > 0 && !regex_compiles(rating_pattern())
}

/// Reads the record of a hack from its page. Fails only for a selector that
/// does not parse or a pattern that does not compile.
pub fn page_record(html: &str) -> (record: Result<Record, SyntaxError>)
    ensures
        record is Err <==> !page_selectors_parse() || pattern_fails(page_of(html@)),
        record matches Ok(r) ==> r@ == record_of(page_of(html@)),
{
    match page_parts(html) {
        Ok(page) => read_record(&page),
        Err(e) => Err(e),
    }
}

} // verus!
