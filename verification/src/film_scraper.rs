//! From a film's title to its metadata: the address of the film's page, the
//! judgement of what a request for that page came back with, and the five
//! fields that are read out of the page.

use vstd::prelude::*;
use vstd::string::StringExecFns;
use scraper::Html;
use scraper::Selector;
use crate::document::ElementView;
use crate::document::attrs_of;
use crate::document::parse_document;
use crate::document::parse_selector;
use crate::document::parsed_document;
use crate::document::parsed_selector;
use crate::document::select_attrs;
use crate::document::select_texts;
use crate::document::selected;
use crate::document::texts_of;
use crate::film_error::FilmError;
use crate::film_error::FilmErrorView;
use crate::rating::Rating;
use crate::rating::is_float_literal;
use crate::text::ascii_lowercase;
use crate::text::contains;
use crate::text::contains_text;
use crate::text::first_token;
use crate::text::first_word;
use crate::text::is_ascii_capital;
use crate::text::is_ascii_text;
use crate::text::lowercase_of;
use crate::utils::is_url;
use crate::utils::is_url_text;

verus! {

/// A title with its colons removed and each of its spaces replaced by a
/// hyphen. Every other character stays as it is.
pub open spec fn hyphenated(title: Seq<char>) -> Seq<char> {
    title.filter(|c: char| c != ':').map_values(
        |c: char|
            if c == ' ' {
                '-'
            } else {
                c
            },
    )
}

/// The path segment that stands for a title in the address of its page: the
/// title in lowercase, without colons, with hyphens for spaces.
pub open spec fn slug(title: Seq<char>) -> Seq<char> {
    hyphenated(lowercase_of(title))
}

/// The address of the page of the film with the given title.
pub open spec fn film_url(title: Seq<char>) -> Seq<char> {
    "https://letterboxd.com/film/"@ + slug(title)
}

/// The address to request for what a user gave, a title or an address: what
/// was given where it is an address, else the address built from the title.
pub open spec fn page_url(film_param: Seq<char>) -> Seq<char> {
    if is_url_text(film_param) {
        film_param
    } else {
        film_url(film_param)
    }
}

/// What one more character adds to a hyphenated text: nothing for a colon,
/// a hyphen for a space, else the character itself.
pub proof fn lemma_hyphenated_push(text: Seq<char>, c: char)
    ensures
        hyphenated(text.push(c)) == if c == ':' {
            hyphenated(text)
        } else if c == ' ' {
            hyphenated(text).push('-')
        } else {
            hyphenated(text).push(c)
        },
{
    let keep = |c: char| c != ':';
    let longer = text.push(c);
    assert(longer.drop_last() =~= text);
    assert(longer.last() == c);
    reveal(Seq::filter);
    assert(longer.filter(keep) =~= if c != ':' {
        text.filter(keep).push(c)
    } else {
        text.filter(keep)
    });
    assert(hyphenated(longer) =~= if c == ':' {
        hyphenated(text)
    } else if c == ' ' {
        hyphenated(text).push('-')
    } else {
        hyphenated(text).push(c)
    });
}

/// A hyphenated text holds no colon and no space, and each of its characters
/// is a hyphen or a character of the text that it was made from.
pub proof fn lemma_hyphenated_chars(text: Seq<char>)
    ensures
        forall|i: int|
            0 <= i < hyphenated(text).len() ==> {
                let c = #[trigger] hyphenated(text)[i];
                c != ':' && c != ' ' && (c == '-' || text.contains(c))
            },
    decreases text.len(),
{
    if text.len() == 0 {
        reveal(Seq::filter);
        assert(hyphenated(text) =~= Seq::<char>::empty());
    } else {
        let shorter = text.drop_last();
        lemma_hyphenated_chars(shorter);
        lemma_hyphenated_push(shorter, text.last());
        assert(shorter.push(text.last()) =~= text);
        assert forall|i: int| 0 <= i < hyphenated(text).len() implies {
            let c = #[trigger] hyphenated(text)[i];
            c != ':' && c != ' ' && (c == '-' || text.contains(c))
        } by {
            let c = hyphenated(text)[i];
            if i < hyphenated(shorter).len() {
                assert(c == hyphenated(shorter)[i]);
                if c != '-' {
                    let j = choose|j: int| 0 <= j < shorter.len() && shorter[j] == c;
                    assert(text[j] == c);
                }
            } else {
                assert(c == '-' || c == text[text.len() - 1]);
            }
        }
    }
}

/// The address that is built from a title is itself taken for an address:
/// asked for it, the library requests that very address.
pub proof fn lemma_film_url_is_url(title: Seq<char>)
    ensures
        is_url_text(film_url(title)),
        page_url(film_url(title)) == film_url(title),
{
    reveal_strlit("https://");
    reveal_strlit("https://letterboxd.com/film/");
    assert("https://"@ =~= film_url(title).subrange(0, "https://"@.len() as int));
}

/// Removes the colons of `text` and puts a hyphen for each space.
pub fn hyphenate(text: &str) -> (out: String)
    ensures
        out@ == hyphenated(text@),
{
    let mut out = String::new();
    assert(hyphenated(text@.take(0)) =~= Seq::<char>::empty()) by {
        reveal(Seq::filter);
    }
    for c in it: text.chars()
        invariant
            it.seq() == text@,
            out@ == hyphenated(text@.take(it.index())),
    {
        proof {
            lemma_hyphenated_push(text@.take(it.index()), c);
            assert(text@.take(it.index()).push(c) =~= text@.take(it.index() + 1));
        }
        if c == ' ' {
            out.push('-');
        } else if c != ':' {
            out.push(c);
        }
    }
    assert(text@.take(text@.len() as int) == text@);
    out
}

/// The slug of a title: the title in lowercase, without colons, with a
/// hyphen for each space. It holds no colon, no space and none of the
/// capitals `A` to `Z`. Of a title that is all ASCII, the lowercase is the
/// title with each capital replaced by its small letter.
pub fn film_slug(film_name: &str) -> (path: String)
    ensures
        path@ == slug(film_name@),
        is_ascii_text(film_name@) ==> path@ == hyphenated(ascii_lowercase(film_name@)),
        forall|i: int|
            0 <= i < path@.len() ==> {
                let c = #[trigger] path@[i];
                c != ':' && c != ' ' && !is_ascii_capital(c)
            },
{
    let lower = film_name.to_lowercase();
    let path = hyphenate(lower.as_str());
    proof {
        lemma_hyphenated_chars(lower@);
        assert forall|i: int| 0 <= i < path@.len() implies !is_ascii_capital(
            #[trigger] path@[i],
        ) by {
            let c = path@[i];
            if c != '-' {
                let j = choose|j: int| 0 <= j < lower@.len() && lower@[j] == c;
                assert(!is_ascii_capital(lower@[j]));
            }
        }
    }
    path
}

/// The address of the page of the film with the given title:
/// `https://letterboxd.com/film/` and then the title's slug.
pub fn build_film_url(film_name: &str) -> (url: String)
    ensures
        url@ == film_url(film_name@),
        is_ascii_text(film_name@) ==> url@ == "https://letterboxd.com/film/"@ + hyphenated(
            ascii_lowercase(film_name@),
        ),
        is_url_text(url@),
{
    proof {
        lemma_film_url_is_url(film_name@);
    }
    let path = film_slug(film_name);
    String::from_str("https://letterboxd.com/film/").concat(path.as_str())
}

/// The address to request for `film_param`: `film_param` itself where it is
/// an address, else the address of the page of the film with that title.
/// Either way it begins with `https://`.
pub fn film_page_url(film_param: &str) -> (url: String)
    ensures
        url@ == page_url(film_param@),
        !is_url_text(film_param@) && is_ascii_text(film_param@) ==> url@
            == "https://letterboxd.com/film/"@ + hyphenated(ascii_lowercase(film_param@)),
        is_url_text(url@),
{
    if is_url(film_param) {
        String::from_str(film_param)
    } else {
        build_film_url(film_param)
    }
}

/// The metadata of one film, all of it read from one page.
#[derive(Debug, PartialEq, Eq)]
pub struct FilmMetaData {
    /// The average rating, as the text that the page gives.
    pub rating: Rating,
    /// The director who is named first.
    pub director: String,
    /// The year of release.
    pub release_year: String,
    /// The synopsis.
    pub synopsis: String,
    /// The genres, in the order of the page.
    pub genres: Vec<String>,
}

/// A `FilmMetaData` with its texts as sequences of characters.
pub struct FilmMetaDataView {
    pub rating: Seq<char>,
    pub director: Seq<char>,
    pub release_year: Seq<char>,
    pub synopsis: Seq<char>,
    pub genres: Seq<Seq<char>>,
}

impl View for FilmMetaData {
    type V = FilmMetaDataView;

    open spec fn view(&self) -> FilmMetaDataView {
        FilmMetaDataView {
            rating: self.rating@,
            director: self.director@,
            release_year: self.release_year@,
            synopsis: self.synopsis@,
            genres: self.genres.deep_view(),
        }
    }
}

impl DeepView for FilmMetaData {
    type V = FilmMetaDataView;

    open spec fn deep_view(&self) -> FilmMetaDataView {
        self@
    }
}

/// What came out of a step: the value as plain texts, or the error.
pub open spec fn outcome<T: DeepView>(result: Result<T, FilmError>) -> Result<T::V, FilmErrorView> {
    match result {
        Ok(value) => Ok(value.deep_view()),
        Err(error) => Err(error@),
    }
}

/// The first of the texts; `SelectorError` where there is none.
pub open spec fn single_info(texts: Seq<Seq<char>>) -> Result<Seq<char>, FilmErrorView> {
    if texts.len() == 0 {
        Err(FilmErrorView::SelectorError)
    } else {
        Ok(texts[0])
    }
}

/// The rating that the value of an attribute gives: its first word, where
/// that is the text of a floating-point value. `ParseError` where the value
/// holds no word or its first word is no such text.
pub open spec fn rating_in(content: Seq<char>) -> Result<Seq<char>, FilmErrorView> {
    match first_token(content) {
        Some(token) if is_float_literal(token) => Ok(token),
        _ => Err(FilmErrorView::ParseError),
    }
}

/// The rating that the first of the elements gives, where `contents` holds
/// for each element the value of the attribute to read, or `None` where the
/// element has no such attribute. `SelectorError` where there is no element,
/// `AttributeError` where the first has no such attribute, else the rating in
/// the value.
pub open spec fn film_rating(contents: Seq<Option<Seq<char>>>) -> Result<
    Seq<char>,
    FilmErrorView,
> {
    if contents.len() == 0 {
        Err(FilmErrorView::SelectorError)
    } else {
        match contents[0] {
            None => Err(FilmErrorView::AttributeError),
            Some(content) => rating_in(content),
        }
    }
}

/// The record of the five fields, where each of them was read; else the
/// error of the first that failed, in the order year, director, synopsis,
/// rating, genres.
pub open spec fn aggregate(
    release_year: Result<Seq<char>, FilmErrorView>,
    director: Result<Seq<char>, FilmErrorView>,
    synopsis: Result<Seq<char>, FilmErrorView>,
    rating: Result<Seq<char>, FilmErrorView>,
    genres: Result<Seq<Seq<char>>, FilmErrorView>,
) -> Result<FilmMetaDataView, FilmErrorView> {
    match (release_year, director, synopsis, rating, genres) {
        (Err(error), _, _, _, _) => Err(error),
        (_, Err(error), _, _, _) => Err(error),
        (_, _, Err(error), _, _) => Err(error),
        (_, _, _, Err(error), _) => Err(error),
        (_, _, _, _, Err(error)) => Err(error),
        (Ok(release_year), Ok(director), Ok(synopsis), Ok(rating), Ok(genres)) => Ok(
            FilmMetaDataView { rating, director, release_year, synopsis, genres },
        ),
    }
}

/// The error of a step that failed.
pub open spec fn error_of<T>(result: Result<T, FilmErrorView>) -> Option<FilmErrorView> {
    match result {
        Ok(_) => None,
        Err(error) => Some(error),
    }
}

/// The first field that fails decides: where a field fails and those before
/// it were read, the result is its error, whatever the later fields give.
/// There is a record exactly where all five fields were read.
pub proof fn lemma_first_failure_decides(
    release_year: Result<Seq<char>, FilmErrorView>,
    director: Result<Seq<char>, FilmErrorView>,
    synopsis: Result<Seq<char>, FilmErrorView>,
    rating: Result<Seq<char>, FilmErrorView>,
    genres: Result<Seq<Seq<char>>, FilmErrorView>,
)
    ensures
        ({
            let datas = aggregate(release_year, director, synopsis, rating, genres);
            let three = release_year is Ok && director is Ok && synopsis is Ok;
            &&& release_year is Err ==> error_of(datas) == error_of(release_year)
            &&& release_year is Ok && director is Err ==> error_of(datas) == error_of(director)
            &&& release_year is Ok && director is Ok && synopsis is Err ==> error_of(datas)
                == error_of(synopsis)
            &&& three && rating is Err ==> error_of(datas) == error_of(rating)
            &&& three && rating is Ok && genres is Err ==> error_of(datas) == error_of(genres)
            &&& datas is Ok <==> three && rating is Ok && genres is Ok
        }),
{
}

/// The elements of `document` that the selector written as `pattern`
/// matches, in document order; `None` where `pattern` is no selector.
pub open spec fn selection(document: Html, pattern: Seq<char>) -> Option<Seq<ElementView>> {
    match parsed_selector(pattern) {
        Some(selector) => Some(selected(document, selector)),
        None => None,
    }
}

/// The year of release that `document` gives.
pub open spec fn release_year_of(document: Html) -> Result<Seq<char>, FilmErrorView> {
    match selection(document, "div.releaseyear a"@) {
        Some(elements) => single_info(texts_of(elements)),
        None => Err(FilmErrorView::SelectorError),
    }
}

/// The director that `document` names first.
pub open spec fn director_of(document: Html) -> Result<Seq<char>, FilmErrorView> {
    match selection(document, "span.directorlist a span.prettify"@) {
        Some(elements) => single_info(texts_of(elements)),
        None => Err(FilmErrorView::SelectorError),
    }
}

/// The synopsis that `document` gives.
pub open spec fn synopsis_of(document: Html) -> Result<Seq<char>, FilmErrorView> {
    match selection(document, "div.truncate p"@) {
        Some(elements) => single_info(texts_of(elements)),
        None => Err(FilmErrorView::SelectorError),
    }
}

/// The rating that `document` gives.
pub open spec fn rating_of(document: Html) -> Result<Seq<char>, FilmErrorView> {
    match selection(document, "meta[name=\"twitter:data2\"]"@) {
        Some(elements) => film_rating(attrs_of(elements, "content"@)),
        None => Err(FilmErrorView::SelectorError),
    }
}

/// The genres that `document` lists, in its order.
pub open spec fn genres_of(document: Html) -> Result<Seq<Seq<char>>, FilmErrorView> {
    match selection(document, "div.text-sluglist.capitalize a.text-slug"@) {
        Some(elements) => Ok(texts_of(elements)),
        None => Err(FilmErrorView::SelectorError),
    }
}

/// The metadata that `document` gives.
pub open spec fn datas_from_doc(document: Html) -> Result<FilmMetaDataView, FilmErrorView> {
    aggregate(
        release_year_of(document),
        director_of(document),
        synopsis_of(document),
        rating_of(document),
        genres_of(document),
    )
}

/// The first of `texts`, the texts of the elements that a selector matched;
/// `SelectorError` where it matched none.
pub fn first_info(texts: Vec<String>) -> (info: Result<String, FilmError>)
    ensures
        outcome(info) == single_info(texts.deep_view()),
{
    let mut texts = texts;
    if texts.len() == 0 {
        return Err(FilmError::SelectorError);
    }
    assert(texts.deep_view()[0] == texts@[0]@);
    Ok(texts.swap_remove(0))
}

/// The rating in the value of an attribute: its first word, parsed.
/// `ParseError` where the value holds no word or its first word is not the
/// text of a floating-point value.
pub fn parse_rating(content: &str) -> (rating: Result<Rating, FilmError>)
    ensures
        outcome(rating) == rating_in(content@),
{
    let token = match first_word(content) {
        Some(token) => token,
        None => {
            return Err(FilmError::ParseError);
        },
    };
    match Rating::parse(token) {
        Some(rating) => Ok(rating),
        None => Err(FilmError::ParseError),
    }
}

/// The rating that the first of the matched elements gives, where
/// `contents` holds for each of them the value of its attribute `content`.
/// `SelectorError` where none matched, `AttributeError` where the first has
/// no such attribute, `ParseError` where the first word of the value is not
/// the text of a floating-point value.
pub fn first_rating(contents: Vec<Option<String>>) -> (rating: Result<Rating, FilmError>)
    ensures
        outcome(rating) == film_rating(contents.deep_view()),
{
    let mut contents = contents;
    if contents.len() == 0 {
        return Err(FilmError::SelectorError);
    }
    assert(contents.deep_view()[0] == contents@[0].deep_view());
    match contents.swap_remove(0) {
        Some(content) => parse_rating(content.as_str()),
        None => Err(FilmError::AttributeError),
    }
}

/// Reads a rating from the first element of `document` that `selector`
/// matches: parses the first word of its attribute `content`.
pub fn get_film_rating(document: &Html, selector: &Selector) -> (rating: Result<Rating, FilmError>)
    ensures
        outcome(rating) == film_rating(attrs_of(selected(*document, *selector), "content"@)),
{
    first_rating(select_attrs(document, selector, "content"))
}

/// Reads the text of the first element of `document` that `selector` matches.
pub fn get_film_single_info(document: &Html, selector: &Selector) -> (info: Result<
    String,
    FilmError,
>)
    ensures
        outcome(info) == single_info(texts_of(selected(*document, *selector))),
{
    first_info(select_texts(document, selector))
}

/// Reads the text of every element of `document` that `selector` matches, in
/// document order. That nothing matches is no error: the list is then empty.
pub fn get_film_multiples_infos(document: &Html, selector: &Selector) -> (infos: Result<
    Vec<String>,
    FilmError,
>)
    ensures
        outcome(infos) == Ok::<Seq<Seq<char>>, FilmErrorView>(
            texts_of(selected(*document, *selector)),
        ),
{
    Ok(select_texts(document, selector))
}

/// Reads the year of release: the text of the first element that
/// `div.releaseyear a` matches.
pub fn extract_release_year(document: &Html) -> (year: Result<String, FilmError>)
    ensures
        outcome(year) == release_year_of(*document),
{
    match parse_selector("div.releaseyear a") {
        Some(selector) => get_film_single_info(document, &selector),
        None => Err(FilmError::SelectorError),
    }
}

/// Reads the director: the text of the first element that
/// `span.directorlist a span.prettify` matches.
pub fn extract_director(document: &Html) -> (director: Result<String, FilmError>)
    ensures
        outcome(director) == director_of(*document),
{
    match parse_selector("span.directorlist a span.prettify") {
        Some(selector) => get_film_single_info(document, &selector),
        None => Err(FilmError::SelectorError),
    }
}

/// Reads the synopsis: the text of the first element that `div.truncate p`
/// matches.
pub fn extract_synopsis(document: &Html) -> (synopsis: Result<String, FilmError>)
    ensures
        outcome(synopsis) == synopsis_of(*document),
{
    match parse_selector("div.truncate p") {
        Some(selector) => get_film_single_info(document, &selector),
        None => Err(FilmError::SelectorError),
    }
}

/// Reads the rating: the first word of the attribute `content` of the first
/// element that `meta[name="twitter:data2"]` matches.
pub fn extract_rating(document: &Html) -> (rating: Result<Rating, FilmError>)
    ensures
        outcome(rating) == rating_of(*document),
{
    match parse_selector("meta[name=\"twitter:data2\"]") {
        Some(selector) => get_film_rating(document, &selector),
        None => Err(FilmError::SelectorError),
    }
}

/// Reads the genres: the text of every element that
/// `div.text-sluglist.capitalize a.text-slug` matches, in document order.
pub fn extract_genres(document: &Html) -> (genres: Result<Vec<String>, FilmError>)
    ensures
        outcome(genres) == genres_of(*document),
{
    match parse_selector("div.text-sluglist.capitalize a.text-slug") {
        Some(selector) => get_film_multiples_infos(document, &selector),
        None => Err(FilmError::SelectorError),
    }
}

/// Reads the five fields of a film's page, in the order year, director,
/// synopsis, rating, genres, and stops at the first that fails: its error is
/// the result, and no later field is read. Where all five succeed, the
/// result is the record of them.
pub fn extract_datas_from_doc(document: &Html) -> (datas: Result<FilmMetaData, FilmError>)
    ensures
        outcome(datas) == datas_from_doc(*document),
{
    let release_year = match extract_release_year(document) {
        Ok(release_year) => release_year,
        Err(error) => {
            return Err(error);
        },
    };
    let director = match extract_director(document) {
        Ok(director) => director,
        Err(error) => {
            return Err(error);
        },
    };
    let synopsis = match extract_synopsis(document) {
        Ok(synopsis) => synopsis,
        Err(error) => {
            return Err(error);
        },
    };
    let rating = match extract_rating(document) {
        Ok(rating) => rating,
        Err(error) => {
            return Err(error);
        },
    };
    let genres = match extract_genres(document) {
        Ok(genres) => genres,
        Err(error) => {
            return Err(error);
        },
    };
    Ok(FilmMetaData { rating, director, release_year, synopsis, genres })
}

/// What a request for a page came back with, where it came back at all.
#[derive(Debug, PartialEq, Eq)]
pub struct Response {
    /// The status code of the answer.
    pub status: u16,
    /// The body of the answer, as text.
    pub body: String,
}

/// A `Response` with its body as a sequence of characters.
pub struct ResponseView {
    pub status: u16,
    pub body: Seq<char>,
}

impl View for Response {
    type V = ResponseView;

    open spec fn view(&self) -> ResponseView {
        ResponseView { status: self.status, body: self.body@ }
    }
}

/// How a request ended, as plain texts: the answer, or how the transport
/// failed.
pub open spec fn fetched_view(fetched: Result<Response, String>) -> Result<
    ResponseView,
    Seq<char>,
> {
    match fetched {
        Ok(response) => Ok(response@),
        Err(detail) => Err(detail@),
    }
}

/// The answer says that the catalogue has no such page: by its status, or by
/// the title that the catalogue gives to the page it serves instead.
pub open spec fn is_not_found(response: ResponseView) -> bool {
    response.status == 404 || contains_text(
        response.body,
        "<title>Letterboxd - Not Found</title>"@,
    )
}

/// The markup that a request yields. A transport that failed gives
/// `ReqwestError` with its detail; an answer that says "not found" gives
/// `NotFoundError`; any other answer gives its body.
pub open spec fn html_content(fetched: Result<ResponseView, Seq<char>>) -> Result<
    Seq<char>,
    FilmErrorView,
> {
    match fetched {
        Err(detail) => Err(FilmErrorView::ReqwestError(detail)),
        Ok(response) => if is_not_found(response) {
            Err(FilmErrorView::NotFoundError)
        } else {
            Ok(response.body)
        },
    }
}

/// The metadata that a request yields: that of the page parsed from its
/// markup, where there is markup.
pub open spec fn extraction(fetched: Result<ResponseView, Seq<char>>) -> Result<
    FilmMetaDataView,
    FilmErrorView,
> {
    match html_content(fetched) {
        Err(error) => Err(error),
        Ok(markup) => datas_from_doc(parsed_document(markup)),
    }
}

/// Judges what a request came back with and hands out the markup to parse.
pub fn get_html_content(fetched: Result<Response, String>) -> (content: Result<String, FilmError>)
    ensures
        outcome(content) == html_content(fetched_view(fetched)),
{
    match fetched {
        Err(detail) => Err(FilmError::ReqwestError(detail)),
        Ok(response) => {
            if response.status == 404 || contains(
                response.body.as_str(),
                "<title>Letterboxd - Not Found</title>",
            ) {
                Err(FilmError::NotFoundError)
            } else {
                Ok(response.body)
            }
        },
    }
}

/// Parses markup into a page. This never fails: what is missing from broken
/// markup shows later, when a selector matches nothing.
pub fn parse_html(html_content: &str) -> (document: Html)
    ensures
        document == parsed_document(html_content@),
{
    parse_document(html_content)
}

/// Judges what a request came back with and reads the metadata from the
/// page: the whole way from the answer to the record.
pub fn extract_film_meta_datas_from_response(fetched: Result<Response, String>) -> (datas: Result<
    FilmMetaData,
    FilmError,
>)
    ensures
        outcome(datas) == extraction(fetched_view(fetched)),
{
    match get_html_content(fetched) {
        Err(error) => Err(error),
        Ok(markup) => {
            let document = parse_html(markup.as_str());
            extract_datas_from_doc(&document)
        },
    }
}

/// The metadata of the film with the given title, where `pages` says what a
/// request for each address comes back with.
pub open spec fn extraction_by_title(
    pages: spec_fn(Seq<char>) -> Result<ResponseView, Seq<char>>,
    title: Seq<char>,
) -> Result<FilmMetaDataView, FilmErrorView> {
    extraction(pages(film_url(title)))
}

/// The metadata of the film whose page has the given address, where `pages`
/// says what a request for each address comes back with.
pub open spec fn extraction_by_url(
    pages: spec_fn(Seq<char>) -> Result<ResponseView, Seq<char>>,
    url: Seq<char>,
) -> Result<FilmMetaDataView, FilmErrorView> {
    extraction(pages(url))
}

/// On one state of the pages, extraction by a title and extraction by the
/// address that is built from that title give the same: the same record or
/// the same error. So does extraction by what `page_url` makes of either.
pub proof fn lemma_title_and_url_agree(
    pages: spec_fn(Seq<char>) -> Result<ResponseView, Seq<char>>,
    title: Seq<char>,
)
    ensures
        extraction_by_title(pages, title) == extraction_by_url(pages, film_url(title)),
        extraction_by_url(pages, page_url(film_url(title))) == extraction_by_title(pages, title),
        !is_url_text(title) ==> extraction_by_url(pages, page_url(title)) == extraction_by_title(
            pages,
            title,
        ),
{
    lemma_film_url_is_url(title);
}

} // verus!
