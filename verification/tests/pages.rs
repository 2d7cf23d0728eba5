use film_meta::film_error::FilmError;
use film_meta::film_scraper::extract_datas_from_doc;
use film_meta::film_scraper::extract_director;
use film_meta::film_scraper::extract_film_meta_datas_from_response;
use film_meta::film_scraper::extract_genres;
use film_meta::film_scraper::extract_rating;
use film_meta::film_scraper::extract_release_year;
use film_meta::film_scraper::extract_synopsis;
use film_meta::film_scraper::first_info;
use film_meta::film_scraper::first_rating;
use film_meta::film_scraper::get_film_multiples_infos;
use film_meta::film_scraper::get_film_rating;
use film_meta::film_scraper::get_film_single_info;
use film_meta::film_scraper::get_html_content;
use film_meta::film_scraper::parse_html;
use film_meta::film_scraper::parse_rating;
use film_meta::film_scraper::Response;

fn page(year: &str, director: &str, synopsis: &str, rating: &str, genres: &str) -> String {
    format!(
        "<!DOCTYPE html><html><head><title>A film</title>{rating}</head><body>\
         {year}{director}{synopsis}{genres}</body></html>"
    )
}

const YEAR: &str = "<div class=\"releaseyear\"><a href=\"/films/year/1995/\">1995</a></div>";
const DIRECTOR: &str = "<span class=\"directorlist\"><a href=\"/director/david-fincher/\">\
                        <span class=\"prettify\">David Fincher</span></a></span>";
const SYNOPSIS: &str = "<div class=\"truncate\"><p>Two detectives hunt a <b>serial</b> killer.</p></div>";
const RATING: &str = "<meta name=\"twitter:data2\" content=\"4.33 out of 5\">";
const GENRES: &str = "<div class=\"text-sluglist capitalize\"><p>\
                      <a class=\"text-slug\" href=\"/films/genre/crime/\">Crime</a>\
                      <a class=\"text-slug\" href=\"/films/genre/mystery/\">Mystery</a>\
                      <a class=\"text-slug\" href=\"/films/genre/thriller/\">Thriller</a></p></div>";

fn full_page() -> String {
    page(YEAR, DIRECTOR, SYNOPSIS, RATING, GENRES)
}

fn ok(body: String) -> Result<Response, String> {
    Ok(Response { status: 200, body })
}

#[test]
fn full_page_gives_all_five_fields() {
    let datas = extract_film_meta_datas_from_response(ok(full_page())).unwrap();
    assert_eq!(datas.release_year, "1995");
    assert_eq!(datas.director, "David Fincher");
    assert_eq!(datas.synopsis, "Two detectives hunt a serial killer.");
    assert_eq!(datas.rating.as_str(), "4.33");
    assert_eq!(datas.rating.as_str().parse::<f32>().unwrap(), 4.33);
    assert_eq!(datas.genres, vec!["Crime", "Mystery", "Thriller"]);
}

#[test]
fn genres_come_in_document_order() {
    let genres = "<div class=\"text-sluglist capitalize\">\
                  <a class=\"text-slug\">Western</a><a class=\"text-slug\">Animation</a>\
                  <a class=\"text-slug\">Drama</a><a class=\"text-slug\">Animation</a></div>";
    let datas =
        extract_film_meta_datas_from_response(ok(page(YEAR, DIRECTOR, SYNOPSIS, RATING, genres)))
            .unwrap();
    assert_eq!(datas.genres, vec!["Western", "Animation", "Drama", "Animation"]);
}

#[test]
fn no_genres_is_no_error() {
    let datas =
        extract_film_meta_datas_from_response(ok(page(YEAR, DIRECTOR, SYNOPSIS, RATING, "")))
            .unwrap();
    assert!(datas.genres.is_empty());
    let document = parse_html(&page(YEAR, DIRECTOR, SYNOPSIS, RATING, ""));
    assert_eq!(extract_genres(&document), Ok(Vec::new()));
}

#[test]
fn genres_want_both_classes_on_the_list() {
    let genres = "<div class=\"text-sluglist\"><a class=\"text-slug\">Crime</a></div>\
                  <div class=\"capitalize text-sluglist\"><a class=\"other\">No</a>\
                  <a class=\"text-slug\">Yes</a></div>";
    let document = parse_html(&page(YEAR, DIRECTOR, SYNOPSIS, RATING, genres));
    assert_eq!(extract_genres(&document), Ok(vec!["Yes".to_string()]));
}

#[test]
fn scalar_fields_take_the_first_match() {
    let years = "<div class=\"releaseyear\"><a>1995</a><a>1996</a></div>\
                 <div class=\"releaseyear\"><a>1997</a></div>";
    let document = parse_html(&page(years, DIRECTOR, SYNOPSIS, RATING, GENRES));
    assert_eq!(extract_release_year(&document), Ok("1995".to_string()));
}

#[test]
fn scalar_fields_concatenate_descendant_text() {
    let synopsis = "<div class=\"truncate\"><p> A <i>b<b>c</b></i>  d\n</p><p>second</p></div>";
    let document = parse_html(&page(YEAR, DIRECTOR, synopsis, RATING, GENRES));
    assert_eq!(extract_synopsis(&document), Ok(" A bc  d\n".to_string()));
    let director = "<span class=\"directorlist\"><a><span class=\"prettify\"></span></a></span>";
    let document = parse_html(&page(YEAR, director, SYNOPSIS, RATING, GENRES));
    assert_eq!(extract_director(&document), Ok(String::new()));
}

#[test]
fn rating_is_the_first_word_of_the_content() {
    let rating = "<meta name=\"twitter:data2\" content=\"85 perfect_rating\">";
    let document = parse_html(&page(YEAR, DIRECTOR, SYNOPSIS, rating, GENRES));
    let got = extract_rating(&document).unwrap();
    assert_eq!(got.as_str(), "85");
    assert_eq!(got.as_str().parse::<f32>().unwrap(), 85.0);
}

#[test]
fn rating_skips_leading_white_space() {
    let rating = "<meta name=\"twitter:data2\" content=\" \t 3.5\u{a0}stars\">";
    let document = parse_html(&page(YEAR, DIRECTOR, SYNOPSIS, rating, GENRES));
    assert_eq!(extract_rating(&document).unwrap().as_str(), "3.5");
}

#[test]
fn rating_that_is_no_number_is_a_parse_error() {
    let rating = "<meta name=\"twitter:data2\" content=\"abc\">";
    let document = parse_html(&page(YEAR, DIRECTOR, SYNOPSIS, rating, GENRES));
    assert_eq!(extract_rating(&document), Err(FilmError::ParseError));
    let rating = "<meta name=\"twitter:data2\" content=\"4,33 out of 5\">";
    let document = parse_html(&page(YEAR, DIRECTOR, SYNOPSIS, rating, GENRES));
    assert_eq!(extract_rating(&document), Err(FilmError::ParseError));
}

#[test]
fn rating_without_a_word_is_a_parse_error() {
    for content in ["", " ", "\t\n  "] {
        let rating = format!("<meta name=\"twitter:data2\" content=\"{content}\">");
        let document = parse_html(&page(YEAR, DIRECTOR, SYNOPSIS, &rating, GENRES));
        assert_eq!(extract_rating(&document), Err(FilmError::ParseError));
    }
}

#[test]
fn rating_without_the_attribute_is_an_attribute_error() {
    let rating = "<meta name=\"twitter:data2\" value=\"4.33\">";
    let document = parse_html(&page(YEAR, DIRECTOR, SYNOPSIS, rating, GENRES));
    assert_eq!(extract_rating(&document), Err(FilmError::AttributeError));
}

#[test]
fn rating_looks_at_the_first_match_only() {
    let rating = "<meta name=\"twitter:data2\"><meta name=\"twitter:data2\" content=\"4.33\">";
    let document = parse_html(&page(YEAR, DIRECTOR, SYNOPSIS, rating, GENRES));
    assert_eq!(extract_rating(&document), Err(FilmError::AttributeError));
}

#[test]
fn rating_without_the_element_is_a_selector_error() {
    let rating = "<meta name=\"twitter:data1\" content=\"4.33\">";
    let document = parse_html(&page(YEAR, DIRECTOR, SYNOPSIS, rating, GENRES));
    assert_eq!(extract_rating(&document), Err(FilmError::SelectorError));
}

#[test]
fn missing_director_is_a_selector_error() {
    let document = parse_html(&page(YEAR, "", SYNOPSIS, RATING, GENRES));
    assert_eq!(extract_director(&document), Err(FilmError::SelectorError));
    assert_eq!(extract_datas_from_doc(&document), Err(FilmError::SelectorError));
}

#[test]
fn first_failing_field_decides_the_error() {
    let bad_rating = "<meta name=\"twitter:data2\" content=\"abc\">";
    let no_content = "<meta name=\"twitter:data2\">";
    let document = parse_html(&page(YEAR, "", SYNOPSIS, bad_rating, GENRES));
    assert_eq!(extract_datas_from_doc(&document), Err(FilmError::SelectorError));
    let document = parse_html(&page(YEAR, DIRECTOR, "", no_content, GENRES));
    assert_eq!(extract_datas_from_doc(&document), Err(FilmError::SelectorError));
    let document = parse_html(&page(YEAR, DIRECTOR, SYNOPSIS, no_content, GENRES));
    assert_eq!(extract_datas_from_doc(&document), Err(FilmError::AttributeError));
    let document = parse_html(&page(YEAR, DIRECTOR, SYNOPSIS, bad_rating, ""));
    assert_eq!(extract_datas_from_doc(&document), Err(FilmError::ParseError));
    let document = parse_html(&page("", DIRECTOR, SYNOPSIS, no_content, GENRES));
    assert_eq!(extract_datas_from_doc(&document), Err(FilmError::SelectorError));
}

#[test]
fn broken_markup_parses_and_misses_selectors() {
    for markup in ["", "<<<>>>", "<div class=\"releaseyear\"><a>1995", "plain text"] {
        let document = parse_html(markup);
        assert_eq!(extract_director(&document), Err(FilmError::SelectorError));
    }
    let document = parse_html("<div class=\"releaseyear\"><a>1995");
    assert_eq!(extract_release_year(&document), Ok("1995".to_string()));
}

#[test]
fn status_404_is_not_found() {
    let fetched = Ok(Response { status: 404, body: full_page() });
    assert_eq!(get_html_content(fetched), Err(FilmError::NotFoundError));
    let fetched = Ok(Response { status: 404, body: full_page() });
    assert_eq!(extract_film_meta_datas_from_response(fetched), Err(FilmError::NotFoundError));
}

#[test]
fn not_found_title_is_not_found_whatever_the_status() {
    let body = "<html><head><title>Letterboxd - Not Found</title></head><body></body></html>";
    let fetched = Ok(Response { status: 200, body: body.to_string() });
    assert_eq!(get_html_content(fetched), Err(FilmError::NotFoundError));
    let body = format!("{}<title>Letterboxd - Not Found</title>", full_page());
    assert_eq!(extract_film_meta_datas_from_response(ok(body)), Err(FilmError::NotFoundError));
}

#[test]
fn near_misses_of_the_marker_are_found() {
    for body in [
        "<title>Letterboxd - Not found</title>",
        "<title>Letterboxd - Not Found",
        "<title> Letterboxd - Not Found</title>",
        "Letterboxd - Not Found",
        "",
    ] {
        let fetched = Ok(Response { status: 200, body: body.to_string() });
        assert_eq!(get_html_content(fetched), Ok(body.to_string()));
    }
}

#[test]
fn other_statuses_hand_out_the_body() {
    for status in [200u16, 201, 301, 403, 405, 500, 0, 65535] {
        let fetched = Ok(Response { status, body: full_page() });
        assert_eq!(get_html_content(fetched), Ok(full_page()));
    }
}

#[test]
fn failed_transport_keeps_its_detail() {
    let fetched = Err("connection refused".to_string());
    assert_eq!(
        get_html_content(fetched),
        Err(FilmError::ReqwestError("connection refused".to_string()))
    );
    let fetched = Err("timed out".to_string());
    assert_eq!(
        extract_film_meta_datas_from_response(fetched),
        Err(FilmError::ReqwestError("timed out".to_string()))
    );
}

#[test]
fn same_page_gives_the_same_datas() {
    let first = extract_film_meta_datas_from_response(ok(full_page()));
    let second = extract_film_meta_datas_from_response(ok(full_page()));
    assert!(first.is_ok());
    assert_eq!(first, second);
}

#[test]
fn first_info_is_the_first_or_a_selector_error() {
    assert_eq!(first_info(vec!["1995".to_string(), "1996".to_string()]), Ok("1995".to_string()));
    assert_eq!(first_info(vec![String::new()]), Ok(String::new()));
    assert_eq!(first_info(Vec::new()), Err(FilmError::SelectorError));
}

#[test]
fn first_rating_reads_the_first_element_only() {
    assert_eq!(first_rating(Vec::new()), Err(FilmError::SelectorError));
    assert_eq!(
        first_rating(vec![None, Some("4.33".to_string())]),
        Err(FilmError::AttributeError)
    );
    assert_eq!(
        first_rating(vec![Some("abc".to_string()), Some("4.33".to_string())]),
        Err(FilmError::ParseError)
    );
    let rating = first_rating(vec![Some("85 perfect_rating".to_string()), None]).unwrap();
    assert_eq!(rating.as_str(), "85");
}

#[test]
fn parse_rating_parses_the_first_word() {
    assert_eq!(parse_rating("85 perfect_rating").unwrap().as_str(), "85");
    assert_eq!(parse_rating("85 perfect_rating").unwrap().as_str().parse::<f32>(), Ok(85.0));
    assert_eq!(parse_rating("  4.33\tout of 5").unwrap().as_str(), "4.33");
    assert_eq!(parse_rating("-1e3").unwrap().as_str().parse::<f32>(), Ok(-1000.0));
    assert_eq!(parse_rating("abc"), Err(FilmError::ParseError));
    assert_eq!(parse_rating("abc 4.33"), Err(FilmError::ParseError));
    assert_eq!(parse_rating("4.33/5"), Err(FilmError::ParseError));
    assert_eq!(parse_rating(""), Err(FilmError::ParseError));
    assert_eq!(parse_rating(" \n"), Err(FilmError::ParseError));
}

#[test]
fn parse_rating_agrees_with_parsing_the_first_word() {
    for content in ["85 perfect_rating", "abc", "", " 1e5 x", "1 2", "+.5e-3", "nan nan", "in f", "۵"] {
        let expected = content.split_whitespace().next().and_then(|word| word.parse::<f32>().ok());
        let got = parse_rating(content).ok().map(|rating| rating.as_str().parse::<f32>().unwrap());
        match (expected, got) {
            (Some(a), Some(b)) => assert!(a == b || (a.is_nan() && b.is_nan()), "{content:?}"),
            (None, None) => {}
            _ => panic!("{content:?}"),
        }
    }
}

#[test]
fn readers_take_any_selector() {
    let document = parse_html(&full_page());
    let links = scraper::Selector::parse("a").unwrap();
    assert_eq!(get_film_single_info(&document, &links), Ok("1995".to_string()));
    assert_eq!(
        get_film_multiples_infos(&document, &links),
        Ok(vec![
            "1995".to_string(),
            "David Fincher".to_string(),
            "Crime".to_string(),
            "Mystery".to_string(),
            "Thriller".to_string()
        ])
    );
    assert_eq!(get_film_rating(&document, &links), Err(FilmError::AttributeError));
    let metas = scraper::Selector::parse("meta").unwrap();
    assert_eq!(get_film_rating(&document, &metas).unwrap().as_str(), "4.33");
    assert_eq!(get_film_single_info(&document, &metas), Ok(String::new()));
    let tables = scraper::Selector::parse("table").unwrap();
    assert_eq!(get_film_single_info(&document, &tables), Err(FilmError::SelectorError));
    assert_eq!(get_film_multiples_infos(&document, &tables), Ok(Vec::new()));
    assert_eq!(get_film_rating(&document, &tables), Err(FilmError::SelectorError));
}
