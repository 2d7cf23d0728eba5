//! The texts that answer a request for a film's metadata: one line for each
//! field, and one for each way in which the request failed.

use vstd::prelude::*;
use vstd::string::StringExecFns;
use crate::film_error::FilmError;
use crate::film_error::FilmErrorView;

verus! {

/// The parts in their order, with the separator between each two of them.
pub open spec fn joined(parts: Seq<Seq<char>>, separator: Seq<char>) -> Seq<char>
    decreases parts.len(),
{
    if parts.len() == 0 {
        Seq::empty()
    } else if parts.len() == 1 {
        parts[0]
    } else {
        joined(parts.drop_last(), separator) + separator + parts.last()
    }
}

/// What to say when a request failed.
pub open spec fn error_text(error: FilmErrorView) -> Seq<char> {
    match error {
        FilmErrorView::ParseError => "Error: Failed to parse the film data."@,
        FilmErrorView::SelectorError => {
            "Error: Failed to select the required elements from the film data."@
        },
        FilmErrorView::AttributeError => {
            "Error: Failed to extract the required attributes from the film data."@
        },
        FilmErrorView::ReqwestError(detail) => "Error: Network request failed with error: "@
            + detail,
        FilmErrorView::NotFoundError => "Error: Film not found."@,
    }
}

/// The line that gives the rating, which comes as it is to be shown.
pub open spec fn rating_text(rating: Seq<char>) -> Seq<char> {
    "Rating: "@ + rating
}

/// The line that gives the year of release.
pub open spec fn release_year_text(release_year: Seq<char>) -> Seq<char> {
    "Release Year: "@ + release_year
}

/// The line that gives the director.
pub open spec fn director_text(director: Seq<char>) -> Seq<char> {
    "Director: "@ + director
}

/// The line that gives the synopsis.
pub open spec fn synopsis_text(synopsis: Seq<char>) -> Seq<char> {
    "Synopsis: "@ + synopsis
}

/// The line that gives the genres, with a comma and a space between them.
pub open spec fn genres_text(genres: Seq<Seq<char>>) -> Seq<char> {
    "Genres: "@ + joined(genres, ", "@)
}

/// The five lines: rating, year, director, synopsis, genres.
pub open spec fn all_text(
    rating: Seq<char>,
    release_year: Seq<char>,
    director: Seq<char>,
    synopsis: Seq<char>,
    genres: Seq<Seq<char>>,
) -> Seq<char> {
    rating_text(rating) + "\n"@ + release_year_text(release_year) + "\n"@ + director_text(
        director,
    ) + "\n"@ + synopsis_text(synopsis) + "\n"@ + genres_text(genres)
}

/// Joins `parts` in their order, with `separator` between each two of them.
pub fn join(parts: &Vec<String>, separator: &str) -> (text: String)
    ensures
        text@ == joined(parts.deep_view(), separator@),
{
    let mut text = String::new();
    let mut i: usize = 0;
    while i < parts.len()
        invariant
            i <= parts.len(),
            text@ == joined(parts.deep_view().take(i as int), separator@),
        decreases parts.len() - i,
    {
        proof {
            let before = parts.deep_view().take(i as int);
            let after = parts.deep_view().take(i + 1);
            assert(after.drop_last() =~= before);
            assert(after.last() == parts@[i as int]@);
            if i == 0 {
                assert(joined(after, separator@) == after[0]);
                assert(Seq::<char>::empty() + after[0] =~= after[0]);
            }
        }
        if i > 0 {
            text.append(separator);
        }
        text.append(parts[i].as_str());
        i += 1;
    }
    assert(parts.deep_view().take(parts.len() as int) =~= parts.deep_view());
    text
}

/// What to say when a request failed: one text for each kind of error, and
/// for a failed transport its detail too.
pub fn error_reply(error: &FilmError) -> (text: String)
    ensures
        text@ == error_text(error@),
{
    match error {
        FilmError::ParseError => String::from_str("Error: Failed to parse the film data."),
        FilmError::SelectorError => String::from_str(
            "Error: Failed to select the required elements from the film data.",
        ),
        FilmError::AttributeError => String::from_str(
            "Error: Failed to extract the required attributes from the film data.",
        ),
        FilmError::ReqwestError(detail) => String::from_str(
            "Error: Network request failed with error: ",
        ).concat(detail.as_str()),
        FilmError::NotFoundError => String::from_str("Error: Film not found."),
    }
}

/// The line that gives the rating. `rating` is the number as it is to be
/// shown.
pub fn rating_reply(rating: &str) -> (text: String)
    ensures
        text@ == rating_text(rating@),
{
    String::from_str("Rating: ").concat(rating)
}

/// The line that gives the year of release.
pub fn release_year_reply(release_year: &str) -> (text: String)
    ensures
        text@ == release_year_text(release_year@),
{
    String::from_str("Release Year: ").concat(release_year)
}

/// The line that gives the director.
pub fn director_reply(director: &str) -> (text: String)
    ensures
        text@ == director_text(director@),
{
    String::from_str("Director: ").concat(director)
}

/// The line that gives the synopsis.
pub fn synopsis_reply(synopsis: &str) -> (text: String)
    ensures
        text@ == synopsis_text(synopsis@),
{
    String::from_str("Synopsis: ").concat(synopsis)
}

/// The line that gives the genres, with a comma and a space between them.
pub fn genres_reply(genres: &Vec<String>) -> (text: String)
    ensures
        text@ == genres_text(genres.deep_view()),
{
    let list = join(genres, ", ");
    String::from_str("Genres: ").concat(list.as_str())
}

/// The five lines in one text: rating, year, director, synopsis, genres.
/// `rating` is the number as it is to be shown.
pub fn all_reply(
    rating: &str,
    release_year: &str,
    director: &str,
    synopsis: &str,
    genres: &Vec<String>,
) -> (text: String)
    ensures
        text@ == all_text(rating@, release_year@, director@, synopsis@, genres.deep_view()),
{
    let mut text = rating_reply(rating);
    text.append("\n");
    text.append(release_year_reply(release_year).as_str());
    text.append("\n");
    text.append(director_reply(director).as_str());
    text.append("\n");
    text.append(synopsis_reply(synopsis).as_str());
    text.append("\n");
    text.append(genres_reply(genres).as_str());
    text
}

} // verus!
