//! Film metadata read from the pages of a public film catalogue: the address
//! of a film's page, the judgement of what a request for it came back with,
//! and the five fields that are read out of the page.

pub mod document;
pub mod film_error;
pub mod film_scraper;
pub mod rating;
pub mod replies;
pub mod text;
pub mod utils;
