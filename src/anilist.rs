use vstd::prelude::*;
use crate::text::opt_view;

verus! {

/// A reply of the title lookup service.
#[derive(Debug)]
pub struct AniListResponse {
    pub data: AniListData,
}

#[allow(non_snake_case)]
#[derive(Debug)]
pub struct AniListData {
    pub Media: Option<Media>,
}

/// A title found by the lookup service.
#[allow(non_snake_case)]
#[derive(Debug)]
pub struct Media {
    pub id: i32,
    pub title: MediaTitle,
    pub media_type: String,
    pub episodes: Option<i32>,
    pub duration: Option<i32>,
    pub coverImage: CoverImage,
}

/// The variants of a title.
#[derive(Debug)]
pub struct MediaTitle {
    pub romaji: Option<String>,
    pub english: Option<String>,
    pub native: Option<String>,
}

#[derive(Debug)]
pub struct CoverImage {
    pub large: String,
}

/// The title to show: the English one, else the romanised one, else the
/// native one, else a placeholder.
pub open spec fn preferred_title(t: MediaTitle) -> Seq<char> {
    match (opt_view(t.english), opt_view(t.romaji), opt_view(t.native)) {
        (Some(e), _, _) => e,
        (None, Some(r), _) => r,
        (None, None, Some(n)) => n,
        (None, None, None) => "Unknown Anime"@,
    }
}

pub fn get_preferred_title(media: &Media) -> (r: String)
    ensures
        r@ == preferred_title(media.title),
{
    let t = &media.title;
    match (&t.english, &t.romaji, &t.native) {
        (Some(e), _, _) => e.clone(),
        (None, Some(r), _) => r.clone(),
        (None, None, Some(n)) => n.clone(),
        (None, None, None) => "Unknown Anime".to_string(),
    }
}

} // verus!
