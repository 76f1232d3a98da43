//! The movie reference type shared by the queue and the downloaded store.

use vstd::prelude::*;

verus! {

/// The derived thumbnail URL for a title's id.
pub open spec fn image_url_view(id: Seq<char>) -> Seq<char> {
    "https://static.sratim.tv/movies/"@ + id + ".jpg"@
}

/// The local file name a title is stored under once downloaded.
pub open spec fn file_name_view(name: Seq<char>) -> Seq<char> {
    name + ".mp4"@
}

/// Identifies a title at the upstream provider. `id` is the provider's
/// stable key; `name` is a display string also used for duplicate
/// matching and is not guaranteed unique.
#[derive(Debug, Clone, PartialEq, Eq)]
pub struct Movie {
    pub name: String,
    pub id: String,
}

impl Movie {
    /// The derived thumbnail URL stored alongside a downloaded title.
    pub fn get_image(&self) -> (r: String)
        ensures
            r@ == image_url_view(self.id@),
    {
        let mut url = String::from_str("https://static.sratim.tv/movies/");
        url.append(self.id.as_str());
        url.append(".jpg");
        url
    }

    /// The local file name the title is stored under once downloaded.
    pub fn file_name(&self) -> (r: String)
        ensures
            r@ == file_name_view(self.name@),
    {
        let mut f = String::from_str(self.name.as_str());
        f.append(".mp4");
        f
    }
}

} // verus!
