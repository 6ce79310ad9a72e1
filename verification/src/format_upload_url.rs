//! The addresses under which uploads are reached.

use crate::settings::Settings;
use crate::text::join;
use vstd::prelude::*;
use vstd::string::*;

verus! {

/// The address of the content of the upload `id`, below `base_url`.
pub open spec fn upload_url(base_url: Seq<char>, id: Seq<char>) -> Seq<char> {
    base_url + "/api/uploads/content/"@ + id
}

/// The address of the content of the upload `id`, with the view token `vt`
/// in its query where one is given.
pub open spec fn embedded_upload_url(base_url: Seq<char>, id: Seq<char>, vt: Option<Seq<char>>) -> Seq<
    char,
> {
    match vt {
        Some(secret) => upload_url(base_url, id) + "?vt="@ + secret,
        None => upload_url(base_url, id),
    }
}

/// The address under which the content of the upload `id` is served.
pub fn format_upload_url(settings: &Settings, id: &str) -> (url: String)
    ensures
        url@ == upload_url(settings.general.base_url@, id@),
{
    let mut url = join(settings.general.base_url.as_str(), "/api/uploads/content/");
    url.append(id);
    url
}

} // verus!
