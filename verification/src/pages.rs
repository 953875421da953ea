//! The two HTML pages of the service.

use vstd::prelude::*;
use vstd::string::*;
use crate::config::Config;

verus! {

/// The opening tag shared by both pages.
pub const HEADER: &'static str =
    "<div style=\"font-family:monospace; text-align: center; zoom: 1.5; padding-left: 3vw; padding-top:20vh;\">";

/// The upload form, up to the end of the page.
pub const FORM: &'static str =
    "\n<form action=\"/upload\" method=\"post\" enctype=\"multipart/form-data\">\n   <h1>Select file to upload:</h1> <br>\n   <input type=\"file\" name=\"fileToUpload\" id=\"fileToUpload\" required> <br><br>\n   <input type=\"submit\" value=\"Upload File\" name=\"submit\">\n</form>\n</div>\n";

/// What stands between the header and the link's target.
pub const LINK_OPEN: &'static str =
    "\n            <h1>File link:</h1>\n            <br>\n            <a href=\"";

/// What stands between the link's target and its text.
pub const LINK_TEXT: &'static str = "\">";

/// The end of the link page, with the way back to the form.
pub const LINK_CLOSE: &'static str =
    "</a>\n            <br><br>\n            <a href=\"/\">Upload next file</a>\n        </div>\n        ";

/// The shareable link of a stored file: `<base_url>/<file>`.
pub open spec fn spec_link(base_url: Seq<char>, file: Seq<char>) -> Seq<char> {
    base_url + seq!['/'] + file
}

/// The form page.
pub open spec fn spec_index_page() -> Seq<char> {
    HEADER@ + FORM@
}

/// The link page: the link is both the target and the text of its anchor.
pub open spec fn spec_success_page(base_url: Seq<char>, file: Seq<char>) -> Seq<char> {
    HEADER@ + LINK_OPEN@ + spec_link(base_url, file) + LINK_TEXT@ + spec_link(base_url, file)
        + LINK_CLOSE@
}

/// Builds the shareable link of a stored file.
pub fn link(base_url: &str, file: &str) -> (url: String)
    ensures
        url@ == spec_link(base_url@, file@),
{
    proof {
        reveal_strlit("/");
    }
    String::from_str(base_url).concat("/").concat(file)
}

/// Renders the page with the file-picker form. It posts to `/upload` with
/// multipart encoding and names its file field `fileToUpload`.
pub fn index_page() -> (page: String)
    ensures
        page@ == spec_index_page(),
{
    String::from_str(HEADER).concat(FORM)
}

/// Renders the page that shows the link to `file`. The name is taken as it
/// is: nothing checks that such a file was ever stored.
pub fn success_page(config: &Config, file: &str) -> (page: String)
    ensures
        page@ == spec_success_page(config.spec_base_url(), file@),
{
    let url = link(config.base_url(), file);
    String::from_str(HEADER).concat(LINK_OPEN).concat(url.as_str()).concat(LINK_TEXT).concat(
        url.as_str(),
    ).concat(LINK_CLOSE)
}

} // verus!
