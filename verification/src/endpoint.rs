//! The addresses of the registry's API.

use crate::decimal::{decimal, push_decimal};
use crate::image::{Image, ImageView};
use vstd::prelude::*;
use vstd::string::StringExecFns;

verus! {

/// The address under which the versions of an image are listed: below the
/// account, if the image has one, else below the authenticated user.
pub open spec fn versions_url(image: ImageView) -> Seq<char> {
    match image.account {
        None => "https://api.github.com/user/packages/container/"@ + image.name + "/versions"@,
        Some(account) => "https://api.github.com/orgs/"@ + account + "/packages/container/"@
            + image.name + "/versions"@,
    }
}

/// The address of one page of an image's versions.
pub open spec fn page_url(image: ImageView, page: int, per_page: int) -> Seq<char> {
    versions_url(image) + "?page="@ + decimal(page) + "&per_page="@ + decimal(per_page)
}

/// The address of one version of an image.
pub open spec fn version_url(image: ImageView, version_id: int) -> Seq<char> {
    versions_url(image) + "/"@ + decimal(version_id)
}

/// Writes out the address under which the versions of `image` are listed.
fn versions_address(image: &Image) -> (url: String)
    ensures
        url@ == versions_url(image@),
{
    let mut url;
    match image.account() {
        None => {
            url = String::from_str("https://api.github.com/user/packages/container/");
        },
        Some(account) => {
            url = String::from_str("https://api.github.com/orgs/");
            url.append(account);
            url.append("/packages/container/");
        },
    }
    url.append(image.name());
    url.append("/versions");
    url
}

/// Writes out the address of page `page` of the versions of `image`, with
/// `per_page` versions to a page.
pub fn page_address(image: &Image, page: i32, per_page: i32) -> (url: String)
    ensures
        url@ == page_url(image@, page as int, per_page as int),
{
    let mut url = versions_address(image);
    url.append("?page=");
    push_decimal(&mut url, page);
    url.append("&per_page=");
    push_decimal(&mut url, per_page);
    url
}

/// Writes out the address of the version `version_id` of `image`.
pub fn version_address(image: &Image, version_id: i32) -> (url: String)
    ensures
        url@ == version_url(image@, version_id as int),
{
    let mut url = versions_address(image);
    url.append("/");
    push_decimal(&mut url, version_id);
    url
}

} // verus!
