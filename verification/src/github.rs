//! The client's side of the registry's API: who asks, how the transport is
//! to be set up, and which request asks for what.

use crate::endpoint::{page_address, page_url, version_address, version_url};
use crate::image::Image;
use crate::delete::Deletion;
use crate::request::{Method, Request};
use crate::version::Version;
use vstd::prelude::*;

verus! {

/// How long connecting, and a whole request, may take, in seconds.
pub const TIMEOUT_SECONDS: u64 = 10;

/// How many idle connections to one host are kept for reuse.
pub const MAX_IDLE_PER_HOST: usize = 3;

/// How many versions are asked for with each page.
pub const PAGE_SIZE: i32 = 75;

/// By what name the client makes itself known to the registry.
pub const USER_AGENT: &'static str = "ghcr-cleaner <https://github.com/MarcelCoding/ghrc-cleaner>";

/// How the transport has to be set up.
pub struct Settings {
    pub connect_timeout_seconds: u64,
    pub timeout_seconds: u64,
    /// Plain HTTP is refused.
    pub https_only: bool,
    pub pool_max_idle_per_host: usize,
    pub user_agent: &'static str,
}

/// The account in whose name requests are made.
pub struct User {
    pub name: String,
    pub token: String,
}

/// The deletion of one version: where it stands, and the request that each
/// of its attempts sends.
pub struct DeleteJob {
    pub state: Deletion,
    pub request: Request,
}

/// The registry client: it holds the user and says what to send.
pub struct GitHub {
    user: User,
}

impl GitHub {
    /// The user in whose name requests are made.
    pub closed spec fn spec_user(&self) -> &User {
        &self.user
    }

    /// A client that acts for `username`, who proves it with `token`.
    pub fn new(username: String, token: String) -> (github: GitHub)
        ensures
            github.user().name == username,
            github.user().token == token,
    {
        GitHub { user: User { name: username, token } }
    }

    /// The user in whose name requests are made.
    #[verifier::when_used_as_spec(spec_user)]
    pub fn user(&self) -> (user: &User)
        ensures
            user == self.spec_user(),
    {
        &self.user
    }

    /// How the transport has to be set up: HTTPS only, `TIMEOUT_SECONDS` to
    /// connect and for a whole request, at most `MAX_IDLE_PER_HOST` idle
    /// connections to a host, and `USER_AGENT` as the client's name.
    pub fn settings() -> (settings: Settings)
        ensures
            settings.connect_timeout_seconds == TIMEOUT_SECONDS,
            settings.timeout_seconds == TIMEOUT_SECONDS,
            settings.https_only,
            settings.pool_max_idle_per_host == MAX_IDLE_PER_HOST,
            settings.user_agent@ == USER_AGENT@,
    {
        Settings {
            connect_timeout_seconds: TIMEOUT_SECONDS,
            timeout_seconds: TIMEOUT_SECONDS,
            https_only: true,
            pool_max_idle_per_host: MAX_IDLE_PER_HOST,
            user_agent: USER_AGENT,
        }
    }

    /// The request for page `page` of the versions of `image`, with
    /// `PAGE_SIZE` versions to a page, in the user's name.
    pub fn page_request(&self, image: &Image, page: i32) -> (request: Request)
        ensures
            request.method == Method::Get,
            request.url@ == page_url(image@, page as int, PAGE_SIZE as int),
            request.username@ == self.user().name@,
            request.token@ == self.user().token@,
    {
        Request {
            method: Method::Get,
            url: page_address(image, page, PAGE_SIZE),
            username: self.user.name.clone(),
            token: self.user.token.clone(),
        }
    }

    /// The request that deletes the version `version_id` of `image`, in the
    /// user's name.
    pub fn delete_request(&self, image: &Image, version_id: i32) -> (request: Request)
        ensures
            request.method == Method::Delete,
            request.url@ == version_url(image@, version_id as int),
            request.username@ == self.user().name@,
            request.token@ == self.user().token@,
    {
        Request {
            method: Method::Delete,
            url: version_address(image, version_id),
            username: self.user.name.clone(),
            token: self.user.token.clone(),
        }
    }

    /// The deletions of `versions`, one for each and in their order, none of
    /// them begun. They do not depend on one another and may run side by
    /// side.
    pub fn delete_versions(&self, image: &Image, versions: &[&Version]) -> (jobs: Vec<DeleteJob>)
        ensures
            jobs@.len() == versions@.len(),
            forall|i: int|
                0 <= i < jobs@.len() ==> {
                    let job = #[trigger] jobs@[i];
                    &&& job.state == (Deletion::Sending { version_id: versions@[i].id, attempt: 1 })
                    &&& job.request.method == Method::Delete
                    &&& job.request.url@ == version_url(image@, versions@[i].id as int)
                    &&& job.request.username@ == self.user().name@
                    &&& job.request.token@ == self.user().token@
                },
    {
        let mut jobs: Vec<DeleteJob> = Vec::new();
        let mut i: usize = 0;
        while i < versions.len()
            invariant
                i <= versions@.len(),
                jobs@.len() == i,
                forall|k: int|
                    0 <= k < jobs@.len() ==> {
                        let job = #[trigger] jobs@[k];
                        &&& job.state == (Deletion::Sending {
                            version_id: versions@[k].id,
                            attempt: 1,
                        })
                        &&& job.request.method == Method::Delete
                        &&& job.request.url@ == version_url(image@, versions@[k].id as int)
                        &&& job.request.username@ == self.user().name@
                        &&& job.request.token@ == self.user().token@
                    },
            decreases versions@.len() - i,
        {
            let version_id = versions[i].id;
            jobs.push(
                DeleteJob {
                    state: Deletion::new(version_id),
                    request: self.delete_request(image, version_id),
                },
            );
            i = i + 1;
        }
        jobs
    }
}

} // verus!
