use ghcr_cleaner::delete::{Deletion, Event};
use ghcr_cleaner::github::{GitHub, MAX_IDLE_PER_HOST, PAGE_SIZE, TIMEOUT_SECONDS, USER_AGENT};
use ghcr_cleaner::image::Image;
use ghcr_cleaner::request::{Method, Reply};
use ghcr_cleaner::version::Version;

fn github() -> GitHub {
    GitHub::new("octocat".to_string(), "s3cr3t".to_string())
}

fn image(reference: &str) -> Image {
    Image::new(reference.to_string()).unwrap()
}

fn untagged(id: i32) -> Version {
    Version::new(id, format!("sha256:{}", id), format!("https://example.test/{}", id), Vec::new())
}

#[test]
fn client_keeps_its_user() {
    let github = github();
    assert_eq!(github.user().name, "octocat");
    assert_eq!(github.user().token, "s3cr3t");
}

#[test]
fn transport_settings() {
    let settings = GitHub::settings();
    assert_eq!(settings.connect_timeout_seconds, 10);
    assert_eq!(settings.timeout_seconds, 10);
    assert!(settings.https_only);
    assert_eq!(settings.pool_max_idle_per_host, 3);
    assert_eq!(settings.user_agent, "ghcr-cleaner <https://github.com/MarcelCoding/ghrc-cleaner>");
    assert_eq!(TIMEOUT_SECONDS, 10);
    assert_eq!(MAX_IDLE_PER_HOST, 3);
    assert_eq!(PAGE_SIZE, 75);
    assert_eq!(USER_AGENT, settings.user_agent);
}

#[test]
fn page_request_of_a_users_image() {
    let request = github().page_request(&image("nginx"), 3);
    assert_eq!(request.method, Method::Get);
    assert_eq!(
        request.url,
        "https://api.github.com/user/packages/container/nginx/versions?page=3&per_page=75"
    );
    assert_eq!(request.username, "octocat");
    assert_eq!(request.token, "s3cr3t");
}

#[test]
fn page_request_of_an_accounts_image() {
    let request = github().page_request(&image("acme/nginx"), 1);
    assert_eq!(request.method, Method::Get);
    assert_eq!(
        request.url,
        "https://api.github.com/orgs/acme/packages/container/nginx/versions?page=1&per_page=75"
    );
}

#[test]
fn delete_request_of_a_users_image() {
    let request = github().delete_request(&image("nginx"), 42);
    assert_eq!(request.method, Method::Delete);
    assert_eq!(request.url, "https://api.github.com/user/packages/container/nginx/versions/42");
    assert_eq!(request.username, "octocat");
    assert_eq!(request.token, "s3cr3t");
}

#[test]
fn delete_request_of_an_accounts_image() {
    let request = github().delete_request(&image("acme/nginx"), 42);
    assert_eq!(request.method, Method::Delete);
    assert_eq!(
        request.url,
        "https://api.github.com/orgs/acme/packages/container/nginx/versions/42"
    );
}

#[test]
fn delete_versions_of_nothing() {
    let jobs = github().delete_versions(&image("nginx"), &[]);
    assert!(jobs.is_empty());
}

#[test]
fn delete_versions_gives_one_job_for_each_version() {
    let versions = vec![untagged(7), untagged(5)];
    let picked: Vec<&Version> = versions.iter().collect();
    let jobs = github().delete_versions(&image("acme/nginx"), &picked);
    assert_eq!(jobs.len(), 2);
    assert_eq!(jobs[0].state, Deletion::Sending { version_id: 7, attempt: 1 });
    assert_eq!(jobs[1].state, Deletion::Sending { version_id: 5, attempt: 1 });
    assert_eq!(jobs[0].request.method, Method::Delete);
    assert_eq!(
        jobs[0].request.url,
        "https://api.github.com/orgs/acme/packages/container/nginx/versions/7"
    );
    assert_eq!(
        jobs[1].request.url,
        "https://api.github.com/orgs/acme/packages/container/nginx/versions/5"
    );
    assert_eq!(jobs[1].request.username, "octocat");
    assert_eq!(jobs[1].request.token, "s3cr3t");
}

#[test]
fn ten_deletions_succeed_in_any_order() {
    let versions: Vec<Version> = (1..=10).map(untagged).collect();
    let picked: Vec<&Version> = versions.iter().collect();
    let mut jobs = github().delete_versions(&image("nginx"), &picked);
    assert_eq!(jobs.len(), 10);
    // The server sees the requests in an order of its own and answers each with 200.
    let order = [7usize, 2, 9, 0, 5, 3, 8, 1, 6, 4];
    let mut sent: Vec<String> = Vec::new();
    for &i in &order {
        assert!(matches!(jobs[i].state, Deletion::Sending { attempt: 1, .. }));
        sent.push(jobs[i].request.url.clone());
        jobs[i].state = jobs[i].state.step(Event::Replied(Reply::Status(200)));
    }
    assert_eq!(sent.len(), 10);
    for (i, job) in jobs.iter().enumerate() {
        assert_eq!(job.state.outcome(), Some(Ok(())));
        let url = format!("https://api.github.com/user/packages/container/nginx/versions/{}", i + 1);
        assert_eq!(job.request.url, url);
        assert_eq!(sent.iter().filter(|s| **s == url).count(), 1);
    }
}

#[test]
fn one_failed_deletion_leaves_the_others_alone() {
    let versions: Vec<Version> = (1..=3).map(untagged).collect();
    let picked: Vec<&Version> = versions.iter().collect();
    let mut jobs = github().delete_versions(&image("nginx"), &picked);
    jobs[1].state = jobs[1].state.step(Event::Replied(Reply::Status(403)));
    jobs[0].state = jobs[0].state.step(Event::Replied(Reply::Status(204)));
    jobs[2].state = jobs[2].state.step(Event::Replied(Reply::Status(500)));
    assert_eq!(jobs[0].state, Deletion::Succeeded);
    assert!(matches!(jobs[1].state, Deletion::Failed(_)));
    assert_eq!(jobs[2].state, Deletion::Sleeping { version_id: 3, attempt: 1, seconds: 3 });
}
