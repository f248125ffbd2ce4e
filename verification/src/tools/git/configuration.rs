use vstd::prelude::*;

use crate::error::{AppError, ErrorKind};
use crate::pattern::{compile, is_match, regex_compile, regex_is_match};
use crate::text::{concat2, ends_with, is_prefix, is_suffix, owned, starts_with, str_eq};
use crate::tools::git::Repository;

verus! {

/// Whether the configured URL `configured` stands for `url`: a `^...$`
/// configured URL is a regex that must compile and match, any other must be
/// equal.
pub open spec fn url_matches(configured: Seq<char>, url: Seq<char>) -> bool {
    if is_prefix("^"@, configured) && is_suffix("$"@, configured) {
        regex_compile(configured) is Ok && regex_is_match(configured, url)
    } else {
        configured == url
    }
}

/// Whether the configuration `repo` is the one for `url`.
pub fn repository_matches(repo: &Repository, url: &str) -> (r: bool)
    ensures
        r == url_matches(repo.url@, url@),
{
    if starts_with(repo.url.as_str(), "^") && ends_with(repo.url.as_str(), "$") {
        return match compile(repo.url.as_str()) {
            Ok(re) => is_match(&re, url),
            Err(_) => false,
        };
    }
    str_eq(repo.url.as_str(), url)
}

/// The configuration of the first of `repositories` that stands for `url`,
/// with its URL set to `url`.
pub fn get_repository_by_url(repositories: Vec<Repository>, url: &str) -> (r: Result<Repository, AppError>)
    ensures
        (forall|i: int| 0 <= i < repositories@.len() ==> !url_matches(#[trigger] repositories@[i].url@, url@)) ==> (r matches Err(e) && e.is(ErrorKind::NotFound, "configuration_load_failed"@, "No configuration for repository: "@ + url@)),
        forall|i: int| 0 <= i < repositories@.len() && url_matches(#[trigger] repositories@[i].url@, url@)
            && (forall|j: int| 0 <= j < i ==> !url_matches(#[trigger] repositories@[j].url@, url@)) ==> (r matches Ok(found) && {
            let c = repositories@[i];
            &&& found.url@ == url@
            &&& found.email == c.email
            &&& found.display_name == c.display_name
            &&& found.username == c.username
            &&& found.ssh_key == c.ssh_key
            &&& found.password == c.password
            &&& found.known_hosts == c.known_hosts
        }),
{
    let ghost all = repositories@;
    let mut rest = repositories;
    let mut i: usize = 0;
    while i < rest.len()
        invariant
            rest@ == all,
            all == repositories@,
            i <= rest.len(),
            forall|j: int| 0 <= j < i ==> !url_matches(#[trigger] all[j].url@, url@),
        decreases rest.len() - i,
    {
        if repository_matches(&rest[i], url) {
            proof {
                assert(url_matches(all[i as int].url@, url@));
                assert forall|k: int| 0 <= k < all.len() && url_matches(#[trigger] all[k].url@, url@)
                    && (forall|j: int| 0 <= j < k ==> !url_matches(#[trigger] all[j].url@, url@)) implies k == i by {
                    if k > i {
                        assert(!url_matches(all[i as int].url@, url@));
                    }
                }
            }
            let found = rest.swap_remove(i);
            let Repository { url: _, email, display_name, username, ssh_key, password, known_hosts } = found;
            return Ok(Repository { url: owned(url), email, display_name, username, ssh_key, password, known_hosts });
        }
        i = i + 1;
    }
    Err(AppError::new(ErrorKind::NotFound, "configuration_load_failed", concat2("No configuration for repository: ", url)))
}

} // verus!
