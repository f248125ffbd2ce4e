use vstd::prelude::*;

use ssh2::{CheckResult, KnownHostFileKind, Session};

use crate::text::{concat2, concat3, owned, str_eq, views};
use crate::tools::git::Repository;

verus! {

/// An error reported by Git, by its message.
pub struct GitError {
    pub message: String,
}

impl GitError {
    pub fn new(message: &str) -> (e: GitError)
        ensures
            e.message@ == message@,
    {
        GitError { message: owned(message) }
    }
}

/// A local Git repository at `path`, with the configuration used to reach
/// its remote.
pub struct GitRepository {
    pub path: String,
    pub repository: Repository,
}

/// What a pull does after fetching.
#[derive(Debug, Clone, Copy, PartialEq, Eq, Structural)]
pub enum PullStep {
    /// Nothing to do.
    UpToDate,
    /// Move the local branch to the fetched commit and check it out.
    FastForward,
}

/// Which two states a diff compares.
pub enum DiffRequest {
    /// Unstaged changes: the index against the working directory.
    IndexToWorkdir,
    /// The trees of two revisions.
    TreeToTree(String, String),
}

/// Where a local branch that is checked out comes from.
#[derive(Debug, Clone, Copy, PartialEq, Eq, Structural)]
pub enum BranchSource {
    /// It exists already.
    Existing,
    /// It is created from the remote-tracking branch of the same name and
    /// tracks it.
    FromRemote,
    /// It is created at the commit of `HEAD`.
    FromHead,
}

/// The credential kinds a remote accepts.
#[derive(Debug, Clone, Copy)]
pub struct AllowedCredentials {
    pub user_pass_plaintext: bool,
    pub ssh_key: bool,
    pub username: bool,
}

/// Which credentials were offered already during one remote operation.
#[derive(Debug, Clone, Copy)]
pub struct CredentialState {
    pub offered_password: bool,
    pub offered_ssh_key: bool,
}

/// The credential to answer a remote's request with.
pub enum CredentialChoice {
    UserPassword(String, String),
    SshKey(String, String),
    Username(String),
    NoCredential,
}

/// The outcome of checking a remote's host key against the known hosts.
#[derive(Debug, Clone, Copy, PartialEq, Eq, Structural)]
pub enum HostKeyCheck {
    Match,
    Mismatch,
    NotFound,
    Failure,
}

/// What `ssh2` answers when the host key `key` of `host` is checked against
/// the known-hosts lines `entries` (read as OpenSSH lines into the known
/// hosts of a fresh session): `None` when a line cannot be read or libssh2
/// cannot be set up.
pub uninterp spec fn known_hosts_check(entries: Seq<Seq<char>>, host: Seq<char>, key: Seq<u8>) -> Option<HostKeyCheck>;

/// `Session::new`, `Session::known_hosts`, `KnownHosts::read_str` and
/// `KnownHosts::check` of `ssh2`: the check of `key` for `host` against
/// `entries`, named by `known_hosts_check`. A host holding a NUL panics in
/// `check`, so it is left out.
#[verifier::external_body]
fn check_known_hosts(entries: &Vec<String>, host: &str, key: &[u8]) -> (r: Option<HostKeyCheck>)
    requires
        !host@.contains('\0'),
    ensures
        r == known_hosts_check(views(entries@), host@, key@),
{
    let mut hosts = Session::new().ok()?.known_hosts().ok()?;
    for known in entries {
        hosts.read_str(known, KnownHostFileKind::OpenSSH).ok()?;
    }
    Some(match hosts.check(host, key) {
        CheckResult::Match => HostKeyCheck::Match,
        CheckResult::Mismatch => HostKeyCheck::Mismatch,
        CheckResult::NotFound => HostKeyCheck::NotFound,
        CheckResult::Failure => HostKeyCheck::Failure,
    })
}

/// `r` is how a certificate for `host` is judged given the host-key check
/// `host_key` (absent for a certificate that is no SSH host key).
pub open spec fn certificate_judged(r: Result<CertificateStatus, GitError>, host_key: Option<HostKeyCheck>, is_x509: bool, host: Seq<char>) -> bool {
    match host_key {
        Some(HostKeyCheck::Match) => r == Ok::<CertificateStatus, GitError>(CertificateStatus::CertificateOk),
        Some(HostKeyCheck::Mismatch) => r matches Err(e) && e.message@ == "ssh host key mismatch for host '"@ + host + "'"@,
        Some(HostKeyCheck::NotFound) => r matches Err(e) && e.message@ == "ssh host key not found for host '"@ + host + "'"@,
        Some(HostKeyCheck::Failure) => r matches Err(e) && e.message@ == "failed to check ssh host key for host '"@ + host + "'"@,
        None => if is_x509 {
            r == Ok::<CertificateStatus, GitError>(CertificateStatus::CertificatePassthrough)
        } else {
            r matches Err(e) && e.message@ == "invalid host certificate"@
        },
    }
}

/// How a remote's certificate is judged when it is accepted.
#[derive(Debug, Clone, Copy, PartialEq, Eq, Structural)]
pub enum CertificateStatus {
    /// The SSH host key is known.
    CertificateOk,
    /// An X.509 certificate, left to the transport's own checks.
    CertificatePassthrough,
}

/// The user name used for credentials: the configured one, else the one in
/// the URL, else `git`.
pub open spec fn credential_user(configured: Option<Seq<char>>, from_url: Option<Seq<char>>) -> Seq<char> {
    match configured {
        Some(u) => u,
        None => match from_url {
            Some(u) => u,
            None => "git"@,
        },
    }
}

/// The string of an optional string.
pub open spec fn opt_view(s: Option<String>) -> Option<Seq<char>> {
    match s {
        Some(x) => Some(x@),
        None => None,
    }
}

impl GitRepository {
    pub fn new(repository: Repository, path: &str) -> (r: GitRepository)
        ensures
            r.path@ == path@,
            r.repository == repository,
    {
        GitRepository { path: owned(path), repository }
    }

    /// The reference name of a local branch.
    pub fn local_ref(branch: &str) -> (r: String)
        ensures
            r@ == "refs/heads/"@ + branch@,
    {
        concat2("refs/heads/", branch)
    }

    /// The reference name of a branch of the remote `origin`.
    pub fn remote_ref(branch: &str) -> (r: String)
        ensures
            r@ == "refs/remotes/origin/"@ + branch@,
    {
        concat2("refs/remotes/origin/", branch)
    }

    /// Whether `branch` is the one checked out, given the short name of
    /// `HEAD` as read from the repository (or the error of reading it).
    pub fn is_current_branch(head_shorthand: Result<String, GitError>, branch: &str) -> (r: Result<bool, GitError>)
        ensures
            match head_shorthand {
                Ok(h) => r == Ok::<bool, GitError>(h@ == branch@),
                Err(e) => r matches Err(e2) && e2.message == e.message,
            },
    {
        match head_shorthand {
            Ok(h) => Ok(str_eq(h.as_str(), branch)),
            Err(e) => Err(e),
        }
    }

    /// The refspec that pushes the local branch `refname` to the same name.
    pub fn push_refspec(refname: &str) -> (r: String)
        ensures
            r@ == refname@ + ":"@ + refname@,
    {
        concat3(refname, ":", refname)
    }

    /// What deleting `branch` on the remote pushes: the refspec with an
    /// empty source and the branch as destination.
    pub fn delete_remote_branch(branch: &str) -> (r: String)
        ensures
            r@ == ":refs/heads/"@ + branch@,
    {
        concat2(":refs/heads/", branch)
    }

    /// The refspec that fetches every branch of the remote into `origin`.
    pub fn fetch_refspec() -> (r: String)
        ensures
            r@ == "+refs/heads/*:refs/remotes/origin/*"@,
    {
        owned("+refs/heads/*:refs/remotes/origin/*")
    }

    /// What a pull does once the merge analysis of the fetched commit is
    /// known: nothing, a fast-forward, or an error when a real merge would
    /// be needed.
    pub fn pull_step(up_to_date: bool, fast_forward: bool) -> (r: Result<PullStep, GitError>)
        ensures
            up_to_date ==> r == Ok::<PullStep, GitError>(PullStep::UpToDate),
            (!up_to_date && fast_forward) ==> r == Ok::<PullStep, GitError>(PullStep::FastForward),
            (!up_to_date && !fast_forward) ==> (r matches Err(e) && e.message@ == "non-fast-forward: a real merge is required"@),
    {
        if up_to_date {
            return Ok(PullStep::UpToDate);
        }
        if fast_forward {
            return Ok(PullStep::FastForward);
        }
        Err(GitError::new("non-fast-forward: a real merge is required"))
    }

    /// What to compare for a diff `from` one revision `to` another: both or
    /// neither must be given.
    pub fn diff_request(from: Option<&str>, to: Option<&str>) -> (r: Result<DiffRequest, GitError>)
        ensures
            (from is None && to is None) ==> (r matches Ok(DiffRequest::IndexToWorkdir)),
            (from is Some && to is Some) ==> (r matches Ok(DiffRequest::TreeToTree(a, b)) && a@ == from->0@ && b@ == to->0@),
            (from is Some != to is Some) ==> (r matches Err(e) && e.message@ == "both 'from' and 'to' must be provided together, or neither"@),
    {
        match (from, to) {
            (None, None) => Ok(DiffRequest::IndexToWorkdir),
            (Some(f), Some(t)) => Ok(DiffRequest::TreeToTree(owned(f), owned(t))),
            _ => Err(GitError::new("both 'from' and 'to' must be provided together, or neither")),
        }
    }

    /// One line of a patch as the diff shows it: its origin marker when that
    /// is `+`, `-` or a space, then its content.
    pub fn diff_line(origin: char, content: &str) -> (r: String)
        ensures
            (origin == '+' || origin == '-' || origin == ' ') ==> r@ == seq![origin] + content@,
            !(origin == '+' || origin == '-' || origin == ' ') ==> r@ == content@,
    {
        let mut r = String::new();
        if origin == '+' || origin == '-' || origin == ' ' {
            crate::text::push_char(&mut r, origin);
        }
        r.append(content);
        proof {
            reveal_strlit("");
        }
        r
    }

    /// Where the local branch to check out comes from, given whether it and
    /// the remote-tracking branch of the same name exist.
    pub fn branch_source(local_exists: bool, remote_exists: bool) -> (r: BranchSource)
        ensures
            local_exists ==> r == BranchSource::Existing,
            (!local_exists && remote_exists) ==> r == BranchSource::FromRemote,
            (!local_exists && !remote_exists) ==> r == BranchSource::FromHead,
    {
        if local_exists {
            BranchSource::Existing
        } else if remote_exists {
            BranchSource::FromRemote
        } else {
            BranchSource::FromHead
        }
    }

    /// The name in commit signatures: the display name, else the email.
    pub fn signature_name(&self) -> (r: String)
        ensures
            r@ == (match self.repository.display_name {
                Some(n) => n@,
                None => self.repository.email@,
            }),
    {
        match &self.repository.display_name {
            Some(n) => owned(n.as_str()),
            None => owned(self.repository.email.as_str()),
        }
    }

    /// The credential to offer when the remote asks for one of `allowed`:
    /// the password once, then the SSH key once, then the bare user name.
    pub fn choose_credential(&self, state: &mut CredentialState, username_from_url: Option<&str>, allowed: AllowedCredentials) -> (r: CredentialChoice)
        ensures
            ({
                let user = credential_user(opt_view(self.repository.username), match username_from_url { Some(u) => Some(u@), None => None });
                let pw = !old(state).offered_password && allowed.user_pass_plaintext && self.repository.password is Some;
                let key = !old(state).offered_ssh_key && allowed.ssh_key && self.repository.ssh_key is Some;
                &&& pw ==> (r matches CredentialChoice::UserPassword(u, p) && u@ == user && p@ == self.repository.password->0@
                    && final(state).offered_password && final(state).offered_ssh_key == old(state).offered_ssh_key)
                &&& (!pw && key) ==> (r matches CredentialChoice::SshKey(u, k) && u@ == user && k@ == self.repository.ssh_key->0@
                    && final(state).offered_ssh_key && final(state).offered_password == old(state).offered_password)
                &&& (!pw && !key && allowed.username) ==> (r matches CredentialChoice::Username(u) && u@ == user && *final(state) == *old(state))
                &&& (!pw && !key && !allowed.username) ==> (r matches CredentialChoice::NoCredential && *final(state) == *old(state))
            }),
            self.repository.username matches Some(u) ==> match r {
                CredentialChoice::UserPassword(v, _) => v@ == u@,
                CredentialChoice::SshKey(v, _) => v@ == u@,
                CredentialChoice::Username(v) => v@ == u@,
                CredentialChoice::NoCredential => true,
            },
            old(state).offered_password ==> !(r is UserPassword) && final(state).offered_password,
            old(state).offered_ssh_key ==> !(r is SshKey) && final(state).offered_ssh_key,
    {
        let user = match &self.repository.username {
            Some(u) => owned(u.as_str()),
            None => match username_from_url {
                Some(u) => owned(u),
                None => owned("git"),
            },
        };
        if !state.offered_password && allowed.user_pass_plaintext {
            if let Some(pw) = &self.repository.password {
                state.offered_password = true;
                return CredentialChoice::UserPassword(user, owned(pw.as_str()));
            }
        }
        if !state.offered_ssh_key && allowed.ssh_key {
            if let Some(key) = &self.repository.ssh_key {
                state.offered_ssh_key = true;
                return CredentialChoice::SshKey(user, owned(key.as_str()));
            }
        }
        if allowed.username {
            return CredentialChoice::Username(user);
        }
        CredentialChoice::NoCredential
    }

    /// How the remote's certificate for `host` is judged, with the known
    /// hosts `known_hosts`: an SSH host key (`host_key`) is checked against
    /// them, and a known-hosts line that cannot be read is an error.
    pub fn host_certificate(known_hosts: &Vec<String>, host: &str, host_key: Option<&[u8]>, is_x509: bool) -> (r: Result<CertificateStatus, GitError>)
        requires
            host_key is Some ==> !host@.contains('\0'),
        ensures
            match host_key {
                Some(key) => match known_hosts_check(views(known_hosts@), host@, key@) {
                    Some(c) => certificate_judged(r, Some(c), is_x509, host@),
                    None => r matches Err(e) && e.message@ == "failed to read known hosts for host '"@ + host@ + "'"@,
                },
                None => certificate_judged(r, None, is_x509, host@),
            },
    {
        match host_key {
            Some(key) => match check_known_hosts(known_hosts, host, key) {
                Some(c) => Self::certificate_check(Some(c), is_x509, host),
                None => Err(GitError { message: concat3("failed to read known hosts for host '", host, "'") }),
            },
            None => Self::certificate_check(None, is_x509, host),
        }
    }

    /// How the remote's certificate is judged: an SSH host key by its check
    /// against the known hosts of `host`, an X.509 certificate passed on,
    /// anything else refused.
    pub fn certificate_check(host_key: Option<HostKeyCheck>, is_x509: bool, host: &str) -> (r: Result<CertificateStatus, GitError>)
        ensures
            certificate_judged(r, host_key, is_x509, host@),
    {
        match host_key {
            Some(HostKeyCheck::Match) => Ok(CertificateStatus::CertificateOk),
            Some(HostKeyCheck::Mismatch) => Err(GitError { message: concat3("ssh host key mismatch for host '", host, "'") }),
            Some(HostKeyCheck::NotFound) => Err(GitError { message: concat3("ssh host key not found for host '", host, "'") }),
            Some(HostKeyCheck::Failure) => Err(GitError { message: concat3("failed to check ssh host key for host '", host, "'") }),
            None => {
                if is_x509 {
                    Ok(CertificateStatus::CertificatePassthrough)
                } else {
                    Err(GitError::new("invalid host certificate"))
                }
            },
        }
    }
}


/// The user name offered with credentials: a configured user name always
/// wins, whatever user name the remote's URL holds; without one, the URL's
/// user name is used, and `git` without either.
pub proof fn credential_user_law(configured: Option<Seq<char>>, from_url: Option<Seq<char>>)
    ensures
        configured matches Some(u) ==> credential_user(configured, from_url) == u,
        (configured is None && from_url is Some) ==> credential_user(configured, from_url) == from_url->0,
        (configured is None && from_url is None) ==> credential_user(configured, from_url) == "git"@,
{
}

} // verus!
