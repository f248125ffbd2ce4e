pub mod base64;
pub mod fetch;

use vstd::prelude::*;

use crate::js::fetch::FilteredFetcher;
use crate::schema::{copy_strings, strings_view};

verus! {

/// Where a script may send requests: URLs (exact, or a regex when they
/// start with `^`) and HTTP methods; an empty list allows all.
#[derive(Debug, Clone)]
pub struct FetchScope {
    pub urls: Vec<String>,
    pub methods: Vec<String>,
}

/// What a script may reach beyond its own directory; without `fetch` it
/// gets no `fetch` function at all.
#[derive(Debug, Clone)]
pub struct Scopes {
    pub fetch: Option<FetchScope>,
}

/// The contents of scopes: the allowed URLs and methods, if fetch is
/// granted.
pub open spec fn scopes_view(s: Scopes) -> Option<(Seq<Seq<char>>, Seq<Seq<char>>)> {
    match s.fetch {
        Some(f) => Some((strings_view(f.urls@), strings_view(f.methods@))),
        None => None,
    }
}

impl Scopes {
    /// A copy of these scopes.
    pub fn duplicate(&self) -> (r: Scopes)
        ensures
            scopes_view(r) == scopes_view(*self),
    {
        match &self.fetch {
            Some(f) => Scopes { fetch: Some(FetchScope { urls: copy_strings(&f.urls), methods: copy_strings(&f.methods) }) },
            None => Scopes { fetch: None },
        }
    }
}

/// A script to run: the directory its modules are loaded from, the file of
/// its entry module, and its scopes.
pub struct JavaScript {
    directory: String,
    entrypoint: String,
    scopes: Scopes,
}

impl JavaScript {
    pub closed spec fn directory_view(&self) -> Seq<char> {
        self.directory@
    }

    pub closed spec fn entrypoint_view(&self) -> Seq<char> {
        self.entrypoint@
    }

    pub closed spec fn scopes_of(&self) -> Option<(Seq<Seq<char>>, Seq<Seq<char>>)> {
        scopes_view(self.scopes)
    }

    pub fn new(directory: String, entrypoint: String, scopes: Scopes) -> (js: JavaScript)
        ensures
            js.directory_view() == directory@,
            js.entrypoint_view() == entrypoint@,
            js.scopes_of() == scopes_view(scopes),
    {
        JavaScript { directory, entrypoint, scopes }
    }

    pub fn directory(&self) -> (r: &str)
        ensures
            r@ == self.directory_view(),
    {
        self.directory.as_str()
    }

    pub fn entrypoint(&self) -> (r: &str)
        ensures
            r@ == self.entrypoint_view(),
    {
        self.entrypoint.as_str()
    }

    /// Whether the script gets a `fetch` function.
    pub fn fetch_enabled(&self) -> (b: bool)
        ensures
            b == self.scopes_of() is Some,
    {
        self.scopes.fetch.is_some()
    }

    /// The filter that the script's `fetch` goes through: the granted URLs
    /// and methods, or no restriction when fetch is not granted.
    pub fn get_fetcher(&self) -> (f: FilteredFetcher)
        ensures
            match self.scopes_of() {
                Some((urls, methods)) => f.urls() == urls && f.methods() == methods.map_values(|m: Seq<char>| crate::text::uppercase(m)),
                None => f.urls().len() == 0 && f.methods().len() == 0,
            },
    {
        match &self.scopes.fetch {
            Some(scope) => FilteredFetcher::new(copy_strings(&scope.urls), copy_strings(&scope.methods)),
            None => FilteredFetcher::new(Vec::new(), Vec::new()),
        }
    }
}

} // verus!
