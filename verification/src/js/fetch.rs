use vstd::prelude::*;

use crate::pattern::{compile, is_match, regex_compile, regex_is_match};
use crate::schema::strings_view;
use crate::text::{concat2, concat3, is_prefix, starts_with, str_eq, to_uppercase, uppercase};

verus! {

/// Whether `entry` of an allow-list admits `uri`: an entry that starts
/// with `^` is a regex that must compile and match, any other must equal
/// the URI.
pub open spec fn url_entry_admits(entry: Seq<char>, uri: Seq<char>) -> bool {
    if is_prefix("^"@, entry) {
        regex_compile(entry) is Ok && regex_is_match(entry, uri)
    } else {
        entry == uri
    }
}

/// Whether an allow-list of URLs admits `uri`; an empty list admits all.
pub open spec fn url_allowed(urls: Seq<Seq<char>>, uri: Seq<char>) -> bool {
    urls.len() == 0 || exists|i: int| 0 <= i < urls.len() && url_entry_admits(#[trigger] urls[i], uri)
}

/// Whether an allow-list of upper-cased methods admits `method`; an empty
/// list admits all.
pub open spec fn method_allowed(methods: Seq<Seq<char>>, method: Seq<char>) -> bool {
    methods.len() == 0 || methods.contains(uppercase(method))
}

/// The filter in front of a script's `fetch`: which URLs and methods it may
/// use.
#[derive(Debug, Clone)]
pub struct FilteredFetcher {
    allowed_urls: Vec<String>,
    allowed_methods: Vec<String>,
}

impl FilteredFetcher {
    pub closed spec fn urls(&self) -> Seq<Seq<char>> {
        strings_view(self.allowed_urls@)
    }

    /// The allowed methods, upper-cased.
    pub closed spec fn methods(&self) -> Seq<Seq<char>> {
        strings_view(self.allowed_methods@)
    }

    /// Allows `allowed_urls` and `allowed_methods` (compared upper-cased).
    pub fn new(allowed_urls: Vec<String>, allowed_methods: Vec<String>) -> (f: FilteredFetcher)
        ensures
            f.urls() == strings_view(allowed_urls@),
            f.methods() == strings_view(allowed_methods@).map_values(|m: Seq<char>| uppercase(m)),
    {
        let mut upper: Vec<String> = Vec::new();
        let mut i: usize = 0;
        while i < allowed_methods.len()
            invariant
                i <= allowed_methods@.len(),
                upper@.len() == i,
                forall|k: int| 0 <= k < i ==> #[trigger] upper@[k]@ == uppercase(allowed_methods@[k]@),
            decreases allowed_methods.len() - i,
        {
            upper.push(to_uppercase(allowed_methods[i].as_str()));
            i = i + 1;
        }
        let f = FilteredFetcher { allowed_urls, allowed_methods: upper };
        assert(f.methods() =~= strings_view(allowed_methods@).map_values(|m: Seq<char>| uppercase(m)));
        f
    }

    /// Whether the script may request `uri`.
    pub fn is_allowed_url(&self, uri: &str) -> (b: bool)
        ensures
            b == url_allowed(self.urls(), uri@),
    {
        if self.allowed_urls.len() == 0 {
            return true;
        }
        let mut i: usize = 0;
        while i < self.allowed_urls.len()
            invariant
                i <= self.allowed_urls@.len(),
                self.urls().len() == self.allowed_urls@.len(),
                forall|k: int| 0 <= k < self.allowed_urls@.len() ==> #[trigger] self.urls()[k] == self.allowed_urls@[k]@,
                forall|k: int| 0 <= k < i ==> !url_entry_admits(#[trigger] self.urls()[k], uri@),
            decreases self.allowed_urls.len() - i,
        {
            let url = self.allowed_urls[i].as_str();
            assert(self.urls()[i as int] == url@);
            if starts_with(url, "^") {
                match compile(url) {
                    Ok(re) => {
                        if is_match(&re, uri) {
                            return true;
                        }
                    },
                    Err(_) => {},
                }
            } else if str_eq(url, uri) {
                return true;
            }
            i = i + 1;
        }
        false
    }

    /// Whether the script may use the HTTP method `method`.
    pub fn is_allowed_method(&self, method: &str) -> (b: bool)
        ensures
            b == method_allowed(self.methods(), method@),
    {
        if self.allowed_methods.len() == 0 {
            return true;
        }
        let upper = to_uppercase(method);
        let mut i: usize = 0;
        while i < self.allowed_methods.len()
            invariant
                i <= self.allowed_methods@.len(),
                self.methods().len() == self.allowed_methods@.len(),
                forall|k: int| 0 <= k < self.allowed_methods@.len() ==> #[trigger] self.methods()[k] == self.allowed_methods@[k]@,
                upper@ == uppercase(method@),
                forall|k: int| 0 <= k < i ==> #[trigger] self.methods()[k] != upper@,
            decreases self.allowed_methods.len() - i,
        {
            if str_eq(self.allowed_methods[i].as_str(), upper.as_str()) {
                assert(self.methods()[i as int] == upper@);
                assert(self.methods().contains(upper@));
                return true;
            }
            i = i + 1;
        }
        false
    }

    /// The check made when a script resolves a URI: an error text when the
    /// URI is not allowed.
    pub fn resolve_uri(&self, uri: &str) -> (r: Result<(), String>)
        ensures
            url_allowed(self.urls(), uri@) ==> r is Ok,
            !url_allowed(self.urls(), uri@) ==> (r matches Err(m) && m@ == "URL not allowed for fetch: "@ + uri@),
    {
        if self.is_allowed_url(uri) {
            Ok(())
        } else {
            Err(concat2("URL not allowed for fetch: ", uri))
        }
    }

    /// The check made before a request with `method` to `uri` is sent: the
    /// URL first, then the method, both with the method upper-cased.
    pub fn check_request(&self, method: &str, uri: &str) -> (r: Result<(), String>)
        ensures
            !url_allowed(self.urls(), uri@) ==> (r matches Err(m) && m@ == "URL not allowed for fetch: "@ + uppercase(method@) + " "@ + uri@),
            url_allowed(self.urls(), uri@) && !method_allowed(self.methods(), uppercase(method@)) ==> (r matches Err(m) && m@ == "Method not allowed for fetch: "@ + uppercase(method@) + " "@ + uri@),
            url_allowed(self.urls(), uri@) && method_allowed(self.methods(), uppercase(method@)) ==> r is Ok,
    {
        let upper = to_uppercase(method);
        if !self.is_allowed_url(uri) {
            let head = concat3("URL not allowed for fetch: ", upper.as_str(), " ");
            return Err(concat2(head.as_str(), uri));
        }
        if !self.is_allowed_method(upper.as_str()) {
            let head = concat3("Method not allowed for fetch: ", upper.as_str(), " ");
            return Err(concat2(head.as_str(), uri));
        }
        Ok(())
    }
}


/// With nothing granted explicitly (empty lists), every URL and every
/// method is allowed.
pub proof fn empty_allow_lists_admit_all(uri: Seq<char>, method: Seq<char>)
    ensures
        url_allowed(Seq::empty(), uri),
        method_allowed(Seq::empty(), method),
{
}

/// A URL listed verbatim (not starting with `^`) is allowed.
pub proof fn listed_url_admitted(urls: Seq<Seq<char>>, i: int)
    requires
        0 <= i < urls.len(),
        !is_prefix("^"@, urls[i]),
    ensures
        url_allowed(urls, urls[i]),
{
    assert(url_entry_admits(urls[i], urls[i]));
}

} // verus!
