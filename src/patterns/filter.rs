//! Filter: criteria that each keep a subset of a list of URLs, in order.
use vstd::prelude::*;

verus! {

/// A URL reduced to what the filters look at.
#[derive(Debug, Clone)]
pub struct HttpUrl {
    protocol: String,
    base_url: String,
    is_static: bool,
}

impl View for HttpUrl {
    type V = (Seq<char>, Seq<char>, bool);

    /// The protocol, the address and whether the URL names a static resource.
    closed spec fn view(&self) -> (Seq<char>, Seq<char>, bool) {
        (self.protocol@, self.base_url@, self.is_static)
    }
}

impl HttpUrl {
    /// A URL with the given parts.
    pub fn new(protocol: &str, base_url: &str, is_static: bool) -> (r: Self)
        ensures
            r@ == (protocol@, base_url@, is_static),
    {
        HttpUrl { protocol: protocol.to_owned(), base_url: base_url.to_owned(), is_static }
    }

    /// The protocol.
    pub fn get_protocol(&self) -> (r: &str)
        ensures
            r@ == self@.0,
    {
        self.protocol.as_str()
    }

    /// The address.
    pub fn get_base_url(&self) -> (r: &str)
        ensures
            r@ == self@.1,
    {
        self.base_url.as_str()
    }

    /// Whether the URL names a static resource.
    pub fn get_is_static(&self) -> (r: &bool)
        ensures
            *r == self@.2,
    {
        &self.is_static
    }
}

/// Whether `url` is static exactly when `want_static` holds and, if `https_only` holds, is
/// served over `https`.
pub open spec fn selected(url: HttpUrl, want_static: bool, https_only: bool) -> bool {
    url@.2 == want_static && (https_only ==> url@.0 == "https"@)
}

/// The URLs of `urls` that are `selected`, in their order.
pub open spec fn kept(urls: Seq<HttpUrl>, want_static: bool, https_only: bool) -> Seq<HttpUrl>
    decreases urls.len(),
{
    if urls.len() == 0 {
        Seq::empty()
    } else {
        let rest = kept(urls.drop_first(), want_static, https_only);
        if selected(urls[0], want_static, https_only) {
            seq![urls[0]] + rest
        } else {
            rest
        }
    }
}

/// Moves the selected URLs of `urls` into a new list, in order.
fn select(urls: Vec<HttpUrl>, want_static: bool, https_only: bool) -> (r: Vec<HttpUrl>)
    ensures
        r@ == kept(urls@, want_static, https_only),
{
    let mut urls = urls;
    let ghost all = urls@;
    let mut res: Vec<HttpUrl> = Vec::new();
    while urls.len() > 0
        invariant
            kept(all, want_static, https_only) == res@ + kept(urls@, want_static, https_only),
        decreases urls@.len(),
    {
        let ghost before = urls@;
        let ghost done = res@;
        let url = urls.remove(0);
        assert(before.drop_first() =~= urls@);
        let mut ok = *url.get_is_static() == want_static;
        if https_only {
            let protocol = url.get_protocol().to_owned();
            let https = "https".to_owned();
            ok = ok && protocol == https;
        }
        if ok {
            res.push(url);
            assert(done + kept(before, want_static, https_only) =~= res@ + kept(
                urls@,
                want_static,
                https_only,
            ));
        }
    }
    assert(res@ + kept(urls@, want_static, https_only) =~= res@);
    res
}

/// A criterion that keeps some URLs of a list, in their order.
pub trait Filter {
    /// The URLs of `urls` that the criterion keeps, in their order.
    fn filter(&self, urls: Vec<HttpUrl>) -> Vec<HttpUrl>;
}

/// Keeps the URLs that are not static.
pub struct ApiFilter;

impl Filter for ApiFilter {
    fn filter(&self, urls: Vec<HttpUrl>) -> (r: Vec<HttpUrl>)
        ensures
            r@ == kept(urls@, false, false),
    {
        select(urls, false, false)
    }
}

/// Keeps the static URLs.
pub struct StaticFilter;

impl Filter for StaticFilter {
    fn filter(&self, urls: Vec<HttpUrl>) -> (r: Vec<HttpUrl>)
        ensures
            r@ == kept(urls@, true, false),
    {
        select(urls, true, false)
    }
}

/// Keeps the static URLs served over `https`.
pub struct HttpsStaticFilter;

impl Filter for HttpsStaticFilter {
    fn filter(&self, urls: Vec<HttpUrl>) -> (r: Vec<HttpUrl>)
        ensures
            r@ == kept(urls@, true, true),
    {
        select(urls, true, true)
    }
}

} // verus!
