//! The coordinates of a tracked product, read from its page URL.

use vstd::prelude::*;
use vstd::string::*;

verus! {

/// What the URL parser yields for `s`: `None` where `s` is no valid absolute
/// URL, else the host (if any) and the path.
pub uninterp spec fn url_parts_of(s: Seq<char>) -> Option<(Option<Seq<char>>, Seq<char>)>;

pub open spec fn opt_view(o: Option<String>) -> Option<Seq<char>> {
    match o {
        Some(h) => Some(h@),
        None => None,
    }
}

/// Relies on reqwest's `Url::parse` (the url crate's WHATWG parser), read
/// through the parsed URL's `host_str` and `path`: the outcome depends on the
/// text alone.
#[verifier::external_body]
fn parse_url(s: &str) -> (r: Option<(Option<String>, String)>)
    ensures
        match r {
            Some((h, p)) => url_parts_of(s@) == Some((opt_view(h), p@)),
            None => url_parts_of(s@).is_none(),
        },
{
    reqwest::Url::parse(s).ok().map(|u| (u.host_str().map(|h| h.to_string()), u.path().to_string()))
}

/// Why a URL names no product.
#[derive(PartialEq, Eq, Structural, Clone, Copy, Debug)]
pub enum LocatorError {
    /// The text is no valid absolute URL, or its path does not start with `/`.
    InvalidUrl,
    /// The host is neither `tokopedia.com` nor `www.tokopedia.com`.
    UnsupportedHost,
    /// The first path segment is empty.
    MissingShopDomain,
    /// There is no second path segment, or it is empty.
    MissingProductKey,
}

/// A product's coordinates: the shop's domain and the product's key in it.
pub struct ProductLocator {
    pub shop_domain: String,
    pub product_key: String,
}

impl View for ProductLocator {
    type V = (Seq<char>, Seq<char>);

    open spec fn view(&self) -> (Seq<char>, Seq<char>) {
        (self.shop_domain@, self.product_key@)
    }
}

impl ProductLocator {
    /// Both coordinates are non-empty path segments: neither holds a `/`.
    pub open spec fn wf(&self) -> bool {
        &&& self.shop_domain@.len() > 0
        &&& self.product_key@.len() > 0
        &&& forall|i: int| 0 <= i < self.shop_domain@.len() ==> #[trigger] self.shop_domain@[i] != '/'
        &&& forall|i: int| 0 <= i < self.product_key@.len() ==> #[trigger] self.product_key@[i] != '/'
    }
}

/// The end of the path segment that starts at `i`: the index of the first `/`
/// at or after `i`, or the length of `p`.
pub open spec fn segment_end(p: Seq<char>, i: int) -> int
    decreases p.len() - i,
{
    if i < 0 || i >= p.len() || p[i] == '/' {
        if i < 0 { 0 } else if i >= p.len() { p.len() as int } else { i }
    } else {
        segment_end(p, i + 1)
    }
}

pub open spec fn is_supported_host(h: Seq<char>) -> bool {
    h == "tokopedia.com"@ || h == "www.tokopedia.com"@
}

/// The coordinates that a URL with `host` and `path` names: its first two path
/// segments, both non-empty; segments after them are ignored.
pub open spec fn locator_of(host: Option<Seq<char>>, path: Seq<char>) -> Result<
    (Seq<char>, Seq<char>),
    LocatorError,
> {
    let e1 = segment_end(path, 1);
    let e2 = segment_end(path, e1 + 1);
    if host.is_none() || !is_supported_host(host.unwrap()) {
        Err(LocatorError::UnsupportedHost)
    } else if path.len() == 0 || path[0] != '/' {
        Err(LocatorError::InvalidUrl)
    } else if e1 == 1 {
        Err(LocatorError::MissingShopDomain)
    } else if e1 == path.len() || e2 == e1 + 1 {
        Err(LocatorError::MissingProductKey)
    } else {
        Ok((path.subrange(1, e1), path.subrange(e1 + 1, e2)))
    }
}

pub open spec fn locator_of_url(url: Seq<char>) -> Result<(Seq<char>, Seq<char>), LocatorError> {
    match url_parts_of(url) {
        None => Err(LocatorError::InvalidUrl),
        Some((host, path)) => locator_of(host, path),
    }
}

fn find_segment_end(p: &str, i: usize) -> (r: usize)
    requires
        i <= p@.len(),
    ensures
        r == segment_end(p@, i as int),
        i <= r <= p@.len(),
        forall|k: int| i <= k < r ==> #[trigger] p@[k] != '/',
{
    let n = p.unicode_len();
    let mut j = i;
    while j < n && p.get_char(j) != '/'
        invariant
            i <= j <= n,
            n == p@.len(),
            segment_end(p@, i as int) == segment_end(p@, j as int),
            forall|k: int| i <= k < j ==> #[trigger] p@[k] != '/',
        decreases n - j,
    {
        j = j + 1;
    }
    j
}

/// Reads the coordinates from a URL's host and path.
pub fn locator_from_parts(host: Option<String>, path: &str) -> (r: Result<ProductLocator, LocatorError>)
    ensures
        match r {
            Ok(l) => locator_of(opt_view(host), path@) == Ok::<_, LocatorError>(l@),
            Err(e) => locator_of(opt_view(host), path@) == Err::<(Seq<char>, Seq<char>), _>(e),
        },
        r matches Ok(l) ==> l.wf(),
{
    proof {
        reveal_strlit("tokopedia.com");
        reveal_strlit("www.tokopedia.com");
    }
    let supported = match &host {
        Some(h) => *h == String::from_str("tokopedia.com") || *h == String::from_str("www.tokopedia.com"),
        None => false,
    };
    if !supported {
        return Err(LocatorError::UnsupportedHost);
    }
    let n = path.unicode_len();
    if n == 0 || path.get_char(0) != '/' {
        return Err(LocatorError::InvalidUrl);
    }
    let e1 = find_segment_end(path, 1);
    if e1 == 1 {
        return Err(LocatorError::MissingShopDomain);
    }
    if e1 == n {
        return Err(LocatorError::MissingProductKey);
    }
    let e2 = find_segment_end(path, e1 + 1);
    if e2 == e1 + 1 {
        return Err(LocatorError::MissingProductKey);
    }
    let shop_domain = String::from_str(path.substring_char(1, e1));
    let product_key = String::from_str(path.substring_char(e1 + 1, e2));
    Ok(ProductLocator { shop_domain, product_key })
}

/// Reads the coordinates of the product whose page is at `url`.
pub fn parse_locator(url: &str) -> (r: Result<ProductLocator, LocatorError>)
    ensures
        match r {
            Ok(l) => locator_of_url(url@) == Ok::<_, LocatorError>(l@),
            Err(e) => locator_of_url(url@) == Err::<(Seq<char>, Seq<char>), _>(e),
        },
        r matches Ok(l) ==> l.wf(),
{
    match parse_url(url) {
        None => Err(LocatorError::InvalidUrl),
        Some((host, path)) => locator_from_parts(host, path.as_str()),
    }
}

} // verus!
