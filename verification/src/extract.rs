//! Discovery of dependent resources in a seed page.
//!
//! The page's markup is scanned for `link` and `img` elements; every `link`
//! `href` except identity links (`rel="me"`) and every `img` `src` is a
//! dependent reference. A root-relative reference (one that begins with `/`)
//! is rewritten against the seed's scheme and host; every other reference is
//! passed through unchanged.

use soup::{NodeExt, QueryBuilderExt, Soup};
use vstd::prelude::*;

verus! {

/// One `link` element reduced to what discovery reads: its `rel` attribute
/// and its `href` attribute, each absent when the element lacks it.
pub type LinkAttrs = (Option<Seq<char>>, Option<Seq<char>>);

/// The `rel` and `href` attributes of every `link` element of a document,
/// in document order; an attribute is absent when the element lacks it.
pub uninterp spec fn link_attrs(html: Seq<char>) -> Seq<LinkAttrs>;

/// The `src` attribute of every `img` element of a document, in document
/// order.
pub uninterp spec fn img_srcs(html: Seq<char>) -> Seq<Option<Seq<char>>>;

/// The text of a byte payload read as UTF-8, with invalid sequences
/// replaced.
pub uninterp spec fn lossy_text(bytes: Seq<u8>) -> Seq<char>;

/// The scheme and host of a URL text, when it parses as an absolute URL
/// that has a host.
pub uninterp spec fn parsed_base(url: Seq<char>) -> Option<(Seq<char>, Seq<char>)>;

/// Relies on soup: `Soup::new` parses text as HTML tolerantly, a
/// `tag("link")` query's `find_all` yields every `link` element in document
/// order, and `get` returns an element's attribute value when it has one.
#[verifier::external_body]
fn find_link_attrs(html: &str) -> (r: Vec<(Option<String>, Option<String>)>)
    ensures
        r.deep_view() == link_attrs(html@),
{
    let soup = Soup::new(html);
    let mut out = Vec::new();
    for node in soup.tag("link").find_all() {
        out.push((node.get("rel"), node.get("href")));
    }
    out
}

/// Relies on soup: as for `link` elements, a `tag("img")` query's `find_all`
/// yields every `img` element in document order.
#[verifier::external_body]
fn find_img_srcs(html: &str) -> (r: Vec<Option<String>>)
    ensures
        r.deep_view() == img_srcs(html@),
{
    let soup = Soup::new(html);
    let mut out = Vec::new();
    for node in soup.tag("img").find_all() {
        out.push(node.get("src"));
    }
    out
}

/// Relies on `String::from_utf8_lossy`: the text depends on the bytes
/// alone, and invalid sequences are replaced rather than reported.
#[verifier::external_body]
fn page_text(bytes: &Vec<u8>) -> (r: String)
    ensures
        r@ == lossy_text(bytes@),
{
    String::from_utf8_lossy(bytes.as_slice()).into_owned()
}

/// Relies on url: `Url::parse` accepts or rejects a URL by its text alone,
/// and `scheme` and `host_str` read the parsed components.
#[verifier::external_body]
fn parse_scheme_host(url: &str) -> (r: Option<(String, String)>)
    ensures
        r.deep_view() == parsed_base(url@),
{
    match url::Url::parse(url) {
        Ok(u) => match u.host_str() {
            Some(h) => {
                let host = String::from(h);
                Some((String::from(u.scheme()), host))
            },
            None => None,
        },
        Err(_) => None,
    }
}

/// Rewrites a root-relative reference against the base scheme and host;
/// leaves every other reference unchanged.
pub open spec fn normalize_spec(scheme: Seq<char>, host: Seq<char>, r: Seq<char>) -> Seq<char> {
    if r.len() > 0 && r[0] == '/' {
        scheme + "://"@ + host + r
    } else {
        r
    }
}

/// A `link` element contributes a dependent exactly when it has an `href`
/// and its `rel` attribute is not exactly `me`.
pub open spec fn link_is_kept(l: LinkAttrs) -> bool {
    l.1 is Some && l.0 != Some("me"@)
}

/// What one `link` element adds to the dependent list.
pub open spec fn link_contribution(scheme: Seq<char>, host: Seq<char>, l: LinkAttrs) -> Seq<
    Seq<char>,
> {
    if link_is_kept(l) {
        seq![normalize_spec(scheme, host, l.1->0)]
    } else {
        Seq::empty()
    }
}

/// The dependents contributed by a sequence of `link` elements, in order.
pub open spec fn link_dependents(
    scheme: Seq<char>,
    host: Seq<char>,
    links: Seq<LinkAttrs>,
) -> Seq<Seq<char>>
    decreases links.len(),
{
    if links.len() == 0 {
        Seq::empty()
    } else {
        link_dependents(scheme, host, links.drop_last()) + link_contribution(
            scheme,
            host,
            links.last(),
        )
    }
}

/// What one `img` element adds to the dependent list: its `src`, normalized,
/// when it has one.
pub open spec fn img_contribution(scheme: Seq<char>, host: Seq<char>, src: Option<Seq<char>>) -> Seq<
    Seq<char>,
> {
    match src {
        Some(s) => seq![normalize_spec(scheme, host, s)],
        None => Seq::empty(),
    }
}

/// The dependents contributed by a sequence of `img` elements, in order.
pub open spec fn img_dependents(
    scheme: Seq<char>,
    host: Seq<char>,
    imgs: Seq<Option<Seq<char>>>,
) -> Seq<Seq<char>>
    decreases imgs.len(),
{
    if imgs.len() == 0 {
        Seq::empty()
    } else {
        img_dependents(scheme, host, imgs.drop_last()) + img_contribution(
            scheme,
            host,
            imgs.last(),
        )
    }
}

/// The full discovery order: link contributions first, then image
/// contributions, each group in document order.
pub open spec fn dependents_spec(
    scheme: Seq<char>,
    host: Seq<char>,
    links: Seq<LinkAttrs>,
    imgs: Seq<Option<Seq<char>>>,
) -> Seq<Seq<char>> {
    link_dependents(scheme, host, links) + img_dependents(scheme, host, imgs)
}

/// Rewrites a root-relative reference to `<scheme>://<host><reference>`;
/// returns any other reference unchanged.
pub fn normalize_reference(scheme: &str, host: &str, reference: String) -> (r: String)
    ensures
        r@ == normalize_spec(scheme@, host@, reference@),
{
    if reference.unicode_len() > 0 && reference.as_str().get_char(0) == '/' {
        let mut out = String::new();
        out.append(scheme);
        out.append("://");
        out.append(host);
        out.append(reference.as_str());
        out
    } else {
        reference
    }
}

/// Turns the scanned `link` and `img` attributes into the dependent URL
/// list: link hrefs first (identity links skipped), then image srcs, each
/// group in document order, every root-relative reference rewritten.
pub fn collect_dependents(
    scheme: &str,
    host: &str,
    links: &Vec<(Option<String>, Option<String>)>,
    imgs: &Vec<Option<String>>,
) -> (r: Vec<String>)
    ensures
        r.deep_view() == dependents_spec(scheme@, host@, links.deep_view(), imgs.deep_view()),
{
    let ghost lv = links.deep_view();
    let ghost iv = imgs.deep_view();
    let me = String::from_str("me");
    let mut out: Vec<String> = Vec::new();
    proof {
        assert(out.deep_view() =~= link_dependents(scheme@, host@, lv.take(0)));
    }
    let mut i: usize = 0;
    while i < links.len()
        invariant
            i <= links@.len(),
            lv == links.deep_view(),
            me@ == "me"@,
            out.deep_view() == link_dependents(scheme@, host@, lv.take(i as int)),
        decreases links@.len() - i,
    {
        let ghost prev = out.deep_view();
        let l = &links[i];
        match (&l.0, &l.1) {
            (Some(rel), Some(h)) => {
                if !(*rel == me) {
                    out.push(normalize_reference(scheme, host, h.clone()));
                }
            },
            (None, Some(h)) => {
                out.push(normalize_reference(scheme, host, h.clone()));
            },
            _ => {},
        }
        proof {
            let t = i as int;
            assert(lv[t] == (links@[t].0.deep_view(), links@[t].1.deep_view()));
            assert(lv.take(t + 1).drop_last() =~= lv.take(t));
            assert(lv.take(t + 1).last() == lv[t]);
            assert(out.deep_view() =~= prev + link_contribution(scheme@, host@, lv[t]));
        }
        i = i + 1;
    }
    proof {
        assert(lv.take(links@.len() as int) =~= lv);
    }
    let mut j: usize = 0;
    while j < imgs.len()
        invariant
            j <= imgs@.len(),
            lv == links.deep_view(),
            iv == imgs.deep_view(),
            out.deep_view() == link_dependents(scheme@, host@, lv) + img_dependents(
                scheme@,
                host@,
                iv.take(j as int),
            ),
        decreases imgs@.len() - j,
    {
        let ghost prev = out.deep_view();
        match &imgs[j] {
            Some(s) => {
                out.push(normalize_reference(scheme, host, s.clone()));
            },
            None => {},
        }
        proof {
            let t = j as int;
            assert(iv[t] == imgs@[t].deep_view());
            assert(iv.take(t + 1).drop_last() =~= iv.take(t));
            assert(iv.take(t + 1).last() == iv[t]);
            assert(out.deep_view() =~= prev + img_contribution(scheme@, host@, iv[t]));
        }
        j = j + 1;
    }
    proof {
        assert(iv.take(imgs@.len() as int) =~= iv);
    }
    out
}

/// Scans a page's markup and returns its dependent URL list: every `link`
/// href except identity links, then every `img` src, normalized against the
/// base scheme and host.
pub fn extract_dependents(scheme: &str, host: &str, html: &str) -> (r: Vec<String>)
    ensures
        r.deep_view() == dependents_spec(scheme@, host@, link_attrs(html@), img_srcs(html@)),
{
    let links = find_link_attrs(html);
    let imgs = find_img_srcs(html);
    collect_dependents(scheme, host, &links, &imgs)
}

/// Resolves the base of a crawl: the scheme and host of the seed URL, or
/// nothing when the text does not parse as an absolute URL with a host. A
/// crawl of a seed without a base aborts before any fetch.
pub fn seed_base(seed_url: &str) -> (r: Option<(String, String)>)
    ensures
        r.deep_view() == parsed_base(seed_url@),
{
    parse_scheme_host(seed_url)
}

/// Discovers the dependent URLs of a seed page from the seed's URL text and
/// its raw body: none when the seed URL does not parse as an absolute URL
/// with a host, otherwise the full discovery list for the page's text.
pub fn discover_dependents(seed_url: &str, body: &Vec<u8>) -> (r: Option<Vec<String>>)
    ensures
        r is Some <==> parsed_base(seed_url@) is Some,
        parsed_base(seed_url@) matches Some(base) ==> r matches Some(urls)
            && urls.deep_view() == dependents_spec(
            base.0,
            base.1,
            link_attrs(lossy_text(body@)),
            img_srcs(lossy_text(body@)),
        ),
{
    match parse_scheme_host(seed_url) {
        None => None,
        Some((scheme, host)) => {
            let text = page_text(body);
            Some(extract_dependents(scheme.as_str(), host.as_str(), text.as_str()))
        },
    }
}

/// Concatenating two `link` sequences concatenates their dependents.
pub proof fn lemma_link_deps_concat(
    scheme: Seq<char>,
    host: Seq<char>,
    a: Seq<LinkAttrs>,
    b: Seq<LinkAttrs>,
)
    ensures
        link_dependents(scheme, host, a + b) == link_dependents(scheme, host, a)
            + link_dependents(scheme, host, b),
    decreases b.len(),
{
    if b.len() == 0 {
        assert(a + b =~= a);
        assert(link_dependents(scheme, host, a) + link_dependents(scheme, host, b)
            =~= link_dependents(scheme, host, a));
    } else {
        assert((a + b).drop_last() =~= a + b.drop_last());
        assert((a + b).last() == b.last());
        lemma_link_deps_concat(scheme, host, a, b.drop_last());
        assert(link_dependents(scheme, host, a) + link_dependents(scheme, host, b)
            =~= link_dependents(scheme, host, a) + link_dependents(scheme, host, b.drop_last())
            + link_contribution(scheme, host, b.last()));
    }
}

/// The dependents of one `link` element alone.
proof fn lemma_link_deps_singleton(scheme: Seq<char>, host: Seq<char>, l: LinkAttrs)
    ensures
        link_dependents(scheme, host, seq![l]) == link_contribution(scheme, host, l),
{
    let s = seq![l];
    assert(s.drop_last() =~= Seq::<LinkAttrs>::empty());
    assert(link_dependents(scheme, host, s.drop_last()) =~= Seq::<Seq<char>>::empty());
    assert(s.last() == l);
    assert(link_dependents(scheme, host, s) =~= link_contribution(scheme, host, l));
}

/// Law: an identity link contributes nothing. A `link` element whose `rel`
/// attribute is exactly `me` never adds a dependent URL: the discovery list
/// equals the one computed without that element.
pub proof fn lemma_rel_me_excluded(
    scheme: Seq<char>,
    host: Seq<char>,
    links: Seq<LinkAttrs>,
    k: int,
)
    requires
        0 <= k < links.len(),
        links[k].0 == Some("me"@),
    ensures
        link_dependents(scheme, host, links) == link_dependents(scheme, host, links.remove(k)),
{
    let a = links.take(k);
    let b = links.skip(k + 1);
    assert(links =~= a + (seq![links[k]] + b));
    assert(links.remove(k) =~= a + b);
    lemma_link_deps_concat(scheme, host, a, seq![links[k]] + b);
    lemma_link_deps_concat(scheme, host, seq![links[k]], b);
    lemma_link_deps_concat(scheme, host, a, b);
    lemma_link_deps_singleton(scheme, host, links[k]);
    assert(link_dependents(scheme, host, links) =~= link_dependents(
        scheme,
        host,
        links.remove(k),
    ));
}

/// Law: any other `link` element with an `href` contributes exactly its
/// normalized reference, in place: the discovery list splits around it.
pub proof fn lemma_link_contributes(
    scheme: Seq<char>,
    host: Seq<char>,
    links: Seq<LinkAttrs>,
    k: int,
)
    requires
        0 <= k < links.len(),
        links[k].1 is Some,
        links[k].0 != Some("me"@),
    ensures
        link_dependents(scheme, host, links) == link_dependents(scheme, host, links.take(k))
            + seq![normalize_spec(scheme, host, links[k].1->0)] + link_dependents(
            scheme,
            host,
            links.skip(k + 1),
        ),
{
    let a = links.take(k);
    let b = links.skip(k + 1);
    assert(links =~= a + (seq![links[k]] + b));
    lemma_link_deps_concat(scheme, host, a, seq![links[k]] + b);
    lemma_link_deps_concat(scheme, host, seq![links[k]], b);
    lemma_link_deps_singleton(scheme, host, links[k]);
}

} // verus!
