//! Navigation links, and the links of a page of a listing.

use vstd::prelude::*;
use crate::foreign::{encode_pairs, form_encoded};
use crate::paging::{pairs_of, Page, PageQuery, PageQueryModel};

verus! {

/// The relation of a link's target to the document that carries the link.
#[derive(Clone, Copy, Debug, PartialEq, Eq, Structural)]
pub enum LinkRel {
    SelfLink,
    Prev,
    Next,
    Processes,
    JobList,
}

impl LinkRel {
    pub open spec fn label(self) -> Seq<char> {
        match self {
            LinkRel::SelfLink => "self"@,
            LinkRel::Prev => "prev"@,
            LinkRel::Next => "next"@,
            LinkRel::Processes => "http://www.opengis.net/def/rel/ogc/1.0/processes"@,
            LinkRel::JobList => "http://www.opengis.net/def/rel/ogc/1.0/job-list"@,
        }
    }

    pub fn as_str(&self) -> (r: &'static str)
        ensures
            r@ == self.label(),
    {
        match self {
            LinkRel::SelfLink => "self",
            LinkRel::Prev => "prev",
            LinkRel::Next => "next",
            LinkRel::Processes => "http://www.opengis.net/def/rel/ogc/1.0/processes",
            LinkRel::JobList => "http://www.opengis.net/def/rel/ogc/1.0/job-list",
        }
    }
}

/// The media type of a link's target. Every payload of this service is JSON.
#[derive(Clone, Copy, Debug, PartialEq, Eq, Structural)]
pub enum MediaType {
    Json,
}

impl MediaType {
    pub open spec fn label(self) -> Seq<char> {
        "application/json"@
    }

    pub fn as_str(&self) -> (r: &'static str)
        ensures
            r@ == self.label(),
    {
        "application/json"
    }
}

/// The mathematical content of a [`Link`].
pub struct LinkModel {
    pub href: Seq<char>,
    pub rel: LinkRel,
    pub mime: MediaType,
    pub title: Option<Seq<char>>,
}

/// A navigation link.
#[derive(Debug)]
pub struct Link {
    pub href: String,
    pub rel: LinkRel,
    pub mime: MediaType,
    pub title: Option<String>,
}

impl View for Link {
    type V = LinkModel;

    open spec fn view(&self) -> LinkModel {
        LinkModel {
            href: self.href@,
            rel: self.rel,
            mime: self.mime,
            title: match self.title {
                Some(t) => Some(t@),
                None => None,
            },
        }
    }
}

impl Link {
    /// An untitled JSON link.
    pub fn new(href: String, rel: LinkRel) -> (r: Link)
        ensures
            r@ == (LinkModel { href: href@, rel, mime: MediaType::Json, title: None }),
    {
        Link { href, rel, mime: MediaType::Json, title: None }
    }

    /// The same link under a title.
    pub fn titled(self, title: &str) -> (r: Link)
        ensures
            r@ == (LinkModel { title: Some(title@), ..self@ }),
    {
        Link { href: self.href, rel: self.rel, mime: self.mime, title: Some(String::from_str(title)) }
    }
}

/// A resource address with a query string: the resource alone where the
/// query string is empty, else the two joined by `?`.
pub open spec fn href_of(resource: Seq<char>, query_string: Seq<char>) -> Seq<char> {
    if query_string.len() == 0 {
        resource
    } else {
        resource + seq!['?'] + query_string
    }
}

/// The address of a resource under a structured query.
pub open spec fn query_href(resource: Seq<char>, q: PageQueryModel) -> Seq<char> {
    href_of(resource, form_encoded(pairs_of(q)))
}

/// The link that leads to a listing under a structured query.
pub open spec fn page_link(resource: Seq<char>, q: PageQueryModel, rel: LinkRel) -> LinkModel {
    LinkModel { href: query_href(resource, q), rel, mime: MediaType::Json, title: None }
}

/// The address of one item of a collection.
pub open spec fn item_href(resource: Seq<char>, id: Seq<char>) -> Seq<char> {
    resource + seq!['/'] + id
}

/// The address of the item `id` of the collection at `resource`.
pub fn join_item(resource: &str, id: &str) -> (r: String)
    ensures
        r@ == item_href(resource@, id@),
{
    proof {
        reveal_strlit("/");
        assert("/"@ =~= seq!['/']);
    }
    let mut href = String::from_str(resource);
    href.append("/");
    href.append(id);
    href
}

/// Joins a resource address and an encoded query string.
pub fn join_href(resource: &str, query_string: &str) -> (r: String)
    ensures
        r@ == href_of(resource@, query_string@),
{
    let mut href = String::from_str(resource);
    if !query_string.is_empty() {
        proof {
            reveal_strlit("?");
            assert("?"@ =~= seq!['?']);
        }
        href.append("?");
        href.append(query_string);
    }
    href
}

/// The link to a listing under a structured query. The query string is
/// written afresh from the query, never cut out of a request.
pub fn link_to(resource: &str, query: &PageQuery, rel: LinkRel) -> (r: Link)
    ensures
        r@ == page_link(resource@, query@, rel),
{
    let pairs = query.to_pairs();
    let encoded = encode_pairs(&pairs);
    Link::new(join_href(resource, encoded.as_str()), rel)
}

/// The navigation links of one page of a listing.
#[derive(Debug)]
pub struct PageLinks {
    pub this: Link,
    pub prev: Option<Link>,
    pub next: Option<Link>,
}

impl PageLinks {
    /// The links in the order self, previous, next.
    pub open spec fn listed(self) -> Seq<LinkModel> {
        seq![self.this@] + (match self.prev {
            Some(l) => seq![l@],
            None => Seq::<LinkModel>::empty(),
        }) + (match self.next {
            Some(l) => seq![l@],
            None => Seq::<LinkModel>::empty(),
        })
    }

    pub fn into_vec(self) -> (r: Vec<Link>)
        ensures
            link_views(r@) == self.listed(),
    {
        let ghost listed = self.listed();
        let mut out: Vec<Link> = Vec::new();
        out.push(self.this);
        if let Some(l) = self.prev {
            out.push(l);
        }
        if let Some(l) = self.next {
            out.push(l);
        }
        assert(link_views(out@) =~= listed);
        out
    }
}

/// The views of a list of links.
pub open spec fn link_views(links: Seq<Link>) -> Seq<LinkModel> {
    links.map_values(|l: Link| l@)
}

/// The links of a page of a listing, in the order self, previous, next.
pub open spec fn page_links_model(
    resource: Seq<char>,
    q: PageQueryModel,
    page: Page,
    total: u64,
) -> Seq<LinkModel> {
    seq![page_link(resource, q, LinkRel::SelfLink)] + (if page.has_prev() {
        seq![page_link(resource, q.at_offset(page.prev_start() as u64), LinkRel::Prev)]
    } else {
        Seq::<LinkModel>::empty()
    }) + (if page.has_next(total) {
        seq![page_link(resource, q.at_offset(page.next_start() as u64), LinkRel::Next)]
    } else {
        Seq::<LinkModel>::empty()
    })
}

/// The one link of a document to itself.
pub open spec fn self_link(href: Seq<char>) -> LinkModel {
    LinkModel { href, rel: LinkRel::SelfLink, mime: MediaType::Json, title: None }
}

/// Builds the links of a page: `self` for the query as issued; `prev` where
/// the window does not start the listing, `limit` back but not before zero;
/// `next` where `offset + limit` lies below the total.
pub fn build_links(resource: &str, query: &PageQuery, page: Page, total: u64) -> (r: PageLinks)
    ensures
        r.this@ == page_link(resource@, query@, LinkRel::SelfLink),
        match r.prev {
            Some(l) => page.has_prev() && l@ == page_link(
                resource@,
                query@.at_offset(page.prev_start() as u64),
                LinkRel::Prev,
            ),
            None => !page.has_prev(),
        },
        match r.next {
            Some(l) => page.has_next(total) && l@ == page_link(
                resource@,
                query@.at_offset(page.next_start() as u64),
                LinkRel::Next,
            ),
            None => !page.has_next(total),
        },
        r.listed() == page_links_model(resource@, query@, page, total),
{
    let this = link_to(resource, query, LinkRel::SelfLink);
    let prev = match page.prev_offset() {
        Some(o) => Some(link_to(resource, &query.with_offset(o), LinkRel::Prev)),
        None => None,
    };
    let next = match page.next_offset(total) {
        Some(o) => Some(link_to(resource, &query.with_offset(o), LinkRel::Next)),
        None => None,
    };
    PageLinks { this, prev, next }
}

} // verus!
