//! The configuration of the service: assembled once at start-up, read-only
//! afterwards.

use vstd::prelude::*;
use crate::foreign::{canonical_url, url_through_path};
use crate::link::{item_href, join_item, link_views, Link, LinkModel, LinkRel, MediaType};
use crate::paging::PageConfig;

verus! {

/// The conformance classes that the service declares.
pub open spec fn conformance_model() -> Seq<Seq<char>> {
    seq![
        "http://www.opengis.net/spec/ogcapi-processes-1/1.0/conf/core"@,
        "http://www.opengis.net/spec/ogcapi-processes-1/1.0/conf/ogc-process-description"@,
        "http://www.opengis.net/spec/ogcapi-processes-1/1.0/conf/json"@,
        "http://www.opengis.net/spec/ogcapi-processes-1/1.0/conf/job-list"@,
        "http://www.opengis.net/spec/ogcapi-processes-1/1.0/conf/dismiss"@,
    ]
}

pub open spec fn text_views(texts: Seq<String>) -> Seq<Seq<char>> {
    texts.map_values(|t: String| t@)
}

/// The conformance classes that the service declares, for the conformance
/// document.
pub fn conformance_classes() -> (r: Vec<String>)
    ensures
        text_views(r@) == conformance_model(),
{
    let mut out: Vec<String> = Vec::new();
    out.push(String::from_str("http://www.opengis.net/spec/ogcapi-processes-1/1.0/conf/core"));
    out.push(
        String::from_str(
            "http://www.opengis.net/spec/ogcapi-processes-1/1.0/conf/ogc-process-description",
        ),
    );
    out.push(String::from_str("http://www.opengis.net/spec/ogcapi-processes-1/1.0/conf/json"));
    out.push(String::from_str("http://www.opengis.net/spec/ogcapi-processes-1/1.0/conf/job-list"));
    out.push(String::from_str("http://www.opengis.net/spec/ogcapi-processes-1/1.0/conf/dismiss"));
    assert(text_views(out@) =~= conformance_model());
    out
}

/// The text that the address of a collection is read from: the address of
/// the service, a slash, the collection's name.
pub open spec fn collection_text(remote: Seq<char>, name: Seq<char>) -> Seq<char> {
    remote + seq!['/'] + name
}

/// Where the service lives, and how it pages its listings.
#[derive(Debug)]
pub struct ApiConfig {
    jobs_url: String,
    processes_url: String,
    paging: PageConfig,
}

impl ApiConfig {
    /// The address of the job collection.
    pub closed spec fn jobs_at(self) -> Seq<char> {
        self.jobs_url@
    }

    /// The address of the process collection.
    pub closed spec fn processes_at(self) -> Seq<char> {
        self.processes_url@
    }

    /// The bounds on page sizes.
    pub closed spec fn page_bounds(self) -> PageConfig {
        self.paging
    }

    /// The links that the landing page carries for this part of the service.
    pub open spec fn landing_model(self) -> Seq<LinkModel> {
        seq![
            LinkModel {
                href: self.processes_at(),
                rel: LinkRel::Processes,
                mime: MediaType::Json,
                title: Some("Metadata about the processes"@),
            },
            LinkModel {
                href: self.jobs_at(),
                rel: LinkRel::JobList,
                mime: MediaType::Json,
                title: Some("The endpoint for job monitoring"@),
            },
        ]
    }

    /// A configuration from the addresses of the two collections, taken as
    /// they are.
    pub fn from_urls(jobs_url: String, processes_url: String, paging: PageConfig) -> (r: ApiConfig)
        ensures
            r.jobs_at() == jobs_url@,
            r.processes_at() == processes_url@,
            r.page_bounds() == paging,
    {
        ApiConfig { jobs_url, processes_url, paging }
    }

    /// A configuration for a service at `remote`. The addresses of the
    /// collections are `remote/jobs` and `remote/processes`, each in the
    /// normal form of an absolute URL up to the end of its path; where
    /// either is no absolute URL there is no configuration.
    pub fn new(remote: &str, paging: PageConfig) -> (r: Option<ApiConfig>)
        ensures
            match r {
                Some(c) => {
                    &&& url_through_path(collection_text(remote@, "jobs"@)) == Some(c.jobs_at())
                    &&& url_through_path(collection_text(remote@, "processes"@)) == Some(
                        c.processes_at(),
                    )
                    &&& c.page_bounds() == paging
                },
                None => {
                    ||| url_through_path(collection_text(remote@, "jobs"@)) is None
                    ||| url_through_path(collection_text(remote@, "processes"@)) is None
                },
            },
    {
        let jobs_text = join_item(remote, "jobs");
        let processes_text = join_item(remote, "processes");
        match (canonical_url(jobs_text.as_str()), canonical_url(processes_text.as_str())) {
            (Some(jobs_url), Some(processes_url)) => Some(
                ApiConfig::from_urls(jobs_url, processes_url, paging),
            ),
            _ => None,
        }
    }

    pub fn jobs_url(&self) -> (r: &str)
        ensures
            r@ == self.jobs_at(),
    {
        self.jobs_url.as_str()
    }

    pub fn processes_url(&self) -> (r: &str)
        ensures
            r@ == self.processes_at(),
    {
        self.processes_url.as_str()
    }

    pub fn paging(&self) -> (r: &PageConfig)
        ensures
            *r == self.page_bounds(),
    {
        &self.paging
    }

    /// The address of the status document of a job.
    pub fn job_href(&self, job_id: &str) -> (r: String)
        ensures
            r@ == item_href(self.jobs_at(), job_id@),
    {
        join_item(self.jobs_url.as_str(), job_id)
    }

    /// The address of the description of a process.
    pub fn process_href(&self, process_id: &str) -> (r: String)
        ensures
            r@ == item_href(self.processes_at(), process_id@),
    {
        join_item(self.processes_url.as_str(), process_id)
    }

    /// The links that the landing page carries for this part of the
    /// service: one to the process catalogue, one to the job list.
    pub fn landing_links(&self) -> (r: Vec<Link>)
        ensures
            link_views(r@) == self.landing_model(),
    {
        let mut out: Vec<Link> = Vec::new();
        out.push(
            Link::new(self.processes_url.clone(), LinkRel::Processes).titled(
                "Metadata about the processes",
            ),
        );
        out.push(
            Link::new(self.jobs_url.clone(), LinkRel::JobList).titled(
                "The endpoint for job monitoring",
            ),
        );
        assert(link_views(out@) =~= self.landing_model());
        out
    }
}

} // verus!
