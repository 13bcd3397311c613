use ogcapi_jobs::config::{conformance_classes, ApiConfig};
use ogcapi_jobs::link::{build_links, join_href, join_item, link_to, Link, LinkRel, MediaType};
use ogcapi_jobs::paging::{Page, PageConfig, PageQuery};

fn pairs(items: &[(&str, &str)]) -> Vec<(String, String)> {
    items.iter().map(|(k, v)| (k.to_string(), v.to_string())).collect()
}

fn config(remote: &str) -> Option<ApiConfig> {
    ApiConfig::new(remote, PageConfig::new(10, 100).unwrap())
}

#[test]
fn relations_and_media_type_have_their_names() {
    assert_eq!(LinkRel::SelfLink.as_str(), "self");
    assert_eq!(LinkRel::Prev.as_str(), "prev");
    assert_eq!(LinkRel::Next.as_str(), "next");
    assert_eq!(LinkRel::Processes.as_str(), "http://www.opengis.net/def/rel/ogc/1.0/processes");
    assert_eq!(LinkRel::JobList.as_str(), "http://www.opengis.net/def/rel/ogc/1.0/job-list");
    assert_eq!(MediaType::Json.as_str(), "application/json");
}

#[test]
fn a_new_link_is_untitled_json() {
    let l = Link::new("http://h/jobs".to_string(), LinkRel::SelfLink);
    assert_eq!(l.href, "http://h/jobs");
    assert_eq!(l.rel, LinkRel::SelfLink);
    assert_eq!(l.mime, MediaType::Json);
    assert_eq!(l.title, None);
    let t = l.titled("The jobs");
    assert_eq!(t.href, "http://h/jobs");
    assert_eq!(t.title, Some("The jobs".to_string()));
}

#[test]
fn an_empty_query_string_adds_nothing_to_the_address() {
    assert_eq!(join_href("http://h/jobs", ""), "http://h/jobs");
    assert_eq!(join_href("http://h/jobs", "limit=1"), "http://h/jobs?limit=1");
}

#[test]
fn items_live_below_their_collection() {
    assert_eq!(join_item("http://h/jobs", "abc"), "http://h/jobs/abc");
    assert_eq!(join_item("", "jobs"), "/jobs");
}

#[test]
fn a_link_carries_the_query_written_afresh() {
    let q = PageQuery { limit: Some(10), offset: Some(20), extra: pairs(&[("status", "running")]) };
    let l = link_to("http://h/jobs", &q, LinkRel::Next);
    assert_eq!(l.href, "http://h/jobs?limit=10&offset=20&status=running");
    assert_eq!(l.rel, LinkRel::Next);
    let none = PageQuery { limit: None, offset: None, extra: vec![] };
    assert_eq!(link_to("http://h/jobs", &none, LinkRel::SelfLink).href, "http://h/jobs");
}

#[test]
fn other_parameters_are_form_encoded() {
    let q = PageQuery { limit: None, offset: None, extra: pairs(&[("q", "a b&c=d"), ("é", "ü/~")]) };
    let l = link_to("http://h/jobs", &q, LinkRel::SelfLink);
    assert_eq!(l.href, "http://h/jobs?q=a+b%26c%3Dd&%C3%A9=%C3%BC%2F%7E");
}

#[test]
fn the_middle_page_has_both_neighbours() {
    let q = PageQuery { limit: Some(10), offset: Some(10), extra: vec![] };
    let links = build_links("http://h/jobs", &q, Page { limit: 10, offset: 10 }, 25);
    assert_eq!(links.this.href, "http://h/jobs?limit=10&offset=10");
    assert_eq!(links.this.rel, LinkRel::SelfLink);
    let prev = links.prev.unwrap();
    assert_eq!(prev.href, "http://h/jobs?limit=10&offset=0");
    assert_eq!(prev.rel, LinkRel::Prev);
    let next = links.next.unwrap();
    assert_eq!(next.href, "http://h/jobs?limit=10&offset=20");
    assert_eq!(next.rel, LinkRel::Next);
}

#[test]
fn the_first_page_has_no_prev_and_the_last_no_next() {
    let q = PageQuery { limit: Some(10), offset: None, extra: vec![] };
    let first = build_links("http://h/jobs", &q, Page { limit: 10, offset: 0 }, 25);
    assert_eq!(first.this.href, "http://h/jobs?limit=10");
    assert!(first.prev.is_none());
    assert_eq!(first.next.unwrap().href, "http://h/jobs?limit=10&offset=10");
    let q = PageQuery { limit: Some(10), offset: Some(20), extra: vec![] };
    let last = build_links("http://h/jobs", &q, Page { limit: 10, offset: 20 }, 25);
    assert_eq!(last.prev.unwrap().href, "http://h/jobs?limit=10&offset=10");
    assert!(last.next.is_none());
}

#[test]
fn prev_is_clamped_at_zero() {
    let q = PageQuery { limit: Some(10), offset: Some(3), extra: vec![] };
    let links = build_links("http://h/jobs", &q, Page { limit: 10, offset: 3 }, 25);
    assert_eq!(links.prev.unwrap().href, "http://h/jobs?limit=10&offset=0");
    assert_eq!(links.next.unwrap().href, "http://h/jobs?limit=10&offset=13");
}

#[test]
fn links_keep_the_page_size_as_issued() {
    let q = PageQuery { limit: None, offset: Some(10), extra: pairs(&[("processID", "echo")]) };
    let links = build_links("http://h/jobs", &q, Page { limit: 10, offset: 10 }, 25);
    assert_eq!(links.this.href, "http://h/jobs?offset=10&processID=echo");
    assert_eq!(links.prev.unwrap().href, "http://h/jobs?offset=0&processID=echo");
    assert_eq!(links.next.unwrap().href, "http://h/jobs?offset=20&processID=echo");
}

#[test]
fn links_are_listed_self_prev_next() {
    let q = PageQuery { limit: Some(10), offset: Some(10), extra: vec![] };
    let listed = build_links("http://h/jobs", &q, Page { limit: 10, offset: 10 }, 25).into_vec();
    let rels: Vec<LinkRel> = listed.iter().map(|l| l.rel).collect();
    assert_eq!(rels, vec![LinkRel::SelfLink, LinkRel::Prev, LinkRel::Next]);
    let q = PageQuery { limit: Some(10), offset: None, extra: vec![] };
    let listed = build_links("http://h/jobs", &q, Page { limit: 10, offset: 0 }, 5).into_vec();
    assert_eq!(listed.len(), 1);
    assert_eq!(listed[0].rel, LinkRel::SelfLink);
}

#[test]
fn a_configuration_holds_the_addresses_of_the_collections() {
    let c = config("http://localhost:8080").unwrap();
    assert_eq!(c.jobs_url(), "http://localhost:8080/jobs");
    assert_eq!(c.processes_url(), "http://localhost:8080/processes");
    assert_eq!(c.job_href("abc"), "http://localhost:8080/jobs/abc");
    assert_eq!(c.process_href("echo"), "http://localhost:8080/processes/echo");
    assert_eq!(c.paging().default_limit(), 10);
}

#[test]
fn addresses_are_kept_in_normal_form() {
    let c = config("HTTP://Example.COM:80/api").unwrap();
    assert_eq!(c.jobs_url(), "http://example.com/api/jobs");
    assert_eq!(c.processes_url(), "http://example.com/api/processes");
    let c = config("https://example.com/a/../b").unwrap();
    assert_eq!(c.jobs_url(), "https://example.com/b/jobs");
}

#[test]
fn a_remote_that_is_no_absolute_url_gives_no_configuration() {
    assert!(config("").is_none());
    assert!(config("/api").is_none());
    assert!(config("localhost").is_none());
    assert!(config("http://[::1").is_none());
    assert!(config("http://exa mple.com").is_none());
}

#[test]
fn from_urls_takes_the_addresses_as_they_are() {
    let c = ApiConfig::from_urls("/jobs".to_string(), "/processes".to_string(), PageConfig::new(5, 5).unwrap());
    assert_eq!(c.jobs_url(), "/jobs");
    assert_eq!(c.processes_url(), "/processes");
    assert_eq!(c.job_href("1"), "/jobs/1");
    assert_eq!(c.paging().max_limit(), 5);
}

#[test]
fn the_landing_page_links_to_processes_and_jobs() {
    let links = config("http://localhost:8080").unwrap().landing_links();
    assert_eq!(links.len(), 2);
    assert_eq!(links[0].href, "http://localhost:8080/processes");
    assert_eq!(links[0].rel, LinkRel::Processes);
    assert_eq!(links[0].mime, MediaType::Json);
    assert_eq!(links[0].title, Some("Metadata about the processes".to_string()));
    assert_eq!(links[1].href, "http://localhost:8080/jobs");
    assert_eq!(links[1].rel, LinkRel::JobList);
    assert_eq!(links[1].title, Some("The endpoint for job monitoring".to_string()));
}

#[test]
fn five_conformance_classes_are_declared() {
    assert_eq!(
        conformance_classes(),
        vec![
            "http://www.opengis.net/spec/ogcapi-processes-1/1.0/conf/core",
            "http://www.opengis.net/spec/ogcapi-processes-1/1.0/conf/ogc-process-description",
            "http://www.opengis.net/spec/ogcapi-processes-1/1.0/conf/json",
            "http://www.opengis.net/spec/ogcapi-processes-1/1.0/conf/job-list",
            "http://www.opengis.net/spec/ogcapi-processes-1/1.0/conf/dismiss",
        ]
    );
}
