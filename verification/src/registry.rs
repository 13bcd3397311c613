//! The catalogue of processes: seeded once, read thereafter.

use vstd::prelude::*;
use crate::error::JobError;
use crate::link::{link_views, Link, LinkModel, LinkRel, MediaType};
use crate::paging::{window_of, Page};

verus! {

/// The description of one input or output of a process: its name and its
/// schema, as the text of a JSON document.
#[derive(Debug)]
pub struct Descriptor {
    pub name: String,
    pub schema: String,
}

/// A catalogued unit of work.
#[derive(Debug)]
pub struct Process {
    pub id: String,
    pub title: String,
    pub description: String,
    pub version: String,
    pub inputs: Vec<Descriptor>,
    pub outputs: Vec<Descriptor>,
    pub sync_execute: bool,
    pub async_execute: bool,
}

/// The mathematical content of a [`Descriptor`].
pub struct DescriptorModel {
    pub name: Seq<char>,
    pub schema: Seq<char>,
}

impl View for Descriptor {
    type V = DescriptorModel;

    open spec fn view(&self) -> DescriptorModel {
        DescriptorModel { name: self.name@, schema: self.schema@ }
    }
}

pub open spec fn descriptor_views(items: Seq<Descriptor>) -> Seq<DescriptorModel> {
    items.map_values(|d: Descriptor| d@)
}

/// The mathematical content of a [`ProcessSummary`].
pub struct SummaryModel {
    pub id: Seq<char>,
    pub title: Seq<char>,
    pub description: Seq<char>,
    pub version: Seq<char>,
    pub sync_execute: bool,
    pub async_execute: bool,
    pub links: Seq<LinkModel>,
}

/// A process as a listing shows it: without its inputs and outputs, with
/// the link to its description.
#[derive(Debug)]
pub struct ProcessSummary {
    pub id: String,
    pub title: String,
    pub description: String,
    pub version: String,
    pub sync_execute: bool,
    pub async_execute: bool,
    pub links: Vec<Link>,
}

impl View for ProcessSummary {
    type V = SummaryModel;

    open spec fn view(&self) -> SummaryModel {
        SummaryModel {
            id: self.id@,
            title: self.title@,
            description: self.description@,
            version: self.version@,
            sync_execute: self.sync_execute,
            async_execute: self.async_execute,
            links: link_views(self.links@),
        }
    }
}

/// The mathematical content of a [`ProcessDescription`].
pub struct DescriptionModel {
    pub summary: SummaryModel,
    pub inputs: Seq<DescriptorModel>,
    pub outputs: Seq<DescriptorModel>,
}

/// The full description of a process.
#[derive(Debug)]
pub struct ProcessDescription {
    pub summary: ProcessSummary,
    pub inputs: Vec<Descriptor>,
    pub outputs: Vec<Descriptor>,
}

impl View for ProcessDescription {
    type V = DescriptionModel;

    open spec fn view(&self) -> DescriptionModel {
        DescriptionModel {
            summary: self.summary@,
            inputs: descriptor_views(self.inputs@),
            outputs: descriptor_views(self.outputs@),
        }
    }
}

fn copy_descriptors(items: &Vec<Descriptor>) -> (r: Vec<Descriptor>)
    ensures
        descriptor_views(r@) == descriptor_views(items@),
{
    let mut out: Vec<Descriptor> = Vec::new();
    let mut i: usize = 0;
    while i < items.len()
        invariant
            i <= items.len(),
            descriptor_views(out@) == descriptor_views(items@).take(i as int),
        decreases items.len() - i,
    {
        let ghost kept = out@;
        out.push(Descriptor { name: items[i].name.clone(), schema: items[i].schema.clone() });
        proof {
            let all = descriptor_views(items@);
            assert(descriptor_views(out@) =~= descriptor_views(kept).push(all[i as int]));
            assert(all.take(i + 1) =~= all.take(i as int).push(all[i as int]));
        }
        i += 1;
    }
    assert(descriptor_views(items@).take(i as int) =~= descriptor_views(items@));
    out
}

impl Process {
    /// The summary of the process, with the link to its description at `href`.
    pub open spec fn summary_model(self, href: Seq<char>) -> SummaryModel {
        SummaryModel {
            id: self.id@,
            title: self.title@,
            description: self.description@,
            version: self.version@,
            sync_execute: self.sync_execute,
            async_execute: self.async_execute,
            links: seq![
                LinkModel {
                    href,
                    rel: LinkRel::SelfLink,
                    mime: MediaType::Json,
                    title: Some("process description"@),
                },
            ],
        }
    }

    /// The description of the process, with the link to itself at `href`.
    pub open spec fn description_model(self, href: Seq<char>) -> DescriptionModel {
        DescriptionModel {
            summary: self.summary_model(href),
            inputs: descriptor_views(self.inputs@),
            outputs: descriptor_views(self.outputs@),
        }
    }

    pub fn summary(&self, href: String) -> (r: ProcessSummary)
        ensures
            r@ == self.summary_model(href@),
    {
        let mut links: Vec<Link> = Vec::new();
        links.push(Link::new(href, LinkRel::SelfLink).titled("process description"));
        let r = ProcessSummary {
            id: self.id.clone(),
            title: self.title.clone(),
            description: self.description.clone(),
            version: self.version.clone(),
            sync_execute: self.sync_execute,
            async_execute: self.async_execute,
            links,
        };
        assert(r@.links =~= self.summary_model(href@).links);
        r
    }

    pub fn describe(&self, href: String) -> (r: ProcessDescription)
        ensures
            r@ == self.description_model(href@),
    {
        ProcessDescription {
            summary: self.summary(href),
            inputs: copy_descriptors(&self.inputs),
            outputs: copy_descriptors(&self.outputs),
        }
    }
}

/// Whether an entry with the identifier exists.
pub open spec fn lists(entries: Seq<Process>, id: Seq<char>) -> bool {
    exists|i: int| 0 <= i < entries.len() && (#[trigger] entries[i]).id@ == id
}

/// The place of the entry with the identifier.
pub open spec fn place(entries: Seq<Process>, id: Seq<char>) -> int {
    choose|i: int| 0 <= i < entries.len() && (#[trigger] entries[i]).id@ == id
}

/// No identifier occurs twice.
pub open spec fn distinct(entries: Seq<Process>) -> bool {
    forall|i: int, j: int|
        0 <= i < entries.len() && 0 <= j < entries.len() && i != j ==> (#[trigger] entries[i]).id@
            != (#[trigger] entries[j]).id@
}

/// The process catalogue, in the order of registration.
#[derive(Debug)]
pub struct ProcessRegistry {
    processes: Vec<Process>,
}

/// One page of the catalogue together with the size of the catalogue.
#[derive(Debug)]
pub struct ProcessPage<'a> {
    pub processes: Vec<&'a Process>,
    pub total: u64,
}

pub open spec fn derefs(items: Seq<&Process>) -> Seq<Process> {
    items.map_values(|p: &Process| *p)
}

impl ProcessRegistry {
    #[verifier::type_invariant]
    spec fn sound(self) -> bool {
        distinct(self.processes@)
    }

    /// The entries of the catalogue, in the order of registration.
    pub closed spec fn entries(self) -> Seq<Process> {
        self.processes@
    }

    /// Whether the catalogue knows a process of that identifier.
    pub open spec fn knows(self, id: Seq<char>) -> bool {
        lists(self.entries(), id)
    }

    /// An empty catalogue.
    pub fn new() -> (r: ProcessRegistry)
        ensures
            r.entries() == Seq::<Process>::empty(),
    {
        ProcessRegistry { processes: Vec::new() }
    }

    pub fn len(&self) -> (r: usize)
        ensures
            r == self.entries().len(),
    {
        self.processes.len()
    }

    fn index_of(&self, id: &String) -> (r: Option<usize>)
        ensures
            distinct(self.entries()),
            match r {
                Some(i) => i < self.entries().len() && self.entries()[i as int].id@ == id@
                    && self.knows(id@) && place(self.entries(), id@) == i,
                None => !self.knows(id@),
            },
    {
        proof {
            use_type_invariant(self);
        }
        let mut i: usize = 0;
        while i < self.processes.len()
            invariant
                i <= self.processes.len(),
                distinct(self.processes@),
                forall|k: int| 0 <= k < i ==> (#[trigger] self.processes@[k]).id@ != id@,
            decreases self.processes.len() - i,
        {
            if self.processes[i].id == *id {
                return Some(i);
            }
            i += 1;
        }
        None
    }

    /// Adds a process to the catalogue; `Conflict` where its identifier is
    /// taken, and the catalogue stays as it is.
    pub fn register(&mut self, process: Process) -> (r: Result<(), JobError>)
        ensures
            match r {
                Ok(_) => {
                    &&& !old(self).knows(process.id@)
                    &&& final(self).entries() == old(self).entries().push(process)
                },
                Err(e) => {
                    &&& e == JobError::Conflict
                    &&& old(self).knows(process.id@)
                    &&& final(self).entries() == old(self).entries()
                },
            },
    {
        if self.index_of(&process.id).is_some() {
            return Err(JobError::Conflict);
        }
        let ghost before = self.processes@;
        let mut processes: Vec<Process> = Vec::new();
        core::mem::swap(&mut processes, &mut self.processes);
        processes.push(process);
        proof {
            let after = processes@;
            assert forall|i: int, j: int|
                0 <= i < after.len() && 0 <= j < after.len() && i != j implies (#[trigger] after[i]).id@
                != (#[trigger] after[j]).id@ by {
                if i < before.len() {
                    assert(after[i] == before[i]);
                }
                if j < before.len() {
                    assert(after[j] == before[j]);
                }
            }
        }
        core::mem::swap(&mut processes, &mut self.processes);
        Ok(())
    }

    /// Whether the catalogue knows a process of that identifier.
    pub fn contains(&self, id: &str) -> (r: bool)
        ensures
            r == self.knows(id@),
    {
        let key = String::from_str(id);
        self.index_of(&key).is_some()
    }

    /// The process of that identifier; `NotFound` where there is none.
    pub fn get(&self, id: &str) -> (r: Result<&Process, JobError>)
        ensures
            match r {
                Ok(p) => self.knows(id@) && *p == self.entries()[place(self.entries(), id@)]
                    && p.id@ == id@,
                Err(e) => e == JobError::NotFound && !self.knows(id@),
            },
    {
        let key = String::from_str(id);
        match self.index_of(&key) {
            Some(i) => Ok(&self.processes[i]),
            None => Err(JobError::NotFound),
        }
    }

    /// One page of the catalogue, and the size of the catalogue.
    pub fn list(&self, page: Page) -> (r: ProcessPage<'_>)
        ensures
            derefs(r.processes@) == window_of(self.entries(), page),
            r.total == self.entries().len(),
    {
        let n: usize = self.processes.len();
        let total: u64 = n as u64;
        let first: usize = if page.offset <= total {
            page.offset as usize
        } else {
            n
        };
        let end: usize = if page.limit <= total - (first as u64) {
            first + (page.limit as usize)
        } else {
            n
        };
        let mut out: Vec<&Process> = Vec::new();
        let mut i: usize = first;
        assert(derefs(out@) =~= self.processes@.subrange(first as int, i as int));
        while i < end
            invariant
                first <= i <= end <= n,
                n == self.processes@.len(),
                derefs(out@) == self.processes@.subrange(first as int, i as int),
            decreases end - i,
        {
            let ghost kept = out@;
            out.push(&self.processes[i]);
            proof {
                assert(derefs(out@) =~= derefs(kept).push(self.processes@[i as int]));
                assert(self.processes@.subrange(first as int, i + 1) =~= self.processes@.subrange(
                    first as int,
                    i as int,
                ).push(self.processes@[i as int]));
            }
            i += 1;
        }
        ProcessPage { processes: out, total }
    }
}

/// A registered process is found under its identifier, and registering
/// disturbs no other entry.
pub proof fn registered_is_found(entries: Seq<Process>, process: Process, id: Seq<char>)
    requires
        distinct(entries),
        !lists(entries, process.id@),
    ensures
        distinct(entries.push(process)),
        lists(entries.push(process), process.id@),
        entries.push(process)[place(entries.push(process), process.id@)] == process,
        lists(entries, id) ==> lists(entries.push(process), id) && entries.push(process)[place(
            entries.push(process),
            id,
        )] == entries[place(entries, id)],
{
    let after = entries.push(process);
    assert forall|i: int, j: int|
        0 <= i < after.len() && 0 <= j < after.len() && i != j implies (#[trigger] after[i]).id@
        != (#[trigger] after[j]).id@ by {
        if i < entries.len() {
            assert(after[i] == entries[i]);
        }
        if j < entries.len() {
            assert(after[j] == entries[j]);
        }
    }
    assert(after[entries.len() as int].id@ == process.id@);
    if lists(entries, id) {
        let k = place(entries, id);
        assert(after[k].id@ == id);
    }
}

} // verus!
