//! Task definitions and the per-task workers derived from them.
//!
//! Loading and parsing the on-disk configuration is the caller's business;
//! it hands over plain task definitions, and this module turns each into a
//! worker carrying its labels and its ready-built query document text.

use vstd::prelude::*;
use crate::query::QueryDocument;
use crate::query::build_query;
use crate::query::render_query;
use crate::query::spec_query_text;

verus! {

/// The backend connection settings: where to send count queries, and the
/// static credential passed through with each one.
pub struct ElkConf {
    pub url: String,
    pub authorization: String,
}

/// Where the exposition endpoint listens, and under which path.
pub struct ServerConf {
    pub bind: String,
    pub metric_path: String,
}

/// One monitored metric as configured: its exported name, its poll period in
/// minutes (also the width of the queried window), its free-text labels, and
/// its backend match clauses — each carried opaquely as the text of one
/// backend-shaped JSON object.
pub struct Task {
    pub metric_name: String,
    pub period: u32,
    pub description: String,
    pub environment: String,
    pub filter: Vec<String>,
    pub must_not: Option<Vec<String>>,
}

/// One task readied for polling: the task's labels plus the query document
/// text, built once — the document's time window is a relative expression
/// that the backend resolves on every send, so no per-tick rebuild is needed.
pub struct WorkerConf {
    pub period: u32,
    pub metric_name: String,
    pub description: String,
    pub environment: String,
    pub request: String,
}

/// Everything the process runs on: the readied workers, the backend
/// connection, and the exposition server settings.
pub struct Settings {
    pub worker: Vec<WorkerConf>,
    pub elk: ElkConf,
    pub server: ServerConf,
}

/// Whether every task's period is positive, as a valid configuration must
/// have: a zero period would mean an empty window and a busy loop.
pub open spec fn spec_tasks_valid(tasks: Seq<Task>) -> bool {
    forall|i: int| 0 <= i < tasks.len() ==> tasks[i].period > 0
}

/// Checks that every task's period is positive. A configuration that fails
/// this is fatal at startup.
pub fn tasks_valid(tasks: &Vec<Task>) -> (r: bool)
    ensures
        r == spec_tasks_valid(tasks@),
{
    let mut i: usize = 0;
    while i < tasks.len()
        invariant
            i <= tasks@.len(),
            forall|k: int| 0 <= k < i ==> tasks@[k].period > 0,
        decreases tasks@.len() - i,
    {
        if tasks[i].period == 0 {
            return false;
        }
        i = i + 1;
    }
    true
}

/// Clones a clause list; the clone reads exactly as the original.
fn clone_strings(v: &Vec<String>) -> (r: Vec<String>)
    ensures
        r@ == v@,
        r.deep_view() == v.deep_view(),
{
    let mut r: Vec<String> = Vec::new();
    let mut i: usize = 0;
    while i < v.len()
        invariant
            i <= v@.len(),
            r@ == v@.take(i as int),
        decreases v@.len() - i,
    {
        r.push(v[i].clone());
        proof {
            assert(r@ =~= v@.take(i as int + 1));
        }
        i = i + 1;
    }
    proof {
        assert(v@.take(v@.len() as int) =~= v@);
        assert(r.deep_view() =~= v.deep_view());
    }
    r
}

/// Builds one worker per task, in order: each keeps its task's name, period
/// and labels, and carries the query document text built from that task's
/// clauses and period — the clauses spliced in unchanged, the window exactly
/// as wide as the period.
pub fn build_workers(tasks: &Vec<Task>) -> (r: Vec<WorkerConf>)
    requires
        spec_tasks_valid(tasks@),
    ensures
        r@.len() == tasks@.len(),
        forall|i: int|
            0 <= i < tasks@.len() ==> {
                &&& r@[i].period == tasks@[i].period
                &&& r@[i].metric_name@ == tasks@[i].metric_name@
                &&& r@[i].description@ == tasks@[i].description@
                &&& r@[i].environment@ == tasks@[i].environment@
                &&& r@[i].request@ == spec_query_text(
                    tasks@[i].filter.deep_view(),
                    tasks@[i].must_not.deep_view(),
                    tasks@[i].period,
                )
            },
{
    let mut workers: Vec<WorkerConf> = Vec::new();
    let mut i: usize = 0;
    while i < tasks.len()
        invariant
            i <= tasks@.len(),
            spec_tasks_valid(tasks@),
            workers@.len() == i,
            forall|k: int|
                0 <= k < i ==> {
                    &&& workers@[k].period == tasks@[k].period
                    &&& workers@[k].metric_name@ == tasks@[k].metric_name@
                    &&& workers@[k].description@ == tasks@[k].description@
                    &&& workers@[k].environment@ == tasks@[k].environment@
                    &&& workers@[k].request@ == spec_query_text(
                        tasks@[k].filter.deep_view(),
                        tasks@[k].must_not.deep_view(),
                        tasks@[k].period,
                    )
                },
        decreases tasks@.len() - i,
    {
        let task = &tasks[i];
        let filter = clone_strings(&task.filter);
        let must_not: Option<Vec<String>> = match &task.must_not {
            None => None,
            Some(v) => Some(clone_strings(v)),
        };
        proof {
            assert(must_not.deep_view() == task.must_not.deep_view());
        }
        let doc: QueryDocument = build_query(filter, must_not, task.period);
        let request = render_query(&doc);
        workers.push(
            WorkerConf {
                period: task.period,
                metric_name: task.metric_name.clone(),
                description: task.description.clone(),
                environment: task.environment.clone(),
                request,
            },
        );
        i = i + 1;
    }
    workers
}

} // verus!
