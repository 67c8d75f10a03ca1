//! The workflow for one document, as a step machine driven by the transport:
//! [`DemandProcessor::process_webhook`] starts it on an event and
//! [`DemandProcessor::resume`] moves it on by each answer, until a step is
//! [`Step::Done`]. The monitored warehouse and the organization are looked up
//! once and kept for the life of the processor.

use vstd::prelude::*;
use crate::api::{Reply, Request};
use crate::config::{kind_name, Settings};
use crate::line::{line_transition, task_for_line, LineStep, LineTask, goes_to_create};
use crate::models::{document_lines, Demand, EntityRef, ProcessingResult, WebhookEvent};
use crate::report::{
    line_result, not_confirmed_message, other_store_message, other_store_text, result_for_outcome,
    skip_result, skip_result_matches,
};

verus! {

/// Where the processor is in the workflow of a document.
pub enum Run {
    /// No document is in hand.
    Idle,
    /// Waiting for the document.
    AwaitDocument,
    /// Waiting for the monitored warehouse.
    AwaitStore { demand: Demand },
    /// Working through the document's lines: `task` is line `next`, and
    /// `results` holds those before it.
    Lines {
        demand: Demand,
        store: EntityRef,
        store_id: String,
        next: usize,
        results: Vec<ProcessingResult>,
        task: LineTask,
    },
}

/// What the transport does next.
pub enum Step {
    /// Perform the operation and hand its answer to `resume`.
    Call(Request),
    /// The document is done: one result per line, or a single result for a
    /// document skipped whole, or an error that stopped the whole document.
    Done(Result<Vec<ProcessingResult>, String>),
}

/// The processor of the watched documents.
pub struct DemandProcessor {
    pub settings: Settings,
    /// The monitored warehouse, once found.
    pub store_cache: Option<EntityRef>,
    /// The organization, once found.
    pub organization_cache: Option<EntityRef>,
    pub run: Run,
}

pub open spec fn no_document_id_message() -> Seq<char> {
    "no document id in webhook content"@
}

pub open spec fn no_document_message() -> Seq<char> {
    "no document data in webhook event"@
}

pub open spec fn store_not_found_message(name: Seq<char>) -> Seq<char> {
    "store '"@ + name + "' not found"@
}

pub open spec fn store_id_missing_message() -> Seq<char> {
    "monitored store has no id"@
}

pub open spec fn no_organization_message() -> Seq<char> {
    "no organization found"@
}

pub open spec fn not_running_message() -> Seq<char> {
    "no document is being processed"@
}

pub open spec fn unexpected_message() -> Seq<char> {
    "unexpected reply from the inventory backend"@
}

/// The step ends the document with one result that satisfies `f`.
pub open spec fn done_with_one(step: Step, f: spec_fn(ProcessingResult) -> bool) -> bool {
    step matches Step::Done(Ok(v)) && v@.len() == 1 && f(v@[0])
}

/// The step ends the document with error `text`, and the processor is idle.
pub open spec fn fails_document(post: DemandProcessor, step: Step, text: Seq<char>) -> bool {
    &&& step matches Step::Done(Err(e)) && e@ == text
    &&& post.run is Idle
}

/// The processor is ready for line `next` of `d`: `t` is at its start and its
/// stock is asked for.
pub open spec fn line_started(
    post: DemandProcessor,
    step: Step,
    d: Demand,
    store: EntityRef,
    store_id: Seq<char>,
    next: int,
    results: Seq<ProcessingResult>,
) -> bool {
    match post.run {
        Run::Lines { demand, store: s, store_id: sid, next: n, results: rs, task } => {
            &&& demand == d && s == store && sid@ == store_id && n == next && rs@ == results
            &&& task_for_line(task, document_lines(d)[next]) && task.stage is AwaitStock
            &&& step matches Step::Call(Request::GetStock { product_id, store_id: asked })
                && product_id@ == task.product_id@ && asked@ == store_id
        },
        _ => false,
    }
}

/// With the warehouse known, a document of another warehouse is skipped,
/// and one of this warehouse (or of none named) has its lines worked through.
pub open spec fn store_checked(d: Demand, store: EntityRef, post: DemandProcessor, step: Step) -> bool {
    match store.id {
        None => fails_document(post, step, store_id_missing_message()),
        Some(sid) => if d.store.id matches Some(x) && x@ != sid@ {
            &&& done_with_one(step, |r: ProcessingResult| skip_result_matches(r, d, other_store_message(d)))
            &&& post.run is Idle
        } else if document_lines(d).len() == 0 {
            &&& step matches Step::Done(Ok(v)) && v@.len() == 0
            &&& post.run is Idle
        } else {
            line_started(post, step, d, store, sid@, 0, Seq::empty())
        },
    }
}

/// How the processor takes a document in hand.
pub open spec fn document_step(pre: DemandProcessor, d: Demand, post: DemandProcessor, step: Step) -> bool {
    &&& post.settings == pre.settings
    &&& post.organization_cache == pre.organization_cache
    &&& if !d.applicable {
        &&& post.store_cache == pre.store_cache
        &&& done_with_one(step, |r: ProcessingResult| skip_result_matches(r, d, not_confirmed_message()))
        &&& post.run is Idle
    } else {
        match pre.store_cache {
            None => {
                &&& post.store_cache is None
                &&& step matches Step::Call(Request::FindStore { name }) && name == pre.settings.store_name
                &&& post.run == Run::AwaitStore { demand: d }
            },
            Some(store) => post.store_cache == pre.store_cache && store_checked(d, store, post, step),
        }
    }
}

/// `v` is `results` followed by the result that reports line `task` of
/// `demand`, ended in `o`.
pub open spec fn extends_with_result(
    v: Seq<ProcessingResult>,
    results: Seq<ProcessingResult>,
    demand: Demand,
    task: LineTask,
    o: crate::line::LineOutcome,
    threshold: int,
) -> bool {
    &&& v.len() == results.len() + 1
    &&& v.subrange(0, results.len() as int) == results
    &&& result_for_outcome(v.last(), demand, task, o, threshold)
}

/// How the processor moves on after line `next` has taken a step.
pub open spec fn after_line_step(
    pre: DemandProcessor,
    demand: Demand,
    store: EntityRef,
    store_id: String,
    next: int,
    results: Seq<ProcessingResult>,
    task: LineTask,
    moved: LineTask,
    ls: LineStep,
    post: DemandProcessor,
    step: Step,
) -> bool {
    match ls {
        LineStep::Ask(req) => {
            &&& step == Step::Call(req)
            &&& match post.run {
                Run::Lines { demand: d, store: s, store_id: sid, next: n, results: rs, task: t } => {
                    d == demand && s == store && sid == store_id && n == next && rs@ == results && t == moved
                },
                _ => false,
            }
        },
        LineStep::Finish(o) => {
            let thr = pre.settings.min_stock_threshold as int;
            if next + 1 < document_lines(demand).len() {
                exists|v: Seq<ProcessingResult>|
                    #[trigger] extends_with_result(v, results, demand, task, o, thr) && line_started(
                        post,
                        step,
                        demand,
                        store,
                        store_id@,
                        next + 1,
                        v,
                    )
            } else {
                &&& step matches Step::Done(Ok(v)) && extends_with_result(v@, results, demand, task, o, thr)
                &&& post.run is Idle
            }
        },
    }
}

/// How the processor moves on by an answer.
pub open spec fn resume_step(pre: DemandProcessor, reply: Reply, post: DemandProcessor, step: Step) -> bool {
    &&& post.settings == pre.settings
    &&& match pre.run {
        Run::Idle => fails_document(post, step, not_running_message()) && post.store_cache
            == pre.store_cache && post.organization_cache == pre.organization_cache,
        Run::AwaitDocument => match reply {
            Reply::Document(d) => document_step(pre, d, post, step),
            Reply::Failed(e) => fails_document(post, step, e@) && post.store_cache == pre.store_cache
                && post.organization_cache == pre.organization_cache,
            _ => fails_document(post, step, unexpected_message()) && post.store_cache == pre.store_cache
                && post.organization_cache == pre.organization_cache,
        },
        Run::AwaitStore { demand } => {
            &&& post.organization_cache == pre.organization_cache
            &&& match reply {
                Reply::Store(Some(s)) => post.store_cache == Some(s) && store_checked(demand, s, post, step),
                Reply::Store(None) => fails_document(post, step, store_not_found_message(pre.settings.store_name@))
                    && post.store_cache == pre.store_cache,
                Reply::Failed(e) => fails_document(post, step, e@) && post.store_cache == pre.store_cache,
                _ => fails_document(post, step, unexpected_message()) && post.store_cache == pre.store_cache,
            }
        },
        Run::Lines { demand, store, store_id, next, results, task } => {
            &&& post.store_cache == pre.store_cache
            &&& if task.stage is AwaitOrganization {
                match reply {
                    Reply::Organization(Some(o)) => {
                        &&& post.organization_cache == Some(o)
                        &&& exists|moved: LineTask| {
                            &&& #[trigger] goes_to_create(
                                task,
                                task.stage->AwaitOrganization_stock,
                                task.stage->AwaitOrganization_tech_card@,
                                task.stage->AwaitOrganization_plan,
                                task.stage->AwaitOrganization_stocks@,
                                store,
                                Some(o),
                                demand,
                                moved,
                                LineStep::Ask(step->Call_0),
                            )
                            &&& step is Call
                            &&& moved.product_id == task.product_id && moved.product_name == task.product_name
                                && moved.quantity == task.quantity
                            &&& post.run == Run::Lines { demand, store, store_id, next, results, task: moved }
                        }
                    },
                    Reply::Organization(None) => fails_document(post, step, no_organization_message())
                        && post.organization_cache == pre.organization_cache,
                    Reply::Failed(e) => fails_document(post, step, e@) && post.organization_cache
                        == pre.organization_cache,
                    _ => fails_document(post, step, unexpected_message()) && post.organization_cache
                        == pre.organization_cache,
                }
            } else {
                &&& post.organization_cache == pre.organization_cache
                &&& exists|moved: LineTask, ls: LineStep|
                    #[trigger] line_transition(
                        task,
                        reply,
                        pre.settings,
                        store,
                        store_id@,
                        pre.organization_cache,
                        demand,
                        moved,
                        ls,
                    ) && after_line_step(pre, demand, store, store_id, next as int, results@, task, moved, ls, post, step)
            }
        },
    }
}

/// How the processor takes a change notification.
pub open spec fn webhook_step(pre: DemandProcessor, event: WebhookEvent, post: DemandProcessor, step: Step) -> bool {
    &&& post.settings == pre.settings
    &&& post.organization_cache == pre.organization_cache
    &&& if event.entity_type@ != kind_name(pre.settings.trigger_kind) {
        &&& step matches Step::Done(Ok(v)) && v@.len() == 0
        &&& post.run is Idle
        &&& post.store_cache == pre.store_cache
    } else {
        match event.entity {
            Some(d) => document_step(pre, d, post, step),
            None => {
                &&& post.store_cache == pre.store_cache
                &&& match event.content {
                    Some(c) => match c.id {
                        Some(id) => step == Step::Call(
                            Request::FetchDocument { kind: pre.settings.trigger_kind, id },
                        ) && post.run is AwaitDocument,
                        None => fails_document(post, step, no_document_id_message()),
                    },
                    None => fails_document(post, step, no_document_message()),
                }
            },
        }
    }
}

/// A document that is not confirmed ends at once with one successful
/// result: no line is looked at and nothing is created or confirmed.
pub proof fn lemma_unconfirmed_document_is_skipped(pre: DemandProcessor, d: Demand, post: DemandProcessor, step: Step)
    requires
        document_step(pre, d, post, step),
        !d.applicable,
    ensures
        step matches Step::Done(Ok(v)) && v@.len() == 1 && v@[0].success && v@[0].product is None
            && v@[0].processing_id is None,
        post.run is Idle,
{
}

/// A document of another warehouse than the monitored one ends with one
/// successful result: no line is looked at.
pub proof fn lemma_other_store_is_skipped(d: Demand, store: EntityRef, post: DemandProcessor, step: Step)
    requires
        store_checked(d, store, post, step),
        store.id is Some,
        d.store.id matches Some(x) && x@ != store.id->0@,
    ensures
        step matches Step::Done(Ok(v)) && v@.len() == 1 && v@[0].success && v@[0].product is None,
        post.run is Idle,
{
}

/// A notification of another entity type than the watched kind yields no
/// result and no operation.
pub proof fn lemma_other_kind_is_ignored(pre: DemandProcessor, event: WebhookEvent, post: DemandProcessor, step: Step)
    requires
        webhook_step(pre, event, post, step),
        event.entity_type@ != kind_name(pre.settings.trigger_kind),
    ensures
        step matches Step::Done(Ok(v)) && v@.len() == 0,
        post.run is Idle,
{
}

impl DemandProcessor {
    /// The processor is in a consistent state.
    pub open spec fn wf(&self) -> bool {
        match self.run {
            Run::Lines { demand, store, store_id, next, results, task } => {
                &&& next < document_lines(demand).len()
                &&& task_for_line(task, document_lines(demand)[next as int])
                &&& task.wf(self.settings.min_stock_threshold as int)
                &&& !(task.stage is Finished)
                &&& results@.len() == next
            },
            _ => true,
        }
    }

    /// A processor with nothing looked up yet.
    pub fn new(settings: Settings) -> (r: Self)
        ensures
            r.settings == settings,
            r.store_cache is None,
            r.organization_cache is None,
            r.run is Idle,
            r.wf(),
    {
        DemandProcessor { settings, store_cache: None, organization_cache: None, run: Run::Idle }
    }

    /// Forgets the warehouse and the organization found so far, so that both
    /// are looked up again for the next document.
    pub fn reset_caches(&mut self)
        ensures
            final(self).store_cache is None,
            final(self).organization_cache is None,
            final(self).settings == old(self).settings,
            final(self).run == old(self).run,
    {
        self.store_cache = None;
        self.organization_cache = None;
    }

    /// Whether no document is in hand.
    pub fn is_idle(&self) -> (r: bool)
        ensures
            r == (self.run is Idle),
    {
        match self.run {
            Run::Idle => true,
            _ => false,
        }
    }

    fn start_lines(&mut self, demand: Demand, store: EntityRef, store_id: String) -> (step: Step)
        requires
            document_lines(demand).len() > 0,
        ensures
            final(self).settings == old(self).settings,
            final(self).store_cache == old(self).store_cache,
            final(self).organization_cache == old(self).organization_cache,
            line_started(*final(self), step, demand, store, store_id@, 0, Seq::empty()),
            final(self).wf(),
    {
        let task = match &demand.positions {
            Some(p) => LineTask::start(&p.rows[0]),
            None => {
                assert(false);
                return Step::Done(Ok(Vec::new()));
            },
        };
        let request = task.first_request(&store_id);
        self.run = Run::Lines { demand, store, store_id, next: 0, results: Vec::new(), task };
        Step::Call(request)
    }

    fn check_store(&mut self, demand: Demand, store: EntityRef) -> (step: Step)
        ensures
            final(self).settings == old(self).settings,
            final(self).store_cache == old(self).store_cache,
            final(self).organization_cache == old(self).organization_cache,
            store_checked(demand, store, *final(self), step),
            final(self).wf(),
    {
        self.run = Run::Idle;
        let store_id = match &store.id {
            Some(id) => id.clone(),
            None => {
                return Step::Done(Err(String::from_str("monitored store has no id")));
            },
        };
        let other = match &demand.store.id {
            Some(x) => !(*x == store_id),
            None => false,
        };
        if other {
            let r = skip_result(&demand, other_store_text(&demand));
            let mut v = Vec::new();
            v.push(r);
            return Step::Done(Ok(v));
        }
        let count = match &demand.positions {
            Some(p) => p.rows.len(),
            None => 0,
        };
        if count == 0 {
            return Step::Done(Ok(Vec::new()));
        }
        self.start_lines(demand, store, store_id)
    }

    fn take_document(&mut self, demand: Demand) -> (step: Step)
        ensures
            document_step(*old(self), demand, *final(self), step),
            final(self).wf(),
    {
        self.run = Run::Idle;
        if !demand.applicable {
            let r = skip_result(&demand, String::from_str("document not confirmed, skipping"));
            let mut v = Vec::new();
            v.push(r);
            return Step::Done(Ok(v));
        }
        match &self.store_cache {
            None => {
                let name = self.settings.store_name.clone();
                self.run = Run::AwaitStore { demand };
                Step::Call(Request::FindStore { name })
            },
            Some(store) => {
                let store = store.duplicate();
                self.check_store(demand, store)
            },
        }
    }

    /// Takes in hand the document of a change notification. A notification
    /// of another entity type than the watched kind is ignored (no result, no
    /// operation). The document is the one inlined in the notification, else
    /// it is fetched by the identifier that the notification carries; without
    /// either the notification is refused.
    pub fn process_webhook(&mut self, event: WebhookEvent) -> (step: Step)
        ensures
            final(self).wf(),
            webhook_step(*old(self), event, *final(self), step),
    {
        if !(event.entity_type == self.settings.trigger_kind.name()) {
            self.run = Run::Idle;
            return Step::Done(Ok(Vec::new()));
        }
        match event.entity {
            Some(d) => self.take_document(d),
            None => {
                self.run = Run::Idle;
                match event.content {
                    Some(c) => match c.id {
                        Some(id) => {
                            self.run = Run::AwaitDocument;
                            Step::Call(Request::FetchDocument { kind: self.settings.trigger_kind, id })
                        },
                        None => Step::Done(Err(String::from_str("no document id in webhook content"))),
                    },
                    None => Step::Done(Err(String::from_str("no document data in webhook event"))),
                }
            },
        }
    }

    /// Moves the workflow on by the transport's answer to the last operation.
    pub fn resume(&mut self, reply: Reply) -> (step: Step)
        requires
            old(self).wf(),
        ensures
            final(self).wf(),
            resume_step(*old(self), reply, *final(self), step),
    {
        let mut run = Run::Idle;
        std::mem::swap(&mut self.run, &mut run);
        match run {
            Run::Idle => Step::Done(Err(String::from_str("no document is being processed"))),
            Run::AwaitDocument => match reply {
                Reply::Document(d) => self.take_document(d),
                Reply::Failed(e) => Step::Done(Err(e)),
                _ => Step::Done(Err(String::from_str("unexpected reply from the inventory backend"))),
            },
            Run::AwaitStore { demand } => match reply {
                Reply::Store(Some(s)) => {
                    let store = s.duplicate();
                    self.store_cache = Some(s);
                    self.check_store(demand, store)
                },
                Reply::Store(None) => {
                    let mut text = String::from_str("store '");
                    text.append(self.settings.store_name.as_str());
                    text.append("' not found");
                    Step::Done(Err(text))
                },
                Reply::Failed(e) => Step::Done(Err(e)),
                _ => Step::Done(Err(String::from_str("unexpected reply from the inventory backend"))),
            },
            Run::Lines { demand, store, store_id, next, results, task } => {
                let mut task = task;
                let mut results = results;
                let waits_for_organization = match task.stage {
                    crate::line::LineStage::AwaitOrganization { .. } => true,
                    _ => false,
                };
                if waits_for_organization {
                    match reply {
                        Reply::Organization(Some(o)) => {
                            let ghost before = task;
                            let request = task.with_organization(&o, &self.settings, &store, &demand);
                            self.organization_cache = Some(o);
                            self.run = Run::Lines { demand, store, store_id, next, results, task };
                            assert(goes_to_create(
                                before,
                                before.stage->AwaitOrganization_stock,
                                before.stage->AwaitOrganization_tech_card@,
                                before.stage->AwaitOrganization_plan,
                                before.stage->AwaitOrganization_stocks@,
                                store,
                                self.organization_cache,
                                demand,
                                task,
                                LineStep::Ask(request),
                            ));
                            Step::Call(request)
                        },
                        Reply::Organization(None) => Step::Done(Err(String::from_str("no organization found"))),
                        Reply::Failed(e) => Step::Done(Err(e)),
                        _ => Step::Done(Err(String::from_str("unexpected reply from the inventory backend"))),
                    }
                } else {
                    let ghost before = task;
                    let ghost reply_seen = reply;
                    let ls = task.resume(reply, &self.settings, &store, &store_id, &self.organization_cache, &demand);
                    assert(line_transition(
                        before,
                        reply_seen,
                        self.settings,
                        store,
                        store_id@,
                        self.organization_cache,
                        demand,
                        task,
                        ls,
                    ));
                    match ls {
                        LineStep::Ask(req) => {
                            self.run = Run::Lines { demand, store, store_id, next, results, task };
                            Step::Call(req)
                        },
                        LineStep::Finish(o) => {
                            let ghost outcome = o;
                            let ghost earlier = results@;
                            let r = line_result(&demand, &task, o, self.settings.min_stock_threshold);
                            results.push(r);
                            assert(results@.subrange(0, earlier.len() as int) =~= earlier);
                            assert(extends_with_result(
                                results@,
                                earlier,
                                demand,
                                before,
                                outcome,
                                self.settings.min_stock_threshold as int,
                            ));
                            let rows = match &demand.positions {
                                Some(p) => &p.rows,
                                None => {
                                    assert(false);
                                    return Step::Done(Ok(results));
                                },
                            };
                            if next < rows.len() - 1 {
                                let t = LineTask::start(&rows[next + 1]);
                                let request = t.first_request(&store_id);
                                self.run = Run::Lines { demand, store, store_id, next: next + 1, results, task: t };
                                Step::Call(request)
                            } else {
                                Step::Done(Ok(results))
                            }
                        },
                    }
                }
            },
        }
    }
}

} // verus!
