//! Decoding of an inbound notification into an event for the processor, and
//! the summary of the results that are answered.

use vstd::prelude::*;
use crate::config::{kind_name, DocumentKind};
use crate::models::{ProcessingResult, WebhookContent, WebhookEvent};
use crate::text::{lower_of, lowercase};

verus! {

/// The query of a notification: the document's identifier and entity type.
pub struct WebhookQuery {
    pub id: String,
    pub entity_type: String,
}

/// `ev` is the event for a change of document `id` of entity type
/// `entity_type`, carrying the identifier only.
pub open spec fn event_for(id: Seq<char>, entity_type: Seq<char>, ev: WebhookEvent) -> bool {
    &&& ev.meta is None && ev.id is None && ev.name is None
    &&& ev.account_id@.len() == 0
    &&& ev.entity_type@ == entity_type
    &&& ev.action@ == "update"@
    &&& ev.entity is None
    &&& ev.content matches Some(c) && c.entity is None && (c.id matches Some(i) && i@ == id) && (
    c.entity_type matches Some(t) && t@ == entity_type)
}

fn make_event(id: &String, entity_type: &String) -> (r: WebhookEvent)
    ensures
        event_for(id@, entity_type@, r),
{
    WebhookEvent {
        meta: None,
        id: None,
        name: None,
        account_id: String::new(),
        entity_type: entity_type.clone(),
        action: String::from_str("update"),
        entity: None,
        content: Some(WebhookContent { entity: None, id: Some(id.clone()), entity_type: Some(entity_type.clone()) }),
    }
}

/// The event for a notification of document `id` whose entity type, in lower
/// case, is `lowered`; none where it is not the watched kind.
pub fn event_for_type(id: &String, lowered: &String, kind: DocumentKind) -> (r: Option<WebhookEvent>)
    ensures
        lowered@ != kind_name(kind) ==> r is None,
        lowered@ == kind_name(kind) ==> (r matches Some(ev) && event_for(id@, lowered@, ev)),
{
    if *lowered == kind.name() {
        Some(make_event(id, lowered))
    } else {
        None
    }
}

/// The event for a notification: its entity type is compared in lower case
/// with the watched kind; none where it differs (the notification is ignored).
pub fn event_from_query(query: &WebhookQuery, kind: DocumentKind) -> (r: Option<WebhookEvent>)
    ensures
        lower_of(query.entity_type@) != kind_name(kind) ==> r is None,
        lower_of(query.entity_type@) == kind_name(kind) ==> (r matches Some(ev) && event_for(
            query.id@,
            lower_of(query.entity_type@),
            ev,
        )),
{
    let lowered = lowercase(query.entity_type.as_str());
    event_for_type(&query.id, &lowered, kind)
}

/// The event for processing document `id` on request.
pub fn manual_event(id: &String, kind: DocumentKind) -> (r: WebhookEvent)
    ensures
        event_for(id@, kind_name(kind), r),
{
    make_event(id, &kind.name())
}

/// The message for an ignored notification.
pub open spec fn ignored_message(kind: DocumentKind, entity_type: Seq<char>) -> Seq<char> {
    "not a "@ + kind_name(kind) + " event (type="@ + entity_type + ")"@
}

/// The message for an ignored notification of entity type `entity_type`.
pub fn ignored_text(kind: DocumentKind, entity_type: &String) -> (r: String)
    ensures
        r@ == ignored_message(kind, entity_type@),
{
    let mut s = String::from_str("not a ");
    s.append(kind.name().as_str());
    s.append(" event (type=");
    s.append(entity_type.as_str());
    s.append(")");
    s
}

/// How many of the first `n` results are successes.
pub open spec fn count_successes(v: Seq<ProcessingResult>, n: int) -> int
    decreases n,
{
    if n <= 0 {
        0
    } else {
        count_successes(v, n - 1) + if v[n - 1].success {
            1int
        } else {
            0int
        }
    }
}

proof fn lemma_count_bounded(v: Seq<ProcessingResult>, n: int)
    requires
        0 <= n <= v.len(),
    ensures
        0 <= count_successes(v, n) <= n,
    decreases n,
{
    if n > 0 {
        lemma_count_bounded(v, n - 1);
    }
}

/// How many of the results are successes.
pub fn success_count(results: &Vec<ProcessingResult>) -> (r: usize)
    ensures
        r == count_successes(results@, results@.len() as int),
{
    let mut count: usize = 0;
    let mut i: usize = 0;
    while i < results.len()
        invariant
            i <= results@.len(),
            count == count_successes(results@, i as int),
        decreases results.len() - i,
    {
        proof {
            lemma_count_bounded(results@, i as int + 1);
        }
        if results[i].success {
            count = count + 1;
        }
        i = i + 1;
    }
    count
}

} // verus!
