//! The decision tree for one line of a document, as a step machine: each
//! answer of the transport moves the line on and yields the next operation or
//! the line's outcome.

use vstd::prelude::*;
use crate::api::{Reply, Request};
use crate::config::Settings;
use crate::models::{
    attribute_text, plan_materials, Attribute, CreateProcessingRequest, Demand, DemandPosition,
    EntityRef, EntityRefSmall, Processing, ProcessingPlan, ProcessingPlanMaterial,
    ProcessingPlanRef, Product,
};
use crate::stock::{
    check_materials_availability, material_id, material_product_id, report_stock, shortfall_list,
    shortfalls, stock_in_range, stock_in_report, Shortfall,
};
use crate::text::{id_from_href, last_segment};

verus! {

/// The bill-of-materials name that the attributes give from the `i`-th on:
/// the text of the first attribute named `field` that has one, else empty.
pub open spec fn tech_card_from(attrs: Seq<Attribute>, field: Seq<char>, i: int) -> Seq<char>
    decreases attrs.len() - i,
{
    if i < 0 || i >= attrs.len() {
        Seq::empty()
    } else if attrs[i].name@ == field && attribute_text(attrs[i]) is Some {
        attribute_text(attrs[i])->0
    } else {
        tech_card_from(attrs, field, i + 1)
    }
}

/// The name of a product's bill of materials, read from its attribute
/// `field`; empty where it has none.
pub open spec fn tech_card_name(p: Product, field: Seq<char>) -> Seq<char> {
    match p.attributes {
        Some(v) => tech_card_from(v@, field, 0),
        None => Seq::empty(),
    }
}

/// The name of a product's bill of materials, read from the attribute named
/// `field`: the text of the first such attribute that has one, else empty.
pub fn find_tech_card_name(product: &Product, field: &String) -> (r: String)
    ensures
        r@ == tech_card_name(*product, field@),
{
    match &product.attributes {
        None => String::new(),
        Some(attrs) => {
            let mut i: usize = 0;
            while i < attrs.len()
                invariant
                    i <= attrs@.len(),
                    tech_card_name(*product, field@) == tech_card_from(attrs@, field@, i as int),
                decreases attrs.len() - i,
            {
                let a = &attrs[i];
                if a.name == *field {
                    match a.as_string() {
                        Some(v) => {
                            return v;
                        },
                        None => {},
                    }
                }
                i = i + 1;
            }
            String::new()
        },
    }
}

/// The description of a production transaction made for a document.
pub open spec fn description_text(d: Demand) -> Seq<char> {
    "created automatically for document "@ + d.name@ + " of "@ + d.moment@
}

/// `req` creates a transaction of `quantity` units (in thousandths) by `plan`
/// at `store` for `org`, described as made for `demand`.
pub open spec fn request_matches(
    req: CreateProcessingRequest,
    plan: ProcessingPlan,
    store: EntityRef,
    org: EntityRef,
    quantity: i64,
    demand: Demand,
) -> bool {
    &&& req.processing_plan.meta == plan.meta
    &&& req.store.meta == store.meta
    &&& req.products_store.meta == store.meta
    &&& req.organization.meta == org.meta
    &&& req.quantity == quantity
    &&& req.name is None
    &&& req.description matches Some(d) && d@ == description_text(demand)
    &&& req.processing_sum == 0
}

/// The request that creates the production transaction for a line: by the
/// bill `plan`, at the monitored warehouse (for materials and products alike),
/// for the organization, `quantity` units, described as made for `demand`.
pub fn create_processing_operation(
    plan: &ProcessingPlan,
    store: &EntityRef,
    org: &EntityRef,
    quantity: i64,
    demand: &Demand,
) -> (r: CreateProcessingRequest)
    ensures
        request_matches(r, *plan, *store, *org, quantity, *demand),
{
    let mut description = String::from_str("created automatically for document ");
    description.append(demand.name.as_str());
    description.append(" of ");
    description.append(demand.moment.as_str());
    CreateProcessingRequest {
        processing_plan: ProcessingPlanRef { meta: plan.meta.duplicate() },
        store: EntityRefSmall { meta: store.meta.duplicate() },
        products_store: EntityRefSmall { meta: store.meta.duplicate() },
        organization: EntityRefSmall { meta: org.meta.duplicate() },
        quantity,
        name: None,
        description: Some(description),
        processing_sum: 0,
    }
}

/// How far a line has got.
pub enum LineStage {
    /// Waiting for the stock report on the line's product.
    AwaitStock,
    /// Stock is low; waiting for the product's attributes.
    AwaitProduct { stock: i128 },
    /// Waiting for the bill of materials named `tech_card`.
    AwaitPlan { stock: i128, tech_card: String },
    /// Waiting for the stock report on the next material of `plan`; `stocks`
    /// holds the available stock of the materials before it.
    AwaitMaterials {
        stock: i128,
        tech_card: Ghost<Seq<char>>,
        plan: ProcessingPlan,
        stocks: Vec<i128>,
    },
    /// Nothing is short; waiting for the organization.
    AwaitOrganization {
        stock: i128,
        tech_card: Ghost<Seq<char>>,
        plan: ProcessingPlan,
        stocks: Ghost<Seq<i128>>,
    },
    /// Waiting for the created transaction.
    AwaitCreate {
        stock: i128,
        tech_card: Ghost<Seq<char>>,
        plan: Ghost<ProcessingPlan>,
        stocks: Ghost<Seq<i128>>,
    },
    /// Waiting for the confirmed transaction.
    AwaitApply {
        stock: i128,
        tech_card: Ghost<Seq<char>>,
        plan: Ghost<ProcessingPlan>,
        stocks: Ghost<Seq<i128>>,
    },
    /// The line has its outcome.
    Finished,
}

/// How a line ended.
pub enum LineOutcome {
    /// Stock (in thousandths) is at or above the threshold.
    Sufficient { stock: i128 },
    /// The product names no bill of materials.
    NoTechCard { stock: i128 },
    /// Materials are short.
    Shortage { stock: i128, missing: Vec<Shortfall> },
    /// The transaction was created and confirmed.
    Produced { stock: i128, processing: Processing },
    /// An operation failed, or the bill of materials was not found.
    Failed { error: String },
}

/// What a line does next.
pub enum LineStep {
    Ask(Request),
    Finish(LineOutcome),
}

/// One line of a document on its way through the decision tree.
pub struct LineTask {
    /// The product, from the line's link.
    pub product_id: String,
    /// The product's name, or `unknown`.
    pub product_name: String,
    /// The line's quantity, in thousandths.
    pub quantity: i64,
    pub stage: LineStage,
}

pub open spec fn unknown_name() -> Seq<char> {
    "unknown"@
}

/// The name of a line's product, or `unknown`.
pub open spec fn line_product_name(line: DemandPosition) -> Seq<char> {
    match line.assortment.name {
        Some(n) => n@,
        None => unknown_name(),
    }
}

/// `t` is about `line`.
pub open spec fn task_for_line(t: LineTask, line: DemandPosition) -> bool {
    &&& t.product_id@ == last_segment(line.assortment.meta.href@)
    &&& t.product_name@ == line_product_name(line)
    &&& t.quantity == line.quantity
}

/// Nothing is short among the materials of `plan` for `target` units, given
/// the stock of each.
pub open spec fn nothing_short(plan: ProcessingPlan, target: int, stocks: Seq<i128>) -> bool {
    let mats = plan_materials(plan);
    &&& stocks.len() == mats.len()
    &&& shortfalls(mats, target, stocks, mats.len() as int).len() == 0
}

/// What a stage has established: low stock from the start on, a non-empty
/// bill name from the bill's lookup on, and no shortfall once past the
/// materials.
pub open spec fn stage_holds(stage: LineStage, threshold: int, target: int) -> bool {
    match stage {
        LineStage::AwaitStock => true,
        LineStage::AwaitProduct { stock } => stock < threshold,
        LineStage::AwaitPlan { stock, tech_card } => stock < threshold && tech_card@.len() > 0,
        LineStage::AwaitMaterials { stock, tech_card, plan, stocks } => {
            &&& stock < threshold
            &&& tech_card@.len() > 0
            &&& stocks@.len() < plan_materials(plan).len()
            &&& forall|i: int| 0 <= i < stocks@.len() ==> stock_in_range(#[trigger] stocks@[i] as int)
        },
        LineStage::AwaitOrganization { stock, tech_card, plan, stocks } => {
            stock < threshold && tech_card@.len() > 0 && nothing_short(plan, target, stocks@)
        },
        LineStage::AwaitCreate { stock, tech_card, plan, stocks } => {
            stock < threshold && tech_card@.len() > 0 && nothing_short(plan@, target, stocks@)
        },
        LineStage::AwaitApply { stock, tech_card, plan, stocks } => {
            stock < threshold && tech_card@.len() > 0 && nothing_short(plan@, target, stocks@)
        },
        LineStage::Finished => true,
    }
}

impl LineTask {
    pub open spec fn wf(&self, threshold: int) -> bool {
        stage_holds(self.stage, threshold, self.quantity as int)
    }
}

pub open spec fn unexpected_reply_message() -> Seq<char> {
    "unexpected reply from the inventory backend"@
}

pub open spec fn plan_missing_message(name: Seq<char>) -> Seq<char> {
    "processing plan '"@ + name + "' not found"@
}

/// The line ends in failure with `text`.
pub open spec fn fails_with(post: LineTask, step: LineStep, text: Seq<char>) -> bool {
    &&& step matches LineStep::Finish(LineOutcome::Failed { error }) && error@ == text
    &&& post.stage is Finished
}

/// The stock report on material `k` of `plan` is asked for.
pub open spec fn asks_material_stock(step: LineStep, plan: ProcessingPlan, k: int, store_id: Seq<char>) -> bool {
    step matches LineStep::Ask(Request::GetStock { product_id, store_id: s }) && product_id@
        == material_id(plan_materials(plan)[k]) && s@ == store_id
}

/// With nothing short, the line goes on to the transaction: it is asked for
/// at once where the organization is known, else the organization is.
pub open spec fn goes_to_create(
    t: LineTask,
    stock: i128,
    tech_card: Seq<char>,
    plan: ProcessingPlan,
    stocks: Seq<i128>,
    store: EntityRef,
    org: Option<EntityRef>,
    demand: Demand,
    post: LineTask,
    step: LineStep,
) -> bool {
    match org {
        Some(o) => {
            &&& step matches LineStep::Ask(Request::CreateProcessing { request }) && request_matches(
                request,
                plan,
                store,
                o,
                t.quantity,
                demand,
            )
            &&& post.stage matches LineStage::AwaitCreate { stock: s, tech_card: c, plan: p, stocks: v }
                && s == stock && c@ == tech_card && p@ == plan && v@ == stocks
        },
        None => {
            &&& step == LineStep::Ask(Request::GetOrganization)
            &&& post.stage matches LineStage::AwaitOrganization {
                stock: s,
                tech_card: c,
                plan: p,
                stocks: v,
            } && s == stock && c@ == tech_card && p == plan && v@ == stocks
        },
    }
}

/// How a line moves on an answer, in every stage but the wait for the
/// organization: a failure ends it as failed; an answer of the wrong kind
/// ends it as failed too; otherwise the decision tree goes on.
pub open spec fn line_transition(
    t: LineTask,
    reply: Reply,
    cfg: Settings,
    store: EntityRef,
    store_id: Seq<char>,
    org: Option<EntityRef>,
    demand: Demand,
    post: LineTask,
    step: LineStep,
) -> bool {
    &&& post.product_id == t.product_id
    &&& post.product_name == t.product_name
    &&& post.quantity == t.quantity
    &&& match reply {
        Reply::Failed(e) => step == LineStep::Finish(LineOutcome::Failed { error: e })
            && post.stage is Finished,
        _ => match t.stage {
            LineStage::AwaitStock => match reply {
                Reply::StockReport(rows) => {
                    let s = report_stock(rows@, t.product_id@, store_id);
                    if s >= cfg.min_stock_threshold {
                        step == LineStep::Finish(LineOutcome::Sufficient { stock: s as i128 })
                            && post.stage is Finished
                    } else {
                        step == LineStep::Ask(Request::GetProduct { product_id: t.product_id })
                            && post.stage == LineStage::AwaitProduct { stock: s as i128 }
                    }
                },
                _ => fails_with(post, step, unexpected_reply_message()),
            },
            LineStage::AwaitProduct { stock } => match reply {
                Reply::Product(p) => {
                    let n = tech_card_name(p, cfg.tech_card_field_name@);
                    if n.len() == 0 {
                        step == LineStep::Finish(LineOutcome::NoTechCard { stock })
                            && post.stage is Finished
                    } else {
                        &&& step matches LineStep::Ask(Request::FindPlan { name }) && name@ == n
                        &&& post.stage matches LineStage::AwaitPlan { stock: s, tech_card } && s
                            == stock && tech_card@ == n
                    }
                },
                _ => fails_with(post, step, unexpected_reply_message()),
            },
            LineStage::AwaitPlan { stock, tech_card } => match reply {
                Reply::Plan(None) => fails_with(post, step, plan_missing_message(tech_card@)),
                Reply::Plan(Some(plan)) => {
                    if plan_materials(plan).len() > 0 {
                        &&& asks_material_stock(step, plan, 0, store_id)
                        &&& post.stage matches LineStage::AwaitMaterials {
                            stock: s,
                            tech_card: c,
                            plan: p,
                            stocks,
                        } && s == stock && c@ == tech_card@ && p == plan && stocks@.len() == 0
                    } else {
                        goes_to_create(t, stock, tech_card@, plan, Seq::empty(), store, org, demand, post, step)
                    }
                },
                _ => fails_with(post, step, unexpected_reply_message()),
            },
            LineStage::AwaitMaterials { stock, tech_card, plan, stocks } => match reply {
                Reply::StockReport(rows) => {
                    let mats = plan_materials(plan);
                    let k = stocks@.len() as int;
                    let got = report_stock(rows@, material_id(mats[k]), store_id);
                    let seen = stocks@.push(got as i128);
                    if k < mats.len() - 1 {
                        &&& asks_material_stock(step, plan, k + 1, store_id)
                        &&& post.stage matches LineStage::AwaitMaterials {
                            stock: s,
                            tech_card: c,
                            plan: p,
                            stocks: v,
                        } && s == stock && c@ == tech_card@ && p == plan && v@ == seen
                    } else {
                        let short = shortfalls(mats, t.quantity as int, seen, mats.len() as int);
                        if short.len() > 0 {
                            &&& step matches LineStep::Finish(LineOutcome::Shortage { stock: s, missing })
                                && s == stock && shortfall_list(missing@) == short
                            &&& post.stage is Finished
                        } else {
                            goes_to_create(t, stock, tech_card@, plan, seen, store, org, demand, post, step)
                        }
                    }
                },
                _ => fails_with(post, step, unexpected_reply_message()),
            },
            LineStage::AwaitCreate { stock, tech_card, plan, stocks } => match reply {
                Reply::Processing(p) => {
                    &&& step == LineStep::Ask(Request::ApplyProcessing { processing_id: p.id })
                    &&& post.stage == LineStage::AwaitApply { stock, tech_card, plan, stocks }
                },
                _ => fails_with(post, step, unexpected_reply_message()),
            },
            LineStage::AwaitApply { stock, .. } => match reply {
                Reply::Processing(p) => step == LineStep::Finish(
                    LineOutcome::Produced { stock, processing: p },
                ) && post.stage is Finished,
                _ => fails_with(post, step, unexpected_reply_message()),
            },
            _ => true,
        },
    }
}

fn fail(text: &str) -> (r: LineStep)
    ensures
        r matches LineStep::Finish(LineOutcome::Failed { error }) && error@ == text@,
{
    LineStep::Finish(LineOutcome::Failed { error: String::from_str(text) })
}

fn materials_of(plan: &ProcessingPlan) -> (r: Option<&Vec<ProcessingPlanMaterial>>)
    ensures
        r matches Some(v) ==> v@ == plan_materials(*plan),
        r is None ==> plan_materials(*plan).len() == 0,
{
    match &plan.materials {
        Some(m) => match &m.rows {
            Some(v) => Some(v),
            None => None,
        },
        None => None,
    }
}

impl LineTask {
    /// A line at its start: the product is the final segment of the line's
    /// link, its name the line's or `unknown`.
    pub fn start(line: &DemandPosition) -> (r: LineTask)
        ensures
            task_for_line(r, *line),
            r.stage is AwaitStock,
    {
        let name = match &line.assortment.name {
            Some(n) => n.clone(),
            None => String::from_str("unknown"),
        };
        LineTask {
            product_id: id_from_href(line.assortment.meta.href.as_str()),
            product_name: name,
            quantity: line.quantity,
            stage: LineStage::AwaitStock,
        }
    }

    /// The first operation of a line: the stock of its product at the
    /// monitored warehouse.
    pub fn first_request(&self, store_id: &String) -> (r: Request)
        ensures
            r matches Request::GetStock { product_id, store_id: s } && product_id == self.product_id
                && s == *store_id,
    {
        Request::GetStock { product_id: self.product_id.clone(), store_id: store_id.clone() }
    }

    fn go_to_create(
        &mut self,
        stock: i128,
        tech_card: Ghost<Seq<char>>,
        plan: ProcessingPlan,
        stocks: Ghost<Seq<i128>>,
        store: &EntityRef,
        org: &Option<EntityRef>,
        demand: &Demand,
    ) -> (step: LineStep)
        ensures
            final(self).product_id == old(self).product_id,
            final(self).product_name == old(self).product_name,
            final(self).quantity == old(self).quantity,
            goes_to_create(*old(self), stock, tech_card@, plan, stocks@, *store, *org, *demand, *final(self), step),
    {
        match org {
            Some(o) => {
                let request = create_processing_operation(&plan, store, o, self.quantity, demand);
                self.stage = LineStage::AwaitCreate { stock, tech_card, plan: Ghost(plan), stocks };
                LineStep::Ask(Request::CreateProcessing { request })
            },
            None => {
                self.stage = LineStage::AwaitOrganization { stock, tech_card, plan, stocks };
                LineStep::Ask(Request::GetOrganization)
            },
        }
    }

    /// Moves the line on by the transport's answer to its last operation.
    /// `store` is the monitored warehouse and `store_id` its identifier;
    /// `org` is the organization where it is already known.
    pub fn resume(
        &mut self,
        reply: Reply,
        cfg: &Settings,
        store: &EntityRef,
        store_id: &String,
        org: &Option<EntityRef>,
        demand: &Demand,
    ) -> (step: LineStep)
        requires
            old(self).wf(cfg.min_stock_threshold as int),
            !(old(self).stage is Finished),
            !(old(self).stage is AwaitOrganization),
        ensures
            final(self).wf(cfg.min_stock_threshold as int),
            line_transition(*old(self), reply, *cfg, *store, store_id@, *org, *demand, *final(self), step),
            step is Finish <==> final(self).stage is Finished,
    {
        let ghost thr = cfg.min_stock_threshold as int;
        let mut stage = LineStage::Finished;
        std::mem::swap(&mut self.stage, &mut stage);
        if let Reply::Failed(e) = reply {
            return LineStep::Finish(LineOutcome::Failed { error: e });
        }
        match stage {
            LineStage::AwaitStock => match reply {
                Reply::StockReport(rows) => {
                    let s = stock_in_report(&rows, &self.product_id, store_id);
                    if s >= cfg.min_stock_threshold as i128 {
                        LineStep::Finish(LineOutcome::Sufficient { stock: s })
                    } else {
                        self.stage = LineStage::AwaitProduct { stock: s };
                        LineStep::Ask(Request::GetProduct { product_id: self.product_id.clone() })
                    }
                },
                _ => fail("unexpected reply from the inventory backend"),
            },
            LineStage::AwaitProduct { stock } => match reply {
                Reply::Product(p) => {
                    let name = find_tech_card_name(&p, &cfg.tech_card_field_name);
                    if name.unicode_len() == 0 {
                        LineStep::Finish(LineOutcome::NoTechCard { stock })
                    } else {
                        let asked = name.clone();
                        self.stage = LineStage::AwaitPlan { stock, tech_card: name };
                        LineStep::Ask(Request::FindPlan { name: asked })
                    }
                },
                _ => fail("unexpected reply from the inventory backend"),
            },
            LineStage::AwaitPlan { stock, tech_card } => match reply {
                Reply::Plan(None) => {
                    let mut text = String::from_str("processing plan '");
                    text.append(tech_card.as_str());
                    text.append("' not found");
                    LineStep::Finish(LineOutcome::Failed { error: text })
                },
                Reply::Plan(Some(plan)) => {
                    match materials_of(&plan) {
                        Some(mats) => {
                            if mats.len() > 0 {
                                let first = material_product_id(&mats[0]);
                                self.stage = LineStage::AwaitMaterials {
                                    stock,
                                    tech_card: Ghost(tech_card@),
                                    plan,
                                    stocks: Vec::new(),
                                };
                                return LineStep::Ask(
                                    Request::GetStock { product_id: first, store_id: store_id.clone() },
                                );
                            }
                        },
                        None => {},
                    }
                    self.go_to_create(stock, Ghost(tech_card@), plan, Ghost(Seq::empty()), store, org, demand)
                },
                _ => fail("unexpected reply from the inventory backend"),
            },
            LineStage::AwaitMaterials { stock, tech_card, plan, stocks } => match reply {
                Reply::StockReport(rows) => {
                    let mut stocks = stocks;
                    let mats = match materials_of(&plan) {
                        Some(v) => v,
                        None => {
                            assert(false);
                            return fail("unexpected reply from the inventory backend");
                        },
                    };
                    let k = stocks.len();
                    let got = stock_in_report(&rows, &material_product_id(&mats[k]), store_id);
                    stocks.push(got);
                    if k < mats.len() - 1 {
                        let next = material_product_id(&mats[k + 1]);
                        self.stage = LineStage::AwaitMaterials { stock, tech_card, plan, stocks };
                        LineStep::Ask(Request::GetStock { product_id: next, store_id: store_id.clone() })
                    } else {
                        let check = check_materials_availability(mats, self.quantity, &stocks);
                        if !check.available {
                            LineStep::Finish(LineOutcome::Shortage { stock, missing: check.missing })
                        } else {
                            self.go_to_create(stock, tech_card, plan, Ghost(stocks@), store, org, demand)
                        }
                    }
                },
                _ => fail("unexpected reply from the inventory backend"),
            },
            LineStage::AwaitCreate { stock, tech_card, plan, stocks } => match reply {
                Reply::Processing(p) => {
                    self.stage = LineStage::AwaitApply { stock, tech_card, plan, stocks };
                    LineStep::Ask(Request::ApplyProcessing { processing_id: p.id })
                },
                _ => fail("unexpected reply from the inventory backend"),
            },
            LineStage::AwaitApply { stock, .. } => match reply {
                Reply::Processing(p) => LineStep::Finish(LineOutcome::Produced { stock, processing: p }),
                _ => fail("unexpected reply from the inventory backend"),
            },
            _ => {
                assert(false);
                fail("unexpected reply from the inventory backend")
            },
        }
    }

    /// Moves a line that waits for the organization on, once it is known:
    /// the transaction is asked for.
    pub fn with_organization(
        &mut self,
        org: &EntityRef,
        cfg: &Settings,
        store: &EntityRef,
        demand: &Demand,
    ) -> (r: Request)
        requires
            old(self).wf(cfg.min_stock_threshold as int),
            old(self).stage is AwaitOrganization,
        ensures
            final(self).wf(cfg.min_stock_threshold as int),
            final(self).product_id == old(self).product_id,
            final(self).product_name == old(self).product_name,
            final(self).quantity == old(self).quantity,
            goes_to_create(
                *old(self),
                old(self).stage->AwaitOrganization_stock,
                old(self).stage->AwaitOrganization_tech_card@,
                old(self).stage->AwaitOrganization_plan,
                old(self).stage->AwaitOrganization_stocks@,
                *store,
                Some(*org),
                *demand,
                *final(self),
                LineStep::Ask(r),
            ),
    {
        let mut stage = LineStage::Finished;
        std::mem::swap(&mut self.stage, &mut stage);
        match stage {
            LineStage::AwaitOrganization { stock, tech_card, plan, stocks } => {
                let request = create_processing_operation(&plan, store, org, self.quantity, demand);
                self.stage = LineStage::AwaitCreate { stock, tech_card, plan: Ghost(plan), stocks };
                Request::CreateProcessing { request }
            },
            _ => {
                assert(false);
                Request::GetOrganization
            },
        }
    }
}

/// A line whose stock is at or above the threshold ends there, as
/// sufficient: no attribute, bill or material is looked up for it, and no
/// transaction is created.
pub proof fn lemma_sufficient_stock_ends_line(
    t: LineTask,
    rows: Vec<crate::models::StockByStoreRow>,
    reply: Reply,
    cfg: Settings,
    store: EntityRef,
    store_id: Seq<char>,
    org: Option<EntityRef>,
    demand: Demand,
    post: LineTask,
    step: LineStep,
)
    requires
        t.stage is AwaitStock,
        reply == Reply::StockReport(rows),
        report_stock(rows@, t.product_id@, store_id) >= cfg.min_stock_threshold,
        line_transition(t, reply, cfg, store, store_id, org, demand, post, step),
    ensures
        step matches LineStep::Finish(LineOutcome::Sufficient { stock }) && stock == report_stock(
            rows@,
            t.product_id@,
            store_id,
        ) as i128,
        post.stage is Finished,
{
}

/// A line asks for a production transaction only once its stock was found
/// below the threshold, its product named a bill of materials, that bill was
/// found, and none of the bill's materials was short.
pub proof fn lemma_creation_only_when_needed(
    t: LineTask,
    reply: Reply,
    cfg: Settings,
    store: EntityRef,
    store_id: Seq<char>,
    org: Option<EntityRef>,
    demand: Demand,
    post: LineTask,
    step: LineStep,
)
    requires
        t.wf(cfg.min_stock_threshold as int),
        !(t.stage is AwaitOrganization),
        !(t.stage is Finished),
        line_transition(t, reply, cfg, store, store_id, org, demand, post, step),
        step matches LineStep::Ask(Request::CreateProcessing { .. }),
    ensures
        post.stage matches LineStage::AwaitCreate { stock, tech_card, plan, stocks } && stock
            < cfg.min_stock_threshold && tech_card@.len() > 0 && nothing_short(
            plan@,
            t.quantity as int,
            stocks@,
        ),
{
    if let Reply::StockReport(rows) = reply {
        if let LineStage::AwaitMaterials { stock, tech_card, plan, stocks } = t.stage {
            let mats = plan_materials(plan);
            let seen = stocks@.push(report_stock(rows@, material_id(mats[stocks@.len() as int]), store_id) as i128);
            assert(seen.len() == mats.len());
        }
    }
}

/// A line whose last material report leaves nothing short goes on to the
/// transaction: it asks for it at once where the organization is known, and
/// asks for the organization otherwise.
pub proof fn lemma_creation_when_needed(
    t: LineTask,
    rows: Vec<crate::models::StockByStoreRow>,
    reply: Reply,
    cfg: Settings,
    store: EntityRef,
    store_id: Seq<char>,
    org: Option<EntityRef>,
    demand: Demand,
    post: LineTask,
    step: LineStep,
)
    requires
        t.wf(cfg.min_stock_threshold as int),
        t.stage matches LineStage::AwaitMaterials { plan, stocks, .. } && stocks@.len() + 1
            == plan_materials(plan).len() && nothing_short(
            plan,
            t.quantity as int,
            stocks@.push(
                report_stock(rows@, material_id(plan_materials(plan)[stocks@.len() as int]), store_id)
                    as i128,
            ),
        ),
        reply == Reply::StockReport(rows),
        line_transition(t, reply, cfg, store, store_id, org, demand, post, step),
    ensures
        org is Some ==> step matches LineStep::Ask(Request::CreateProcessing { .. }),
        org is None ==> step == LineStep::Ask(Request::GetOrganization),
{
}

/// A line that waited for the organization asks for the transaction once it
/// is known, and only with low stock, a non-empty bill name, a found bill and
/// no shortfall behind it.
pub proof fn lemma_creation_after_organization(
    t: LineTask,
    cfg: Settings,
    store: EntityRef,
    org: EntityRef,
    demand: Demand,
    post: LineTask,
    request: Request,
)
    requires
        t.wf(cfg.min_stock_threshold as int),
        t.stage is AwaitOrganization,
        goes_to_create(
            t,
            t.stage->AwaitOrganization_stock,
            t.stage->AwaitOrganization_tech_card@,
            t.stage->AwaitOrganization_plan,
            t.stage->AwaitOrganization_stocks@,
            store,
            Some(org),
            demand,
            post,
            LineStep::Ask(request),
        ),
    ensures
        request matches Request::CreateProcessing { .. },
        post.stage matches LineStage::AwaitCreate { stock, tech_card, plan, stocks } && stock
            < cfg.min_stock_threshold && tech_card@.len() > 0 && nothing_short(
            plan@,
            t.quantity as int,
            stocks@,
        ),
{
}

/// A line whose bill lists no material goes on to the transaction as soon as
/// the bill is found.
pub proof fn lemma_bill_without_materials_creates(
    t: LineTask,
    plan: ProcessingPlan,
    cfg: Settings,
    store: EntityRef,
    store_id: Seq<char>,
    org: Option<EntityRef>,
    demand: Demand,
    post: LineTask,
    step: LineStep,
)
    requires
        t.stage is AwaitPlan,
        plan_materials(plan).len() == 0,
        line_transition(t, Reply::Plan(Some(plan)), cfg, store, store_id, org, demand, post, step),
    ensures
        org is Some ==> step matches LineStep::Ask(Request::CreateProcessing { .. }),
        org is None ==> step == LineStep::Ask(Request::GetOrganization),
{
}

} // verus!
