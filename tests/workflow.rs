use moysklad_autoproduction::api::{Reply, Request};
use moysklad_autoproduction::config::{DocumentKind, Settings};
use moysklad_autoproduction::models::{
    Attribute, AttributeValue, Demand, DemandPosition, DemandPositions, EntityRef, Meta, Processing,
    ProcessingPlan, ProcessingPlanMaterial, ProcessingPlanMaterialsExpanded, ProcessingResult, Product,
    StockByStoreRow, StoreStockInfo, WebhookContent, WebhookEvent,
};
use moysklad_autoproduction::processor::{DemandProcessor, Step};
use moysklad_autoproduction::webhook::success_count;

const BASE: &str = "https://api.moysklad.ru/api/remap/1.2/entity";

fn meta(href: &str) -> Meta {
    Meta {
        href: href.to_string(),
        metadata_href: None,
        entity_type: None,
        media_type: None,
        size: None,
        limit: None,
        offset: None,
    }
}

fn entity(kind: &str, id: &str, name: &str) -> EntityRef {
    EntityRef {
        meta: meta(&format!("{}/{}/{}", BASE, kind, id)),
        id: Some(id.to_string()),
        name: Some(name.to_string()),
    }
}

fn settings() -> Settings {
    Settings {
        moysklad_token: "token".to_string(),
        store_name: "Main".to_string(),
        tech_card_field_name: "Tech card".to_string(),
        min_stock_threshold: 2000,
        server_port: 8080,
        server_host: "0.0.0.0".to_string(),
        trigger_kind: DocumentKind::Demand,
    }
}

fn line(product_id: &str, name: &str, quantity: i64) -> DemandPosition {
    DemandPosition {
        id: None,
        meta: None,
        assortment: entity("product", product_id, name),
        product: None,
        quantity,
        price: 0,
        discount: None,
        vat: None,
        reserve: None,
    }
}

fn document(applicable: bool, store_id: &str, lines: Vec<DemandPosition>) -> Demand {
    Demand {
        meta: meta(&format!("{}/demand/d1", BASE)),
        id: "d1".to_string(),
        name: "00042".to_string(),
        external_code: None,
        moment: "2024-05-01 10:00:00".to_string(),
        applicable,
        status_name: None,
        state: None,
        store: entity("store", store_id, "Warehouse"),
        organization: entity("organization", "org1", "Org"),
        agent: entity("counterparty", "c1", "Customer"),
        positions: Some(DemandPositions { meta: meta("positions"), rows: lines }),
        created: None,
        updated: None,
    }
}

fn inline_event(d: Demand) -> WebhookEvent {
    WebhookEvent {
        meta: None,
        id: None,
        name: None,
        account_id: String::new(),
        entity_type: "demand".to_string(),
        action: "update".to_string(),
        entity: Some(d),
        content: None,
    }
}

fn report(product_id: &str, store_id: &str, stock: i64) -> Reply {
    Reply::StockReport(vec![StockByStoreRow {
        meta: meta(&format!("{}/product/{}", BASE, product_id)),
        stock_by_store: Some(vec![StoreStockInfo {
            meta: meta(&format!("{}/store/{}", BASE, store_id)),
            name: "Warehouse".to_string(),
            stock,
            reserve: 0,
            in_transit: 0,
        }]),
    }])
}

fn product(id: &str, tech_card: &str) -> Reply {
    Reply::Product(Product {
        meta: meta(&format!("{}/product/{}", BASE, id)),
        id: id.to_string(),
        name: "Cake".to_string(),
        code: None,
        external_code: None,
        attributes: Some(vec![Attribute {
            id: "a1".to_string(),
            name: "Tech card".to_string(),
            attr_type: "string".to_string(),
            value: Some(AttributeValue::String(tech_card.to_string())),
        }]),
    })
}

fn plan(materials: Vec<(&str, &str, i64)>) -> Reply {
    Reply::Plan(Some(ProcessingPlan {
        meta: meta(&format!("{}/processingplan/pp1", BASE)),
        id: "pp1".to_string(),
        name: "Cake plan".to_string(),
        external_code: None,
        products: None,
        materials: Some(ProcessingPlanMaterialsExpanded {
            meta: meta("materials"),
            rows: Some(
                materials
                    .into_iter()
                    .map(|(id, name, per_unit)| ProcessingPlanMaterial {
                        id: None,
                        product: entity("product", id, name),
                        assortment: entity("product", id, name),
                        quantity: per_unit,
                    })
                    .collect(),
            ),
        }),
    }))
}

fn processing(id: &str, name: &str, applicable: bool) -> Reply {
    Reply::Processing(Processing {
        meta: meta(&format!("{}/processing/{}", BASE, id)),
        id: id.to_string(),
        name: name.to_string(),
        description: None,
        external_code: None,
        moment: None,
        applicable: Some(applicable),
        status_name: None,
        processing_plan: None,
        products: None,
        materials: None,
        store: None,
        organization: None,
        created: None,
        updated: None,
    })
}

fn call(step: Step) -> Request {
    match step {
        Step::Call(r) => r,
        Step::Done(_) => panic!("expected an operation"),
    }
}

fn done(step: Step) -> Vec<ProcessingResult> {
    match step {
        Step::Done(Ok(v)) => v,
        Step::Done(Err(e)) => panic!("document failed: {}", e),
        Step::Call(_) => panic!("expected the end of the document"),
    }
}

fn failed(step: Step) -> String {
    match step {
        Step::Done(Err(e)) => e,
        _ => panic!("expected a document error"),
    }
}

/// Starts on an inline document and answers the warehouse lookup.
fn start(p: &mut DemandProcessor, d: Demand) -> Step {
    let step = p.process_webhook(inline_event(d));
    match call(step) {
        Request::FindStore { name } => assert_eq!(name, "Main"),
        _ => panic!("expected the warehouse lookup"),
    }
    p.resume(Reply::Store(Some(entity("store", "s1", "Main"))))
}

fn expect_stock(step: Step, product_id: &str) {
    match call(step) {
        Request::GetStock { product_id: p, store_id } => {
            assert_eq!(p, product_id);
            assert_eq!(store_id, "s1");
        },
        _ => panic!("expected a stock lookup"),
    }
}

#[test]
fn sufficient_stock_skips_production() {
    let mut p = DemandProcessor::new(settings());
    let step = start(&mut p, document(true, "s1", vec![line("prd1", "Cake", 1000)]));
    expect_stock(step, "prd1");
    let results = done(p.resume(report("prd1", "s1", 5000)));
    assert_eq!(results.len(), 1);
    let r = &results[0];
    assert!(r.success);
    assert!(r.message.contains("5 >= 2"));
    assert_eq!(r.processing_id, None);
    assert_eq!(r.demand_id, Some("d1".to_string()));
    let info = r.product.as_ref().unwrap();
    assert_eq!(info.id, "prd1");
    assert_eq!(info.stock_before, 5000);
    assert!(p.is_idle());
}

#[test]
fn empty_tech_card_fails_line() {
    let mut p = DemandProcessor::new(settings());
    expect_stock(start(&mut p, document(true, "s1", vec![line("prd1", "Cake", 1000)])), "prd1");
    match call(p.resume(report("prd1", "s1", 500))) {
        Request::GetProduct { product_id } => assert_eq!(product_id, "prd1"),
        _ => panic!("expected the product"),
    }
    let results = done(p.resume(product("prd1", "")));
    assert_eq!(results.len(), 1);
    assert!(!results[0].success);
    assert_eq!(results[0].error, Some("tech card not found".to_string()));
    assert_eq!(results[0].processing_id, None);
    assert_eq!(results[0].product.as_ref().unwrap().stock_before, 500);
}

#[test]
fn material_shortage_fails_line_without_transaction() {
    let mut p = DemandProcessor::new(settings());
    expect_stock(start(&mut p, document(true, "s1", vec![line("prd1", "Cake", 1000)])), "prd1");
    call(p.resume(report("prd1", "s1", 500)));
    match call(p.resume(product("prd1", "Cake plan"))) {
        Request::FindPlan { name } => assert_eq!(name, "Cake plan"),
        _ => panic!("expected the plan lookup"),
    }
    expect_stock(p.resume(plan(vec![("m1", "Flour", 10_000)])), "m1");
    let results = done(p.resume(report("m1", "s1", 4000)));
    assert_eq!(results.len(), 1);
    let r = &results[0];
    assert!(!r.success);
    let error = r.error.as_ref().unwrap();
    assert!(error.contains("Flour"));
    assert!(error.contains("missing 6"));
    assert_eq!(error, "insufficient materials: Flour: missing 6");
    assert_eq!(r.processing_id, None);
}

#[test]
fn all_materials_available_creates_and_confirms() {
    let mut p = DemandProcessor::new(settings());
    expect_stock(start(&mut p, document(true, "s1", vec![line("prd1", "Cake", 1000)])), "prd1");
    call(p.resume(report("prd1", "s1", 500)));
    call(p.resume(product("prd1", "Cake plan")));
    expect_stock(p.resume(plan(vec![("m1", "Flour", 2000), ("m2", "Sugar", 500)])), "m1");
    expect_stock(p.resume(report("m1", "s1", 2000)), "m2");
    match call(p.resume(report("m2", "s1", 700))) {
        Request::GetOrganization => {},
        _ => panic!("expected the organization"),
    }
    match call(p.resume(Reply::Organization(Some(entity("organization", "org1", "Org"))))) {
        Request::CreateProcessing { request } => {
            assert_eq!(request.quantity, 1000);
            assert_eq!(request.processing_plan.meta.href, format!("{}/processingplan/pp1", BASE));
            assert_eq!(request.store.meta.href, format!("{}/store/s1", BASE));
            assert_eq!(request.products_store.meta.href, format!("{}/store/s1", BASE));
            assert_eq!(request.organization.meta.href, format!("{}/organization/org1", BASE));
            assert_eq!(
                request.description,
                Some("created automatically for document 00042 of 2024-05-01 10:00:00".to_string())
            );
            assert_eq!(request.processing_sum, 0);
        },
        _ => panic!("expected the transaction"),
    }
    match call(p.resume(processing("t1", "00001", false))) {
        Request::ApplyProcessing { processing_id } => assert_eq!(processing_id, "t1"),
        _ => panic!("expected the confirmation"),
    }
    let results = done(p.resume(processing("t1", "00001", true)));
    assert_eq!(results.len(), 1);
    let r = &results[0];
    assert!(r.success);
    assert_eq!(r.processing_id, Some("t1".to_string()));
    assert_eq!(r.processing_name, Some("00001".to_string()));
    assert_eq!(r.message, "created processing to produce 1 of 'Cake'");
    assert_eq!(r.product.as_ref().unwrap().stock_before, 500);
    assert_eq!(p.organization_cache.as_ref().unwrap().id, Some("org1".to_string()));
}

#[test]
fn known_organization_is_not_asked_again() {
    let mut p = DemandProcessor::new(settings());
    p.organization_cache = Some(entity("organization", "org1", "Org"));
    expect_stock(start(&mut p, document(true, "s1", vec![line("prd1", "Cake", 2000)])), "prd1");
    call(p.resume(report("prd1", "s1", 0)));
    call(p.resume(product("prd1", "Cake plan")));
    match call(p.resume(plan(vec![]))) {
        Request::CreateProcessing { request } => assert_eq!(request.quantity, 2000),
        _ => panic!("expected the transaction"),
    }
}

#[test]
fn other_warehouse_skips_document() {
    let mut p = DemandProcessor::new(settings());
    let step = start(&mut p, document(true, "s9", vec![line("prd1", "Cake", 1000)]));
    let results = done(step);
    assert_eq!(results.len(), 1);
    assert!(results[0].success);
    assert_eq!(results[0].message, "document is for a different warehouse (Warehouse)");
    assert!(results[0].product.is_none());
}

#[test]
fn unconfirmed_document_is_skipped() {
    let mut p = DemandProcessor::new(settings());
    let results = done(p.process_webhook(inline_event(document(false, "s1", vec![line("prd1", "Cake", 1000)]))));
    assert_eq!(results.len(), 1);
    assert!(results[0].success);
    assert_eq!(results[0].message, "document not confirmed, skipping");
    assert!(results[0].processing_id.is_none());
    assert!(results[0].product.is_none());
    assert!(p.store_cache.is_none());
}

#[test]
fn other_entity_type_is_ignored() {
    let mut p = DemandProcessor::new(settings());
    let mut ev = inline_event(document(true, "s1", vec![line("prd1", "Cake", 1000)]));
    ev.entity_type = "supply".to_string();
    let results = done(p.process_webhook(ev));
    assert!(results.is_empty());
    assert!(p.store_cache.is_none());
}

#[test]
fn document_is_fetched_by_id() {
    let mut p = DemandProcessor::new(settings());
    let ev = WebhookEvent {
        meta: None,
        id: None,
        name: None,
        account_id: String::new(),
        entity_type: "demand".to_string(),
        action: "update".to_string(),
        entity: None,
        content: Some(WebhookContent { entity: None, id: Some("d1".to_string()), entity_type: None }),
    };
    match call(p.process_webhook(ev)) {
        Request::FetchDocument { kind, id } => {
            assert_eq!(kind, DocumentKind::Demand);
            assert_eq!(id, "d1");
        },
        _ => panic!("expected the document"),
    }
    let results = done(p.resume(Reply::Document(document(false, "s1", vec![]))));
    assert_eq!(results.len(), 1);
}

#[test]
fn event_without_document_fails() {
    let mut p = DemandProcessor::new(settings());
    let mut ev = inline_event(document(true, "s1", vec![]));
    ev.entity = None;
    assert_eq!(failed(p.process_webhook(ev)), "no document data in webhook event");
    let mut ev = inline_event(document(true, "s1", vec![]));
    ev.entity = None;
    ev.content = Some(WebhookContent { entity: None, id: None, entity_type: None });
    assert_eq!(failed(p.process_webhook(ev)), "no document id in webhook content");
}

#[test]
fn missing_store_fails_document() {
    let mut p = DemandProcessor::new(settings());
    call(p.process_webhook(inline_event(document(true, "s1", vec![line("prd1", "Cake", 1000)]))));
    assert_eq!(failed(p.resume(Reply::Store(None))), "store 'Main' not found");
    assert!(p.store_cache.is_none());
}

#[test]
fn warehouse_is_looked_up_once() {
    let mut p = DemandProcessor::new(settings());
    done(start(&mut p, document(true, "s1", vec![])));
    expect_stock(p.process_webhook(inline_event(document(true, "s1", vec![line("prd1", "Cake", 1000)]))), "prd1");
}

#[test]
fn line_failure_does_not_stop_other_lines() {
    let mut p = DemandProcessor::new(settings());
    let d = document(true, "s1", vec![line("prd1", "Cake", 1000), line("prd2", "Pie", 3000)]);
    expect_stock(start(&mut p, d), "prd1");
    expect_stock(p.resume(Reply::Failed("API error 500".to_string())), "prd2");
    let results = done(p.resume(report("prd2", "s1", 9000)));
    assert_eq!(results.len(), 2);
    assert!(!results[0].success);
    assert_eq!(results[0].message, "error processing line: API error 500");
    assert_eq!(results[0].error, Some("API error 500".to_string()));
    let info = results[0].product.as_ref().unwrap();
    assert_eq!((info.id.as_str(), info.name.as_str(), info.quantity, info.stock_before), ("prd1", "Cake", 1000, 0));
    assert!(results[1].success);
    assert_eq!(success_count(&results), 1);
}

#[test]
fn unknown_plan_fails_line() {
    let mut p = DemandProcessor::new(settings());
    expect_stock(start(&mut p, document(true, "s1", vec![line("prd1", "Cake", 1000)])), "prd1");
    call(p.resume(report("prd1", "s1", 0)));
    call(p.resume(product("prd1", "Ghost plan")));
    let results = done(p.resume(Reply::Plan(None)));
    assert!(!results[0].success);
    assert_eq!(results[0].error, Some("processing plan 'Ghost plan' not found".to_string()));
}

#[test]
fn missing_organization_fails_document() {
    let mut p = DemandProcessor::new(settings());
    expect_stock(start(&mut p, document(true, "s1", vec![line("prd1", "Cake", 1000)])), "prd1");
    call(p.resume(report("prd1", "s1", 0)));
    call(p.resume(product("prd1", "Cake plan")));
    call(p.resume(plan(vec![])));
    assert_eq!(failed(p.resume(Reply::Organization(None))), "no organization found");
    assert!(p.is_idle());
}

#[test]
fn reply_of_wrong_kind_fails_line() {
    let mut p = DemandProcessor::new(settings());
    expect_stock(start(&mut p, document(true, "s1", vec![line("prd1", "Cake", 1000)])), "prd1");
    let results = done(p.resume(product("prd1", "x")));
    assert_eq!(results[0].error, Some("unexpected reply from the inventory backend".to_string()));
}

#[test]
fn resume_without_document_fails() {
    let mut p = DemandProcessor::new(settings());
    assert_eq!(failed(p.resume(Reply::Store(None))), "no document is being processed");
}

#[test]
fn reset_caches_looks_warehouse_up_again() {
    let mut p = DemandProcessor::new(settings());
    done(start(&mut p, document(true, "s1", vec![])));
    assert!(p.store_cache.is_some());
    p.reset_caches();
    assert!(p.store_cache.is_none());
    assert!(p.organization_cache.is_none());
    match call(p.process_webhook(inline_event(document(true, "s1", vec![line("prd1", "Cake", 1000)])))) {
        Request::FindStore { name } => assert_eq!(name, "Main"),
        _ => panic!("expected the warehouse lookup"),
    }
}

#[test]
fn document_without_lines_gives_no_results() {
    let mut p = DemandProcessor::new(settings());
    let mut d = document(true, "s1", vec![]);
    d.positions = None;
    assert!(done(start(&mut p, d)).is_empty());
}

#[test]
fn document_without_warehouse_is_processed() {
    let mut p = DemandProcessor::new(settings());
    let mut d = document(true, "s1", vec![line("prd1", "Cake", 1000)]);
    d.store.id = None;
    expect_stock(start(&mut p, d), "prd1");
}

#[test]
fn monitored_store_without_id_fails_document() {
    let mut p = DemandProcessor::new(settings());
    call(p.process_webhook(inline_event(document(true, "s1", vec![line("prd1", "Cake", 1000)]))));
    let mut store = entity("store", "s1", "Main");
    store.id = None;
    assert_eq!(failed(p.resume(Reply::Store(Some(store)))), "monitored store has no id");
}
