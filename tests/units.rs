use moysklad_autoproduction::api::{full_url, Method, Request};
use moysklad_autoproduction::config::{DocumentKind, Settings};
use moysklad_autoproduction::line::find_tech_card_name;
use moysklad_autoproduction::models::{
    ApiResponse, Attribute, AttributeValue, EntityRef, Meta, ProcessingPlanMaterial, Product,
    StockByStoreRow, StockRow, StoreStockInfo,
};
use moysklad_autoproduction::quantity::{decimal_string, quantity_string, required_quantity};
use moysklad_autoproduction::stock::{check_materials_availability, stock_in_report};
use moysklad_autoproduction::text::{id_from_href, strip_quotes, unquote};
use moysklad_autoproduction::webhook::{event_from_query, ignored_text, manual_event, WebhookQuery};

fn meta(href: &str) -> Meta {
    Meta {
        href: href.to_string(),
        metadata_href: None,
        entity_type: None,
        media_type: None,
        size: None,
        limit: None,
        offset: None,
    }
}

fn entity(href: &str, name: Option<&str>) -> EntityRef {
    EntityRef { meta: meta(href), id: None, name: name.map(|n| n.to_string()) }
}

fn material(id: &str, name: &str, per_unit: i64) -> ProcessingPlanMaterial {
    let href = format!("https://api/entity/product/{}", id);
    ProcessingPlanMaterial {
        id: None,
        product: entity(&href, Some(name)),
        assortment: entity(&href, Some(name)),
        quantity: per_unit,
    }
}

fn stock_row(product: &str, entries: Vec<(&str, i64, i64)>) -> StockByStoreRow {
    StockByStoreRow {
        meta: meta(&format!("https://api/entity/product/{}", product)),
        stock_by_store: Some(
            entries
                .into_iter()
                .map(|(store, stock, reserve)| StoreStockInfo {
                    meta: meta(&format!("https://api/entity/store/{}", store)),
                    name: store.to_string(),
                    stock,
                    reserve,
                    in_transit: 0,
                })
                .collect(),
        ),
    }
}

fn attribute(name: &str, value: Option<AttributeValue>) -> Attribute {
    Attribute { id: "a".to_string(), name: name.to_string(), attr_type: "string".to_string(), value }
}

fn product_with(attributes: Option<Vec<Attribute>>) -> Product {
    Product {
        meta: meta("https://api/entity/product/prd1"),
        id: "prd1".to_string(),
        name: "Widget".to_string(),
        code: None,
        external_code: None,
        attributes,
    }
}

#[test]
fn quantity_text_of_whole_and_fractional_values() {
    assert_eq!(quantity_string(5000), "5");
    assert_eq!(quantity_string(2000), "2");
    assert_eq!(quantity_string(500), "0.5");
    assert_eq!(quantity_string(50), "0.05");
    assert_eq!(quantity_string(-1250), "-1.25");
    assert_eq!(quantity_string(0), "0");
    assert_eq!(quantity_string(1234567), "1234.567");
}

#[test]
fn decimal_text_in_millionths() {
    assert_eq!(decimal_string(6_000_000, 6), "6");
    assert_eq!(decimal_string(2_500_000, 6), "2.5");
    assert_eq!(decimal_string(1, 6), "0.000001");
    assert_eq!(decimal_string(i128::MIN, 0), "-170141183460469231731687303715884105728");
}

#[test]
fn required_quantity_scales_linearly() {
    // 10 units per unit, 1 unit produced: 10 units, in millionths
    assert_eq!(required_quantity(10_000, 1_000), 10_000_000);
    // 0.5 per unit, 3 units: 1.5
    assert_eq!(required_quantity(500, 3_000), 1_500_000);
    assert_eq!(required_quantity(500, 6_000), 2 * required_quantity(500, 3_000));
    assert_eq!(required_quantity(i64::MIN, i64::MIN), (i64::MIN as i128) * (i64::MIN as i128));
}

#[test]
fn identifier_is_last_path_segment() {
    assert_eq!(id_from_href("https://api.moysklad.ru/api/remap/1.2/entity/product/abc-1"), "abc-1");
    assert_eq!(id_from_href("plain"), "plain");
    assert_eq!(id_from_href("https://x/entity/"), "");
    assert_eq!(id_from_href(""), "");
}

#[test]
fn strip_quotes_removes_whitespace_and_one_pair() {
    assert_eq!(strip_quotes("  \"secret\"  "), "secret");
    assert_eq!(strip_quotes("'Техкарта'"), "Техкарта");
    assert_eq!(strip_quotes("\"mixed'"), "\"mixed'");
    assert_eq!(strip_quotes("\""), "\"");
    assert_eq!(strip_quotes("\"\""), "");
    assert_eq!(strip_quotes(" plain "), "plain");
    assert_eq!(unquote(" 'a' "), " 'a' ");
}

#[test]
fn stock_report_gives_stock_less_reserve() {
    let rows = vec![
        stock_row("other", vec![("s1", 9000, 0)]),
        stock_row("prd1", vec![("s2", 7000, 0), ("s1", 5000, 1500)]),
    ];
    assert_eq!(stock_in_report(&rows, &"prd1".to_string(), &"s1".to_string()), 3500);
    assert_eq!(stock_in_report(&rows, &"prd1".to_string(), &"s3".to_string()), 0);
    assert_eq!(stock_in_report(&rows, &"none".to_string(), &"s1".to_string()), 0);
    assert_eq!(stock_in_report(&Vec::new(), &"prd1".to_string(), &"s1".to_string()), 0);
}

#[test]
fn stock_report_takes_first_row_with_the_warehouse() {
    let rows = vec![
        stock_row("prd1", vec![("s2", 7000, 0)]),
        stock_row("prd1", vec![("s1", 4000, 0)]),
        stock_row("prd1", vec![("s1", 8000, 0)]),
    ];
    assert_eq!(stock_in_report(&rows, &"prd1".to_string(), &"s1".to_string()), 4000);
}

#[test]
fn stock_row_available() {
    let row = StockRow {
        meta: None,
        stock: Some(5000),
        reserve: Some(1500),
        in_transit: None,
        name: None,
        code: None,
        article: None,
        assortment_id: "prd1".to_string(),
        variant_id: None,
        stock_by_store: None,
    };
    assert_eq!(row.available(), 3500);
    let empty = StockRow { stock: None, reserve: Some(1000), ..row };
    assert_eq!(empty.available(), -1000);
}

#[test]
fn shortfall_is_required_less_available() {
    let materials = vec![material("m1", "Flour", 10_000), material("m2", "Salt", 1_000)];
    // one unit: Flour needs 10 and has 4; Salt needs 1 and has 3
    let r = check_materials_availability(&materials, 1_000, &vec![4_000, 3_000]);
    assert!(!r.available);
    assert_eq!(r.missing.len(), 1);
    assert_eq!(r.missing[0].name, "Flour");
    assert_eq!(r.missing[0].missing, 6_000_000);
}

#[test]
fn no_shortfall_when_stock_covers_need() {
    let materials = vec![material("m1", "Flour", 10_000)];
    let r = check_materials_availability(&materials, 1_000, &vec![10_000]);
    assert!(r.available);
    assert!(r.missing.is_empty());
    let none = check_materials_availability(&Vec::new(), 5_000, &Vec::new());
    assert!(none.available);
}

#[test]
fn shortfalls_keep_bill_order_and_scale_with_quantity() {
    let materials = vec![material("m1", "A", 2_000), material("m2", "B", 500), material("m3", "C", 1_000)];
    let r = check_materials_availability(&materials, 3_000, &vec![1_000, 2_000, -500]);
    assert!(!r.available);
    let got: Vec<(String, i128)> = r.missing.iter().map(|s| (s.name.clone(), s.missing)).collect();
    assert_eq!(got, vec![("A".to_string(), 5_000_000), ("C".to_string(), 3_500_000)]);
}

#[test]
fn availability_check_is_repeatable() {
    let materials = vec![material("m1", "A", 2_000), material("m2", "B", 500)];
    let stocks = vec![1_000, 100];
    let first = check_materials_availability(&materials, 3_000, &stocks);
    let second = check_materials_availability(&materials, 3_000, &stocks);
    let a: Vec<(String, i128)> = first.missing.iter().map(|s| (s.name.clone(), s.missing)).collect();
    let b: Vec<(String, i128)> = second.missing.iter().map(|s| (s.name.clone(), s.missing)).collect();
    assert_eq!(a, b);
    assert_eq!(first.available, second.available);
}

#[test]
fn tech_card_name_from_configured_attribute() {
    let field = "Техкарта".to_string();
    let p = product_with(Some(vec![
        attribute("Other", Some(AttributeValue::String("x".to_string()))),
        attribute("Техкарта", None),
        attribute("Техкарта", Some(AttributeValue::String("Plan A".to_string()))),
    ]));
    assert_eq!(find_tech_card_name(&p, &field), "Plan A");
    assert_eq!(find_tech_card_name(&product_with(None), &field), "");
    let number = product_with(Some(vec![attribute("Техкарта", Some(AttributeValue::Number(2500)))]));
    assert_eq!(find_tech_card_name(&number, &field), "2.5");
    let flag = product_with(Some(vec![attribute("Техкарта", Some(AttributeValue::Boolean(true)))]));
    assert_eq!(find_tech_card_name(&flag, &field), "true");
    let reference = product_with(Some(vec![attribute(
        "Техкарта",
        Some(AttributeValue::EntityRef(entity("https://x/entity/processingplan/1", Some("Plan R")))),
    )]));
    assert_eq!(find_tech_card_name(&reference, &field), "Plan R");
}

#[test]
fn endpoints_of_requests() {
    let store = Request::FindStore { name: "Кобрино FBS".to_string() };
    assert_eq!(store.endpoint(), "/entity/store?filter=name=%D0%9A%D0%BE%D0%B1%D1%80%D0%B8%D0%BD%D0%BE%20FBS");
    assert_eq!(store.method(), Method::Get);
    let plan = Request::FindPlan { name: "Plan A/1".to_string() };
    assert_eq!(plan.endpoint(), "/entity/processingplan?filter=name=Plan%20A%2F1&expand=materials,products");
    let doc = Request::FetchDocument { kind: DocumentKind::CustomerOrder, id: "o1".to_string() };
    assert_eq!(doc.endpoint(), "/entity/customerorder/o1?expand=positions,store,organization,agent");
    let demand = Request::FetchDocument { kind: DocumentKind::Demand, id: "d1".to_string() };
    assert_eq!(demand.endpoint(), "/entity/demand/d1?expand=positions,store,organization,agent");
    let apply = Request::ApplyProcessing { processing_id: "t1".to_string() };
    assert_eq!(apply.endpoint(), "/entity/processing/t1");
    assert_eq!(apply.method(), Method::Put);
    assert_eq!(Request::GetOrganization.endpoint(), "/entity/organization");
    let stock = Request::GetStock { product_id: "p".to_string(), store_id: "s".to_string() };
    assert_eq!(stock.endpoint(), "/report/stock/bystore?limit=1000");
    let product = Request::GetProduct { product_id: "prd1".to_string() };
    assert_eq!(product.endpoint(), "/entity/product/prd1?expand=attributes");
}

#[test]
fn urls_of_endpoints() {
    assert_eq!(full_url("/entity/organization"), "https://api.moysklad.ru/api/remap/1.2/entity/organization");
    assert_eq!(full_url("https://other/x"), "https://other/x");
    assert_eq!(full_url(""), "https://api.moysklad.ru/api/remap/1.2");
}

#[test]
fn first_row_of_a_page() {
    let page = ApiResponse { meta: None, rows: Some(vec![1, 2, 3]), context: None };
    assert_eq!(page.first_row(), Some(1));
    let empty: ApiResponse<i32> = ApiResponse { meta: None, rows: Some(vec![]), context: None };
    assert_eq!(empty.first_row(), None);
    let none: ApiResponse<i32> = ApiResponse { meta: None, rows: None, context: None };
    assert_eq!(none.first_row(), None);
}

#[test]
fn settings_defaults() {
    let s = Settings::default();
    assert_eq!(s.store_name, "Кобрино FBS");
    assert_eq!(s.tech_card_field_name, "Техкарта");
    assert_eq!(s.min_stock_threshold, 2000);
    assert_eq!(s.server_port, 8080);
    assert_eq!(s.server_host, "0.0.0.0");
    assert_eq!(s.trigger_kind, DocumentKind::Demand);
    assert_eq!(s.moysklad_token, "");
}

#[test]
fn settings_from_values() {
    let r = Settings::from_values(
        &Some(" \"tok\" ".to_string()),
        &Some("'Main'".to_string()),
        &None,
        Some(3500),
        None,
        &None,
        &Some("customerorder".to_string()),
    );
    let s = r.unwrap();
    assert_eq!(s.moysklad_token, "tok");
    assert_eq!(s.store_name, "Main");
    assert_eq!(s.tech_card_field_name, "Техкарта");
    assert_eq!(s.min_stock_threshold, 3500);
    assert_eq!(s.server_port, 8080);
    assert_eq!(s.trigger_kind, DocumentKind::CustomerOrder);
}

#[test]
fn settings_need_a_token() {
    let r = Settings::from_values(&None, &None, &None, None, None, &None, &None);
    assert_eq!(r.err(), Some("MOYSKLAD_TOKEN is required".to_string()));
}

#[test]
fn settings_refuse_an_unknown_kind() {
    let r = Settings::from_values(&Some("t".to_string()), &None, &None, None, None, &None, &Some("supply".to_string()));
    assert_eq!(r.err(), Some("TRIGGER_KIND must be demand or customerorder".to_string()));
}

#[test]
fn query_of_watched_kind_gives_event() {
    let q = WebhookQuery { id: "d1".to_string(), entity_type: "Demand".to_string() };
    let ev = event_from_query(&q, DocumentKind::Demand).unwrap();
    assert_eq!(ev.entity_type, "demand");
    assert_eq!(ev.action, "update");
    let content = ev.content.unwrap();
    assert_eq!(content.id, Some("d1".to_string()));
    assert_eq!(content.entity_type, Some("demand".to_string()));
}

#[test]
fn query_of_other_kind_is_ignored() {
    let q = WebhookQuery { id: "d1".to_string(), entity_type: "Supply".to_string() };
    assert!(event_from_query(&q, DocumentKind::Demand).is_none());
    let q = WebhookQuery { id: "o1".to_string(), entity_type: "Demand".to_string() };
    assert!(event_from_query(&q, DocumentKind::CustomerOrder).is_none());
    assert_eq!(ignored_text(DocumentKind::Demand, &"Supply".to_string()), "not a demand event (type=Supply)");
}

#[test]
fn manual_event_names_the_document() {
    let ev = manual_event(&"o7".to_string(), DocumentKind::CustomerOrder);
    assert_eq!(ev.entity_type, "customerorder");
    assert_eq!(ev.content.unwrap().id, Some("o7".to_string()));
}

#[test]
fn attribute_text_by_kind() {
    assert_eq!(attribute("x", None).as_string(), None);
    assert_eq!(attribute("x", Some(AttributeValue::Boolean(false))).as_string(), Some("false".to_string()));
    assert_eq!(attribute("x", Some(AttributeValue::Number(-3000))).as_string(), Some("-3".to_string()));
    let unnamed = AttributeValue::EntityRef(entity("https://x/entity/y/1", None));
    assert_eq!(attribute("x", Some(unnamed)).as_string(), None);
}

#[test]
fn document_kind_names() {
    assert_eq!(DocumentKind::from_name(&"demand".to_string()), Some(DocumentKind::Demand));
    assert_eq!(DocumentKind::from_name(&"customerorder".to_string()), Some(DocumentKind::CustomerOrder));
    assert_eq!(DocumentKind::from_name(&"Demand".to_string()), None);
    assert_eq!(DocumentKind::CustomerOrder.name(), "customerorder");
}
