//! The entities of the inventory backend, as the library reads them.
//!
//! Quantities are integers in thousandths of a unit (see [`crate::quantity`]).

use vstd::prelude::*;
use crate::quantity::{quantity_string, quantity_text};

verus! {

/// The metadata of an entity; `href` is its resource link.
pub struct Meta {
    pub href: String,
    pub metadata_href: Option<String>,
    pub entity_type: Option<String>,
    pub media_type: Option<String>,
    pub size: Option<u32>,
    pub limit: Option<u32>,
    pub offset: Option<u32>,
}

fn copy_text(s: &Option<String>) -> (r: Option<String>)
    ensures
        r == *s,
{
    match s {
        Some(t) => Some(t.clone()),
        None => None,
    }
}

impl Meta {
    /// A copy of the metadata.
    pub fn duplicate(&self) -> (r: Meta)
        ensures
            r == *self,
    {
        Meta {
            href: self.href.clone(),
            metadata_href: copy_text(&self.metadata_href),
            entity_type: copy_text(&self.entity_type),
            media_type: copy_text(&self.media_type),
            size: self.size,
            limit: self.limit,
            offset: self.offset,
        }
    }
}

/// A reference to an entity: its link, and its identifier and name where known.
pub struct EntityRef {
    pub meta: Meta,
    pub id: Option<String>,
    pub name: Option<String>,
}

impl EntityRef {
    /// A copy of the reference.
    pub fn duplicate(&self) -> (r: EntityRef)
        ensures
            r == *self,
    {
        EntityRef { meta: self.meta.duplicate(), id: copy_text(&self.id), name: copy_text(&self.name) }
    }
}

/// A warehouse.
pub struct Store {
    pub meta: Meta,
    pub id: String,
    pub name: String,
}

/// A product with its custom attributes.
pub struct Product {
    pub meta: Meta,
    pub id: String,
    pub name: String,
    pub code: Option<String>,
    pub external_code: Option<String>,
    pub attributes: Option<Vec<Attribute>>,
}

/// A custom attribute of a product.
pub struct Attribute {
    pub id: String,
    pub name: String,
    pub attr_type: String,
    pub value: Option<AttributeValue>,
}

/// The typed value of an attribute; a number is in thousandths.
pub enum AttributeValue {
    String(String),
    Number(i64),
    Boolean(bool),
    EntityRef(EntityRef),
}

/// The text of an attribute's value: a string as it is, a number in decimal,
/// a flag as `true` or `false`, a reference by its name.
pub open spec fn attribute_text(a: Attribute) -> Option<Seq<char>> {
    match a.value {
        Some(AttributeValue::String(s)) => Some(s@),
        Some(AttributeValue::Number(n)) => Some(quantity_text(n as int)),
        Some(AttributeValue::Boolean(b)) => Some(if b { "true"@ } else { "false"@ }),
        Some(AttributeValue::EntityRef(e)) => match e.name {
            Some(n) => Some(n@),
            None => None,
        },
        None => None,
    }
}

impl Attribute {
    /// The value as text, where it has one.
    pub fn as_string(&self) -> (r: Option<String>)
        ensures
            r matches Some(s) ==> attribute_text(*self) == Some(s@),
            r is None ==> attribute_text(*self) is None,
    {
        match &self.value {
            Some(AttributeValue::String(s)) => Some(s.clone()),
            Some(AttributeValue::Number(n)) => Some(quantity_string(*n as i128)),
            Some(AttributeValue::Boolean(b)) => Some(
                if *b {
                    String::from_str("true")
                } else {
                    String::from_str("false")
                },
            ),
            Some(AttributeValue::EntityRef(e)) => copy_text(&e.name),
            None => None,
        }
    }
}

/// A row of the stock report.
pub struct StockRow {
    pub meta: Option<Meta>,
    pub stock: Option<i64>,
    pub reserve: Option<i64>,
    pub in_transit: Option<i64>,
    pub name: Option<String>,
    pub code: Option<String>,
    pub article: Option<String>,
    pub assortment_id: String,
    pub variant_id: Option<String>,
    pub stock_by_store: Option<Vec<StoreStock>>,
}

/// Stock of a product at one warehouse.
pub struct StoreStock {
    pub meta: Meta,
    pub stock: i64,
    pub reserve: i64,
    pub in_transit: i64,
}

pub open spec fn or_zero(v: Option<i64>) -> int {
    match v {
        Some(x) => x as int,
        None => 0,
    }
}

impl StockRow {
    /// Available stock: stock less reserve, an absent figure counting as zero.
    pub fn available(&self) -> (r: i128)
        ensures
            r == or_zero(self.stock) - or_zero(self.reserve),
    {
        let s: i64 = match self.stock {
            Some(x) => x,
            None => 0,
        };
        let q: i64 = match self.reserve {
            Some(x) => x,
            None => 0,
        };
        s as i128 - q as i128
    }
}

/// A row of the per-warehouse stock report: one product.
pub struct StockByStoreRow {
    pub meta: Meta,
    pub stock_by_store: Option<Vec<StoreStockInfo>>,
}

/// The stock of the row's product at one warehouse.
pub struct StoreStockInfo {
    pub meta: Meta,
    pub name: String,
    pub stock: i64,
    pub reserve: i64,
    pub in_transit: i64,
}

/// A bill of materials ("tech card"): what it produces and what it consumes.
pub struct ProcessingPlan {
    pub meta: Meta,
    pub id: String,
    pub name: String,
    pub external_code: Option<String>,
    pub products: Option<ProcessingPlanProductsExpanded>,
    pub materials: Option<ProcessingPlanMaterialsExpanded>,
}

/// The outputs of a bill of materials.
pub struct ProcessingPlanProductsExpanded {
    pub meta: Meta,
    pub rows: Option<Vec<ProcessingPlanProduct>>,
}

/// The materials of a bill of materials.
pub struct ProcessingPlanMaterialsExpanded {
    pub meta: Meta,
    pub rows: Option<Vec<ProcessingPlanMaterial>>,
}

/// An output of a bill of materials and its yield.
pub struct ProcessingPlanProduct {
    pub id: Option<String>,
    pub product: EntityRef,
    pub assortment: EntityRef,
    pub quantity: i64,
}

/// A material of a bill of materials and its quantity per produced unit.
pub struct ProcessingPlanMaterial {
    pub id: Option<String>,
    pub product: EntityRef,
    pub assortment: EntityRef,
    pub quantity: i64,
}

/// The materials that a bill of materials lists, none where it lists none.
pub open spec fn plan_materials(plan: ProcessingPlan) -> Seq<ProcessingPlanMaterial> {
    match plan.materials {
        Some(m) => match m.rows {
            Some(r) => r@,
            None => seq![],
        },
        None => seq![],
    }
}

/// A production transaction.
pub struct Processing {
    pub meta: Meta,
    pub id: String,
    pub name: String,
    pub description: Option<String>,
    pub external_code: Option<String>,
    pub moment: Option<String>,
    pub applicable: Option<bool>,
    pub status_name: Option<String>,
    pub processing_plan: Option<EntityRef>,
    pub products: Option<ProcessingProducts>,
    pub materials: Option<ProcessingMaterials>,
    pub store: Option<EntityRef>,
    pub organization: Option<EntityRef>,
    pub created: Option<String>,
    pub updated: Option<String>,
}

/// The link to a transaction's outputs.
pub struct ProcessingProducts {
    pub meta: Meta,
}

/// The link to a transaction's materials.
pub struct ProcessingMaterials {
    pub meta: Meta,
}

/// An output of a production transaction.
pub struct ProcessingProduct {
    pub id: Option<String>,
    pub meta: Option<Meta>,
    pub processing_plan_position: Option<PlanPosition>,
    pub processing_plan_product: Option<EntityRef>,
    pub assortment: EntityRef,
    pub product: EntityRef,
    pub quantity: i64,
    pub quantity_per_product: Option<i64>,
}

/// A material of a production transaction.
pub struct ProcessingMaterial {
    pub id: Option<String>,
    pub meta: Option<Meta>,
    pub processing_plan_position: Option<PlanPosition>,
    pub processing_plan_material: Option<EntityRef>,
    pub assortment: EntityRef,
    pub product: EntityRef,
    pub quantity: i64,
    pub quantity_per_product: Option<i64>,
}

/// A position of a bill of materials.
pub struct PlanPosition {
    pub meta: Meta,
    pub id: String,
    pub quantity: i64,
}

/// A sales document (a shipment or a customer order) whose lines are watched.
pub struct Demand {
    pub meta: Meta,
    pub id: String,
    pub name: String,
    pub external_code: Option<String>,
    pub moment: String,
    pub applicable: bool,
    pub status_name: Option<String>,
    pub state: Option<EntityRef>,
    pub store: EntityRef,
    pub organization: EntityRef,
    pub agent: EntityRef,
    pub positions: Option<DemandPositions>,
    pub created: Option<String>,
    pub updated: Option<String>,
}

/// The lines of a document.
pub struct DemandPositions {
    pub meta: Meta,
    pub rows: Vec<DemandPosition>,
}

/// A line of a document: a product and its quantity.
pub struct DemandPosition {
    pub id: Option<String>,
    pub meta: Option<Meta>,
    pub assortment: EntityRef,
    pub product: Option<EntityRef>,
    pub quantity: i64,
    pub price: i64,
    pub discount: Option<i64>,
    pub vat: Option<i64>,
    pub reserve: Option<i64>,
}

/// The lines of a document, none where it lists none.
pub open spec fn document_lines(d: Demand) -> Seq<DemandPosition> {
    match d.positions {
        Some(p) => p.rows@,
        None => seq![],
    }
}

/// A change notification of the inventory backend.
pub struct WebhookEvent {
    pub meta: Option<Meta>,
    pub id: Option<String>,
    pub name: Option<String>,
    pub account_id: String,
    pub entity_type: String,
    pub action: String,
    pub entity: Option<Demand>,
    pub content: Option<WebhookContent>,
}

/// What a notification carries about its document.
pub struct WebhookContent {
    pub entity: Option<Demand>,
    pub id: Option<String>,
    pub entity_type: Option<String>,
}

/// A page of a list answer.
pub struct ApiResponse<T> {
    pub meta: Option<ResponseMeta>,
    pub rows: Option<Vec<T>>,
    pub context: Option<Context>,
}

impl<T> ApiResponse<T> {
    /// The first row of the page, if there is one.
    pub fn first_row(self) -> (r: Option<T>)
        ensures
            r == (match self.rows {
                Some(v) => if v@.len() > 0 { Some(v@[0]) } else { None },
                None => None,
            }),
    {
        match self.rows {
            Some(mut v) => {
                if v.len() > 0 {
                    Some(v.remove(0))
                } else {
                    None
                }
            },
            None => None,
        }
    }
}

/// The metadata of a list answer.
pub struct ResponseMeta {
    pub href: String,
    pub meta_type: Option<String>,
    pub media_type: Option<String>,
    pub size: Option<u32>,
    pub limit: Option<u32>,
    pub offset: Option<u32>,
}

/// The context of an answer.
pub struct Context {
    pub employee: Option<EmployeeRef>,
}

/// A reference to the employee that made a request.
pub struct EmployeeRef {
    pub meta: Meta,
}

/// What is sent to create a production transaction; quantities in thousandths.
pub struct CreateProcessingRequest {
    pub processing_plan: ProcessingPlanRef,
    pub store: EntityRefSmall,
    pub products_store: EntityRefSmall,
    pub organization: EntityRefSmall,
    pub quantity: i64,
    pub name: Option<String>,
    pub description: Option<String>,
    pub processing_sum: i64,
}

/// A reference to a bill of materials by its metadata.
pub struct ProcessingPlanRef {
    pub meta: Meta,
}

/// A reference to an entity by its metadata alone.
pub struct EntityRefSmall {
    pub meta: Meta,
}

/// An output to send with a production transaction.
pub struct ProcessingProductInput {
    pub product: EntityRefSmall,
    pub quantity: i64,
    pub processing_plan_position: Option<PlanPositionRef>,
}

/// A material to send with a production transaction.
pub struct ProcessingMaterialInput {
    pub product: EntityRefSmall,
    pub quantity: i64,
    pub processing_plan_position: Option<PlanPositionRef>,
}

/// A reference to a position of a bill of materials.
pub struct PlanPositionRef {
    pub meta: Meta,
}

/// The outcome for one line of a document, or for a document skipped whole.
pub struct ProcessingResult {
    pub success: bool,
    pub message: String,
    pub demand_id: Option<String>,
    pub demand_name: Option<String>,
    pub processing_id: Option<String>,
    pub processing_name: Option<String>,
    pub product: Option<ProductInfo>,
    pub error: Option<String>,
}

/// The product of a line: quantities in thousandths, `stock_before` as
/// observed before the decision.
pub struct ProductInfo {
    pub id: String,
    pub name: String,
    pub quantity: i64,
    pub stock_before: i128,
}

} // verus!
