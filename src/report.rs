//! The results reported for a document: one per line, or one for a document
//! skipped whole, each with its message.

use vstd::prelude::*;
use crate::line::{LineOutcome, LineTask};
use crate::models::{Demand, ProcessingResult, ProductInfo};
use crate::quantity::{decimal_string, decimal_text, quantity_string, quantity_text, MICRO_PLACES};
use crate::stock::{shortfall_list, Shortfall};

verus! {

pub open spec fn sufficient_message(stock: int, threshold: int) -> Seq<char> {
    "stock is sufficient ("@ + quantity_text(stock) + " >= "@ + quantity_text(threshold) + ")"@
}

pub open spec fn no_tech_card_message() -> Seq<char> {
    "tech card not found in the product card"@
}

pub open spec fn no_tech_card_error() -> Seq<char> {
    "tech card not found"@
}

/// One short material in a message: its name and the amount missing.
pub open spec fn shortage_item(e: (Seq<char>, int)) -> Seq<char> {
    e.0 + ": missing "@ + decimal_text(e.1, 6)
}

/// The first `n` short materials, separated by commas.
pub open spec fn shortage_items(list: Seq<(Seq<char>, int)>, n: int) -> Seq<char>
    decreases n,
{
    if n <= 0 {
        Seq::empty()
    } else if n == 1 {
        shortage_item(list[0])
    } else {
        shortage_items(list, n - 1) + ", "@ + shortage_item(list[n - 1])
    }
}

pub open spec fn shortage_message(list: Seq<(Seq<char>, int)>) -> Seq<char> {
    "insufficient materials: "@ + shortage_items(list, list.len() as int)
}

pub open spec fn produced_message(quantity: int, name: Seq<char>) -> Seq<char> {
    "created processing to produce "@ + quantity_text(quantity) + " of '"@ + name + "'"@
}

pub open spec fn line_error_message(error: Seq<char>) -> Seq<char> {
    "error processing line: "@ + error
}

pub open spec fn not_confirmed_message() -> Seq<char> {
    "document not confirmed, skipping"@
}

/// The name of a document's warehouse, or `unknown`.
pub open spec fn store_label(d: Demand) -> Seq<char> {
    match d.store.name {
        Some(n) => n@,
        None => "unknown"@,
    }
}

pub open spec fn other_store_message(d: Demand) -> Seq<char> {
    "document is for a different warehouse ("@ + store_label(d) + ")"@
}

/// `p` describes the product of line `t` with the stock observed before the
/// decision.
pub open spec fn product_matches(p: Option<ProductInfo>, t: LineTask, stock: int) -> bool {
    p matches Some(i) && i.id@ == t.product_id@ && i.name@ == t.product_name@ && i.quantity
        == t.quantity && i.stock_before == stock
}

/// `r` names document `d`.
pub open spec fn names_document(r: ProcessingResult, d: Demand) -> bool {
    r.demand_id == Some(d.id) && r.demand_name == Some(d.name)
}

/// `r` reports line `t` of document `d` that ended in `o`, against
/// `threshold`.
pub open spec fn result_for_outcome(r: ProcessingResult, d: Demand, t: LineTask, o: LineOutcome, threshold: int) -> bool {
    &&& names_document(r, d)
    &&& match o {
        LineOutcome::Sufficient { stock } => {
            &&& r.success
            &&& r.message@ == sufficient_message(stock as int, threshold)
            &&& r.processing_id is None && r.processing_name is None
            &&& r.error is None
            &&& product_matches(r.product, t, stock as int)
        },
        LineOutcome::NoTechCard { stock } => {
            &&& !r.success
            &&& r.message@ == no_tech_card_message()
            &&& r.processing_id is None && r.processing_name is None
            &&& r.error matches Some(e) && e@ == no_tech_card_error()
            &&& product_matches(r.product, t, stock as int)
        },
        LineOutcome::Shortage { stock, missing } => {
            &&& !r.success
            &&& r.message@ == shortage_message(shortfall_list(missing@))
            &&& r.processing_id is None && r.processing_name is None
            &&& r.error matches Some(e) && e@ == shortage_message(shortfall_list(missing@))
            &&& product_matches(r.product, t, stock as int)
        },
        LineOutcome::Produced { stock, processing } => {
            &&& r.success
            &&& r.message@ == produced_message(t.quantity as int, t.product_name@)
            &&& r.processing_id == Some(processing.id)
            &&& r.processing_name == Some(processing.name)
            &&& r.error is None
            &&& product_matches(r.product, t, stock as int)
        },
        LineOutcome::Failed { error } => {
            &&& !r.success
            &&& r.message@ == line_error_message(error@)
            &&& r.processing_id is None && r.processing_name is None
            &&& r.error matches Some(e) && e@ == error@
            &&& product_matches(r.product, t, 0)
        },
    }
}

/// `r` reports document `d` skipped whole, with `message`.
pub open spec fn skip_result_matches(r: ProcessingResult, d: Demand, message: Seq<char>) -> bool {
    &&& names_document(r, d)
    &&& r.success
    &&& r.message@ == message
    &&& r.processing_id is None && r.processing_name is None
    &&& r.product is None
    &&& r.error is None
}

fn concat(s: String, t: &str) -> (r: String)
    ensures
        r@ == s@ + t@,
{
    let mut s = s;
    s.append(t);
    s
}

/// The message listing short materials.
pub fn shortage_text(missing: &Vec<Shortfall>) -> (r: String)
    ensures
        r@ == shortage_message(shortfall_list(missing@)),
{
    let ghost list = shortfall_list(missing@);
    let mut items = String::new();
    let mut i: usize = 0;
    while i < missing.len()
        invariant
            i <= missing@.len(),
            list == shortfall_list(missing@),
            items@ == shortage_items(list, i as int),
        decreases missing.len() - i,
    {
        if i > 0 {
            items.append(", ");
        }
        let m = &missing[i];
        items.append(m.name.as_str());
        items.append(": missing ");
        items.append(decimal_string(m.missing, MICRO_PLACES).as_str());
        proof {
            assert(list[i as int] == (m.name@, m.missing as int));
        }
        i = i + 1;
        assert(items@ =~= shortage_items(list, i as int));
    }
    concat(String::from_str("insufficient materials: "), items.as_str())
}

fn product_info(t: &LineTask, stock: i128) -> (r: ProductInfo)
    ensures
        product_matches(Some(r), *t, stock as int),
{
    ProductInfo {
        id: t.product_id.clone(),
        name: t.product_name.clone(),
        quantity: t.quantity,
        stock_before: stock,
    }
}

/// The result that reports a line of `demand` that ended in `outcome`.
pub fn line_result(demand: &Demand, t: &LineTask, outcome: LineOutcome, threshold: i64) -> (r: ProcessingResult)
    ensures
        result_for_outcome(r, *demand, *t, outcome, threshold as int),
{
    let demand_id = Some(demand.id.clone());
    let demand_name = Some(demand.name.clone());
    match outcome {
        LineOutcome::Sufficient { stock } => {
            let mut message = concat(String::from_str("stock is sufficient ("), quantity_string(stock).as_str());
            message.append(" >= ");
            message.append(quantity_string(threshold as i128).as_str());
            message.append(")");
            ProcessingResult {
                success: true,
                message,
                demand_id,
                demand_name,
                processing_id: None,
                processing_name: None,
                product: Some(product_info(t, stock)),
                error: None,
            }
        },
        LineOutcome::NoTechCard { stock } => ProcessingResult {
            success: false,
            message: String::from_str("tech card not found in the product card"),
            demand_id,
            demand_name,
            processing_id: None,
            processing_name: None,
            product: Some(product_info(t, stock)),
            error: Some(String::from_str("tech card not found")),
        },
        LineOutcome::Shortage { stock, missing } => {
            let text = shortage_text(&missing);
            ProcessingResult {
                success: false,
                message: text.clone(),
                demand_id,
                demand_name,
                processing_id: None,
                processing_name: None,
                product: Some(product_info(t, stock)),
                error: Some(text),
            }
        },
        LineOutcome::Produced { stock, processing } => {
            let mut message = concat(
                String::from_str("created processing to produce "),
                quantity_string(t.quantity as i128).as_str(),
            );
            message.append(" of '");
            message.append(t.product_name.as_str());
            message.append("'");
            ProcessingResult {
                success: true,
                message,
                demand_id,
                demand_name,
                processing_id: Some(processing.id),
                processing_name: Some(processing.name),
                product: Some(product_info(t, stock)),
                error: None,
            }
        },
        LineOutcome::Failed { error } => ProcessingResult {
            success: false,
            message: concat(String::from_str("error processing line: "), error.as_str()),
            demand_id,
            demand_name,
            processing_id: None,
            processing_name: None,
            product: Some(product_info(t, 0)),
            error: Some(error),
        },
    }
}

/// The single result that reports `demand` skipped whole.
pub fn skip_result(demand: &Demand, message: String) -> (r: ProcessingResult)
    ensures
        skip_result_matches(r, *demand, message@),
{
    ProcessingResult {
        success: true,
        message,
        demand_id: Some(demand.id.clone()),
        demand_name: Some(demand.name.clone()),
        processing_id: None,
        processing_name: None,
        product: None,
        error: None,
    }
}

/// The message for a document of another warehouse.
pub fn other_store_text(demand: &Demand) -> (r: String)
    ensures
        r@ == other_store_message(*demand),
{
    let mut s = String::from_str("document is for a different warehouse (");
    match &demand.store.name {
        Some(n) => s.append(n.as_str()),
        None => s.append("unknown"),
    }
    s.append(")");
    s
}

} // verus!
