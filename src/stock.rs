//! Stock levels and the availability of a bill's materials.

use vstd::prelude::*;
use crate::models::{ProcessingPlanMaterial, StockByStoreRow, StoreStockInfo};
use crate::quantity::{required_amount, required_quantity};
use crate::text::{id_from_href, last_segment};

verus! {

/// The available stock of a warehouse entry: stock less reserve, in thousandths.
pub open spec fn entry_available(e: StoreStockInfo) -> int {
    e.stock - e.reserve
}

/// The available stock at the first entry, from the `i`-th on, whose link
/// names the warehouse `store_id`.
pub open spec fn store_entry_stock(entries: Seq<StoreStockInfo>, store_id: Seq<char>, i: int) -> Option<int>
    decreases entries.len() - i,
{
    if i < 0 || i >= entries.len() {
        None
    } else if last_segment(entries[i].meta.href@) == store_id {
        Some(entry_available(entries[i]))
    } else {
        store_entry_stock(entries, store_id, i + 1)
    }
}

/// The available stock that a row of the report gives for a warehouse.
pub open spec fn row_stock(row: StockByStoreRow, store_id: Seq<char>) -> Option<int> {
    match row.stock_by_store {
        Some(v) => store_entry_stock(v@, store_id, 0),
        None => None,
    }
}

/// The available stock of the first row, from the `i`-th on, of product
/// `product_id` with an entry for warehouse `store_id`; 0 where there is none.
pub open spec fn report_stock_from(
    rows: Seq<StockByStoreRow>,
    product_id: Seq<char>,
    store_id: Seq<char>,
    i: int,
) -> int
    decreases rows.len() - i,
{
    if i < 0 || i >= rows.len() {
        0
    } else if last_segment(rows[i].meta.href@) == product_id && row_stock(rows[i], store_id) is Some {
        row_stock(rows[i], store_id)->0
    } else {
        report_stock_from(rows, product_id, store_id, i + 1)
    }
}

/// The available stock of a product at a warehouse according to a stock report.
pub open spec fn report_stock(rows: Seq<StockByStoreRow>, product_id: Seq<char>, store_id: Seq<char>) -> int {
    report_stock_from(rows, product_id, store_id, 0)
}

/// A stock level that a report can give: a difference of two 64-bit figures.
pub open spec fn stock_in_range(s: int) -> bool {
    -0x1_0000_0000_0000_0000 <= s <= 0x1_0000_0000_0000_0000
}

proof fn lemma_report_stock_in_range(
    rows: Seq<StockByStoreRow>,
    product_id: Seq<char>,
    store_id: Seq<char>,
    i: int,
)
    ensures
        stock_in_range(report_stock_from(rows, product_id, store_id, i)),
    decreases rows.len() - i,
{
    if 0 <= i < rows.len() {
        lemma_report_stock_in_range(rows, product_id, store_id, i + 1);
        if let Some(v) = rows[i].stock_by_store {
            lemma_entry_stock_in_range(v@, store_id, 0);
        }
    }
}

proof fn lemma_entry_stock_in_range(entries: Seq<StoreStockInfo>, store_id: Seq<char>, i: int)
    ensures
        store_entry_stock(entries, store_id, i) matches Some(s) ==> stock_in_range(s),
    decreases entries.len() - i,
{
    if 0 <= i < entries.len() {
        lemma_entry_stock_in_range(entries, store_id, i + 1);
    }
}

fn entry_stock(entries: &Vec<StoreStockInfo>, store_id: &String) -> (r: Option<i128>)
    ensures
        r matches Some(s) ==> store_entry_stock(entries@, store_id@, 0) == Some(s as int),
        r is None ==> store_entry_stock(entries@, store_id@, 0) is None,
{
    let mut j: usize = 0;
    while j < entries.len()
        invariant
            j <= entries@.len(),
            store_entry_stock(entries@, store_id@, 0) == store_entry_stock(entries@, store_id@, j as int),
        decreases entries.len() - j,
    {
        let e = &entries[j];
        let id = id_from_href(e.meta.href.as_str());
        if id == *store_id {
            return Some(e.stock as i128 - e.reserve as i128);
        }
        j = j + 1;
    }
    None
}

/// The available stock (stock less reserve, in thousandths) of a product at a
/// warehouse, read from the per-warehouse stock report: the first row whose
/// link ends in the product's identifier and that has an entry for the
/// warehouse gives it; where no row does, it is 0.
pub fn stock_in_report(rows: &Vec<StockByStoreRow>, product_id: &String, store_id: &String) -> (r: i128)
    ensures
        r == report_stock(rows@, product_id@, store_id@),
        stock_in_range(r as int),
{
    proof {
        lemma_report_stock_in_range(rows@, product_id@, store_id@, 0);
    }
    let mut i: usize = 0;
    while i < rows.len()
        invariant
            i <= rows@.len(),
            stock_in_range(report_stock(rows@, product_id@, store_id@)),
            report_stock(rows@, product_id@, store_id@) == report_stock_from(
                rows@,
                product_id@,
                store_id@,
                i as int,
            ),
        decreases rows.len() - i,
    {
        let row = &rows[i];
        let id = id_from_href(row.meta.href.as_str());
        if id == *product_id {
            match &row.stock_by_store {
                Some(entries) => {
                    match entry_stock(entries, store_id) {
                        Some(s) => {
                            assert(s as int == report_stock(rows@, product_id@, store_id@));
                            return s;
                        },
                        None => {},
                    }
                },
                None => {},
            }
        }
        i = i + 1;
    }
    0
}

/// A material that is short, and by how much (in millionths).
pub struct Shortfall {
    pub name: String,
    pub missing: i128,
}

/// The outcome of checking a bill's materials: available where nothing is
/// short, else the short materials in the bill's order.
pub struct MaterialsCheckResult {
    pub available: bool,
    pub missing: Vec<Shortfall>,
}

/// The name under which a material is reported.
pub open spec fn material_name(m: ProcessingPlanMaterial) -> Seq<char> {
    match m.product.name {
        Some(n) => n@,
        None => "unknown"@,
    }
}

/// The identifier of a material's product.
pub open spec fn material_id(m: ProcessingPlanMaterial) -> Seq<char> {
    last_segment(m.product.meta.href@)
}

/// How much of a material is missing (in millionths) to produce `target`
/// units: the required amount less the available stock, or 0 where the stock
/// covers it.
pub open spec fn shortfall_of(per_unit: int, target: int, available: int) -> int {
    let d = required_amount(per_unit, target) - available * 1000;
    if d > 0 {
        d
    } else {
        0
    }
}

/// The short materials among the first `n`, in order, each with its shortfall,
/// given the available stock of each (`stocks`, in thousandths).
pub open spec fn shortfalls(
    materials: Seq<ProcessingPlanMaterial>,
    target: int,
    stocks: Seq<i128>,
    n: int,
) -> Seq<(Seq<char>, int)>
    decreases n,
{
    if n <= 0 {
        seq![]
    } else {
        let prev = shortfalls(materials, target, stocks, n - 1);
        let m = materials[n - 1];
        let s = shortfall_of(m.quantity as int, target, stocks[n - 1] as int);
        if s > 0 {
            prev.push((material_name(m), s))
        } else {
            prev
        }
    }
}

pub open spec fn shortfall_list(v: Seq<Shortfall>) -> Seq<(Seq<char>, int)> {
    v.map_values(|s: Shortfall| (s.name@, s.missing as int))
}

/// `r` is the outcome of checking `materials` for `target` units against
/// `stocks`.
pub open spec fn availability_matches(
    r: MaterialsCheckResult,
    materials: Seq<ProcessingPlanMaterial>,
    target: int,
    stocks: Seq<i128>,
) -> bool {
    let expected = shortfalls(materials, target, stocks, materials.len() as int);
    &&& shortfall_list(r.missing@) == expected
    &&& r.available == (expected.len() == 0)
}

impl MaterialsCheckResult {
    /// Nothing is short.
    pub fn available() -> (r: Self)
        ensures
            r.available,
            r.missing@.len() == 0,
    {
        MaterialsCheckResult { available: true, missing: Vec::new() }
    }

    /// The given materials are short.
    pub fn missing(missing: Vec<Shortfall>) -> (r: Self)
        ensures
            !r.available,
            r.missing == missing,
    {
        MaterialsCheckResult { available: false, missing }
    }
}

fn material_label(m: &ProcessingPlanMaterial) -> (r: String)
    ensures
        r@ == material_name(*m),
{
    match &m.product.name {
        Some(n) => n.clone(),
        None => String::from_str("unknown"),
    }
}

/// The identifier of a material's product, from its link.
pub fn material_product_id(m: &ProcessingPlanMaterial) -> (r: String)
    ensures
        r@ == material_id(*m),
{
    id_from_href(m.product.meta.href.as_str())
}

/// Checks each material of a bill against its available stock (`stocks[i]`
/// for `materials[i]`, in thousandths) for producing `quantity` units: a
/// material needs its quantity per unit times `quantity`, and is short by
/// what its stock does not cover.
pub fn check_materials_availability(
    materials: &Vec<ProcessingPlanMaterial>,
    quantity: i64,
    stocks: &Vec<i128>,
) -> (r: MaterialsCheckResult)
    requires
        stocks@.len() == materials@.len(),
        forall|i: int| 0 <= i < stocks@.len() ==> stock_in_range(#[trigger] stocks@[i] as int),
    ensures
        availability_matches(r, materials@, quantity as int, stocks@),
{
    let mut missing: Vec<Shortfall> = Vec::new();
    let mut i: usize = 0;
    while i < materials.len()
        invariant
            i <= materials@.len(),
            stocks@.len() == materials@.len(),
            forall|k: int| 0 <= k < stocks@.len() ==> stock_in_range(#[trigger] stocks@[k] as int),
            shortfall_list(missing@) == shortfalls(materials@, quantity as int, stocks@, i as int),
        decreases materials.len() - i,
    {
        let m = &materials[i];
        let needed = required_quantity(m.quantity, quantity);
        let have = stocks[i];
        assert(stock_in_range(stocks@[i as int] as int));
        let have_micro = have * 1000;
        if needed > have_micro {
            let short = Shortfall { name: material_label(m), missing: needed - have_micro };
            let ghost before = missing@;
            missing.push(short);
            proof {
                assert(shortfall_list(missing@) =~= shortfall_list(before).push((short.name@, short.missing as int)));
            }
        }
        i = i + 1;
    }
    assert(shortfall_list(missing@).len() == missing@.len());
    if missing.len() == 0 {
        let r = MaterialsCheckResult::available();
        assert(shortfall_list(r.missing@) =~= shortfall_list(missing@));
        r
    } else {
        MaterialsCheckResult::missing(missing)
    }
}

/// The amount a material needs grows linearly with the quantity produced.
pub proof fn lemma_required_is_linear(per_unit: int, a: int, b: int)
    ensures
        required_amount(per_unit, a + b) == required_amount(per_unit, a) + required_amount(per_unit, b),
        required_amount(per_unit, 0) == 0,
{
    assert(per_unit * (a + b) == per_unit * a + per_unit * b) by (nonlinear_arith);
}

/// Each entry of the shortfall list is a material of the bill whose shortfall
/// is positive, with that shortfall.
pub proof fn lemma_shortfalls_are_positive(
    materials: Seq<ProcessingPlanMaterial>,
    target: int,
    stocks: Seq<i128>,
    n: int,
)
    requires
        0 <= n <= materials.len(),
        materials.len() == stocks.len(),
    ensures
        forall|k: int|
            0 <= k < shortfalls(materials, target, stocks, n).len() ==> exists|i: int|
                0 <= i < n && #[trigger] shortfalls(materials, target, stocks, n)[k] == (
                    material_name(materials[i]),
                    shortfall_of(materials[i].quantity as int, target, stocks[i] as int),
                ) && shortfall_of(materials[i].quantity as int, target, stocks[i] as int) > 0,
    decreases n,
{
    if n > 0 {
        lemma_shortfalls_are_positive(materials, target, stocks, n - 1);
        let prev = shortfalls(materials, target, stocks, n - 1);
        let cur = shortfalls(materials, target, stocks, n);
        assert forall|k: int| 0 <= k < cur.len() implies exists|i: int|
            0 <= i < n && #[trigger] cur[k] == (
                material_name(materials[i]),
                shortfall_of(materials[i].quantity as int, target, stocks[i] as int),
            ) && shortfall_of(materials[i].quantity as int, target, stocks[i] as int) > 0 by {
            if k < prev.len() {
                assert(cur[k] == prev[k]);
                let i = choose|i: int|
                    0 <= i < n - 1 && #[trigger] prev[k] == (
                        material_name(materials[i]),
                        shortfall_of(materials[i].quantity as int, target, stocks[i] as int),
                    ) && shortfall_of(materials[i].quantity as int, target, stocks[i] as int) > 0;
                assert(0 <= i < n);
            } else {
                assert(0 <= n - 1 < n);
            }
        }
    }
}

/// Checking the same materials against the same stock twice gives the same
/// shortfalls: the check reads nothing else and changes nothing.
pub proof fn lemma_availability_is_repeatable(
    materials: Seq<ProcessingPlanMaterial>,
    target: int,
    stocks: Seq<i128>,
    first: MaterialsCheckResult,
    second: MaterialsCheckResult,
)
    requires
        availability_matches(first, materials, target, stocks),
        availability_matches(second, materials, target, stocks),
    ensures
        shortfall_list(first.missing@) == shortfall_list(second.missing@),
        first.available == second.available,
{
}

} // verus!
