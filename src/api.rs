//! The remote operations that the workflow asks for, the answers it takes
//! back, and where each operation is sent.

use vstd::prelude::*;
use vstd::utf8::encode_utf8;
use crate::config::{kind_name, DocumentKind};
use crate::models::{CreateProcessingRequest, Demand, EntityRef, Processing, ProcessingPlan, Product, StockByStoreRow};
use crate::text::{percent_encoded, url_encode};

verus! {

/// A remote operation for the transport to perform.
pub enum Request {
    /// Fetch a document of the given kind with its lines, warehouse and
    /// organization.
    FetchDocument { kind: DocumentKind, id: String },
    /// Find a warehouse by its name.
    FindStore { name: String },
    /// Read the per-warehouse stock report, for the stock of one product at
    /// one warehouse.
    GetStock { product_id: String, store_id: String },
    /// Fetch a product with its attributes.
    GetProduct { product_id: String },
    /// Find a bill of materials by its name, with its outputs and materials.
    FindPlan { name: String },
    /// Fetch the organization.
    GetOrganization,
    /// Create a production transaction (unconfirmed).
    CreateProcessing { request: CreateProcessingRequest },
    /// Confirm a production transaction.
    ApplyProcessing { processing_id: String },
}

/// The answer of the transport to a [`Request`].
pub enum Reply {
    Document(Demand),
    /// The first warehouse of that name, if any.
    Store(Option<EntityRef>),
    /// The rows of the per-warehouse stock report.
    StockReport(Vec<StockByStoreRow>),
    Product(Product),
    /// The first bill of materials of that name, if any.
    Plan(Option<ProcessingPlan>),
    /// The first organization, if any.
    Organization(Option<EntityRef>),
    /// A production transaction as created or as confirmed.
    Processing(Processing),
    /// The operation failed (transport, remote status, or decoding); the
    /// text says how.
    Failed(String),
}

/// The HTTP method of an operation.
#[derive(PartialEq, Eq, Structural, Clone, Copy, Debug)]
pub enum Method {
    Get,
    Post,
    Put,
}

/// The base of every endpoint.
pub open spec fn api_base() -> Seq<char> {
    "https://api.moysklad.ru/api/remap/1.2"@
}

/// The endpoint (relative to the base) that an operation is sent to.
pub open spec fn endpoint_of(r: Request) -> Seq<char> {
    match r {
        Request::FetchDocument { kind, id } => "/entity/"@ + kind_name(kind) + "/"@ + id@
            + "?expand=positions,store,organization,agent"@,
        Request::FindStore { name } => "/entity/store?filter=name="@ + percent_encoded(
            encode_utf8(name@),
        ),
        Request::GetStock { .. } => "/report/stock/bystore?limit=1000"@,
        Request::GetProduct { product_id } => "/entity/product/"@ + product_id@ + "?expand=attributes"@,
        Request::FindPlan { name } => "/entity/processingplan?filter=name="@ + percent_encoded(
            encode_utf8(name@),
        ) + "&expand=materials,products"@,
        Request::GetOrganization => "/entity/organization"@,
        Request::CreateProcessing { .. } => "/entity/processing"@,
        Request::ApplyProcessing { processing_id } => "/entity/processing/"@ + processing_id@,
    }
}

/// The method that an operation is sent with.
pub open spec fn method_of(r: Request) -> Method {
    match r {
        Request::CreateProcessing { .. } => Method::Post,
        Request::ApplyProcessing { .. } => Method::Put,
        _ => Method::Get,
    }
}

/// `s` followed by `t`.
fn joined(s: String, t: &str) -> (r: String)
    ensures
        r@ == s@ + t@,
{
    let mut s = s;
    s.append(t);
    s
}

impl Request {
    /// The endpoint, relative to the base, that the operation is sent to.
    pub fn endpoint(&self) -> (r: String)
        ensures
            r@ == endpoint_of(*self),
    {
        match self {
            Request::FetchDocument { kind, id } => {
                let s = joined(String::from_str("/entity/"), kind.name().as_str());
                let s = joined(joined(s, "/"), id.as_str());
                joined(s, "?expand=positions,store,organization,agent")
            },
            Request::FindStore { name } => {
                joined(String::from_str("/entity/store?filter=name="), url_encode(name.as_str()).as_str())
            },
            Request::GetStock { .. } => String::from_str("/report/stock/bystore?limit=1000"),
            Request::GetProduct { product_id } => {
                let s = joined(String::from_str("/entity/product/"), product_id.as_str());
                joined(s, "?expand=attributes")
            },
            Request::FindPlan { name } => {
                let s = joined(
                    String::from_str("/entity/processingplan?filter=name="),
                    url_encode(name.as_str()).as_str(),
                );
                joined(s, "&expand=materials,products")
            },
            Request::GetOrganization => String::from_str("/entity/organization"),
            Request::CreateProcessing { .. } => String::from_str("/entity/processing"),
            Request::ApplyProcessing { processing_id } => {
                joined(String::from_str("/entity/processing/"), processing_id.as_str())
            },
        }
    }

    /// The method that the operation is sent with.
    pub fn method(&self) -> (r: Method)
        ensures
            r == method_of(*self),
    {
        match self {
            Request::CreateProcessing { .. } => Method::Post,
            Request::ApplyProcessing { .. } => Method::Put,
            _ => Method::Get,
        }
    }
}

/// Whether `s` starts with `http`.
pub open spec fn is_absolute(s: Seq<char>) -> bool {
    s.len() >= 4 && s.subrange(0, 4) == "http"@
}

/// The URL of an endpoint: an absolute link as it is, else the base followed
/// by the endpoint.
pub open spec fn url_of(endpoint: Seq<char>) -> Seq<char> {
    if is_absolute(endpoint) {
        endpoint
    } else {
        api_base() + endpoint
    }
}

/// The URL that an endpoint (or an absolute link) is requested at.
pub fn full_url(endpoint: &str) -> (r: String)
    ensures
        r@ == url_of(endpoint@),
{
    proof {
        reveal_strlit("http");
    }
    let n = endpoint.unicode_len();
    if n >= 4 {
        let head = endpoint.substring_char(0, 4);
        if String::from_str(head) == String::from_str("http") {
            return String::from_str(endpoint);
        }
    }
    joined(String::from_str("https://api.moysklad.ru/api/remap/1.2"), endpoint)
}

} // verus!
