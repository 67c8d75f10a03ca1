//! Settings of a deployment.

use vstd::prelude::*;
use crate::text::{strip_quotes, trimmed, unquoted};

verus! {

/// The kind of sales document that a deployment watches.
#[derive(PartialEq, Eq, Structural, Clone, Copy, Debug)]
pub enum DocumentKind {
    /// A shipment.
    Demand,
    /// A customer order.
    CustomerOrder,
}

/// The entity type under which the backend names a kind of document.
pub open spec fn kind_name(k: DocumentKind) -> Seq<char> {
    match k {
        DocumentKind::Demand => "demand"@,
        DocumentKind::CustomerOrder => "customerorder"@,
    }
}

impl DocumentKind {
    /// The entity type under which the backend names this kind.
    pub fn name(&self) -> (r: String)
        ensures
            r@ == kind_name(*self),
    {
        match self {
            DocumentKind::Demand => String::from_str("demand"),
            DocumentKind::CustomerOrder => String::from_str("customerorder"),
        }
    }

    /// The kind that the backend names `s`, if any.
    pub fn from_name(s: &String) -> (r: Option<DocumentKind>)
        ensures
            r matches Some(k) ==> kind_name(k) == s@,
            r is None ==> s@ != kind_name(DocumentKind::Demand) && s@ != kind_name(
                DocumentKind::CustomerOrder,
            ),
    {
        if *s == String::from_str("demand") {
            Some(DocumentKind::Demand)
        } else if *s == String::from_str("customerorder") {
            Some(DocumentKind::CustomerOrder)
        } else {
            None
        }
    }
}

/// The settings of a deployment; the threshold is in thousandths.
pub struct Settings {
    /// Access token of the inventory backend.
    pub moysklad_token: String,
    /// Name of the monitored warehouse.
    pub store_name: String,
    /// Name of the product attribute that holds the bill of materials' name.
    pub tech_card_field_name: String,
    /// Stock below which production is started.
    pub min_stock_threshold: i64,
    /// Port of the web server.
    pub server_port: u16,
    /// Host of the web server.
    pub server_host: String,
    /// The kind of document watched.
    pub trigger_kind: DocumentKind,
}

pub open spec fn default_store_name() -> Seq<char> {
    "Кобрино FBS"@
}

pub open spec fn default_field_name() -> Seq<char> {
    "Техкарта"@
}

pub open spec fn default_host() -> Seq<char> {
    "0.0.0.0"@
}

/// The default threshold: two units.
pub const DEFAULT_THRESHOLD: i64 = 2000;

/// The default port.
pub const DEFAULT_PORT: u16 = 8080;

/// `s` holds the defaults, with token `token`.
pub open spec fn is_default_with(s: Settings, token: Seq<char>) -> bool {
    &&& s.moysklad_token@ == token
    &&& s.store_name@ == default_store_name()
    &&& s.tech_card_field_name@ == default_field_name()
    &&& s.min_stock_threshold == DEFAULT_THRESHOLD
    &&& s.server_port == DEFAULT_PORT
    &&& s.server_host@ == default_host()
    &&& s.trigger_kind == DocumentKind::Demand
}

impl Default for Settings {
    fn default() -> (r: Settings)
        ensures
            is_default_with(r, Seq::empty()),
    {
        Settings {
            moysklad_token: String::new(),
            store_name: String::from_str("Кобрино FBS"),
            tech_card_field_name: String::from_str("Техкарта"),
            min_stock_threshold: DEFAULT_THRESHOLD,
            server_port: DEFAULT_PORT,
            server_host: String::from_str("0.0.0.0"),
            trigger_kind: DocumentKind::Demand,
        }
    }
}

/// A raw configuration value as it is used: stripped of whitespace and quotes.
pub open spec fn cleaned(v: Seq<char>) -> Seq<char> {
    unquoted(trimmed(v))
}

/// The cleaned value where there is one, else `default`.
pub open spec fn cleaned_or(v: Option<String>, default: Seq<char>) -> Seq<char> {
    match v {
        Some(s) => cleaned(s@),
        None => default,
    }
}

pub open spec fn token_missing_message() -> Seq<char> {
    "MOYSKLAD_TOKEN is required"@
}

pub open spec fn unknown_kind_message() -> Seq<char> {
    "TRIGGER_KIND must be demand or customerorder"@
}

fn cleaned_or_default(v: &Option<String>, default: &str) -> (r: String)
    ensures
        r@ == cleaned_or(*v, default@),
{
    match v {
        Some(s) => strip_quotes(s.as_str()),
        None => String::from_str(default),
    }
}

impl Settings {
    /// A copy of the settings.
    pub fn duplicate(&self) -> (r: Settings)
        ensures
            r == *self,
    {
        Settings {
            moysklad_token: self.moysklad_token.clone(),
            store_name: self.store_name.clone(),
            tech_card_field_name: self.tech_card_field_name.clone(),
            min_stock_threshold: self.min_stock_threshold,
            server_port: self.server_port,
            server_host: self.server_host.clone(),
            trigger_kind: self.trigger_kind,
        }
    }

    /// Settings from raw configuration values: the texts are cleaned of
    /// surrounding whitespace and quotes, and what is absent takes its
    /// default. The token is required; the kind, where given, must name one.
    /// `min_stock_threshold` (in thousandths) and `server_port` come already
    /// read from their texts.
    pub fn from_values(
        moysklad_token: &Option<String>,
        store_name: &Option<String>,
        tech_card_field_name: &Option<String>,
        min_stock_threshold: Option<i64>,
        server_port: Option<u16>,
        server_host: &Option<String>,
        trigger_kind: &Option<String>,
    ) -> (r: Result<Settings, String>)
        ensures
            moysklad_token is None ==> (r matches Err(e) && e@ == token_missing_message()),
            moysklad_token is Some && (trigger_kind matches Some(k) && cleaned(k@) != kind_name(
                DocumentKind::Demand,
            ) && cleaned(k@) != kind_name(DocumentKind::CustomerOrder)) ==> (r matches Err(e)
                && e@ == unknown_kind_message()),
            r is Ok <==> moysklad_token is Some && match trigger_kind {
                Some(k) => cleaned(k@) == kind_name(DocumentKind::Demand) || cleaned(k@) == kind_name(
                    DocumentKind::CustomerOrder,
                ),
                None => true,
            },
            r matches Ok(s) ==> {
                &&& s.moysklad_token@ == cleaned(moysklad_token->0@)
                &&& s.store_name@ == cleaned_or(*store_name, default_store_name())
                &&& s.tech_card_field_name@ == cleaned_or(*tech_card_field_name, default_field_name())
                &&& s.min_stock_threshold == (match min_stock_threshold {
                    Some(t) => t,
                    None => DEFAULT_THRESHOLD,
                })
                &&& s.server_port == (match server_port {
                    Some(p) => p,
                    None => DEFAULT_PORT,
                })
                &&& s.server_host@ == cleaned_or(*server_host, default_host())
                &&& match trigger_kind {
                    Some(k) => kind_name(s.trigger_kind) == cleaned(k@),
                    None => s.trigger_kind == DocumentKind::Demand,
                }
            },
    {
        let token = match moysklad_token {
            Some(t) => strip_quotes(t.as_str()),
            None => {
                return Err(String::from_str("MOYSKLAD_TOKEN is required"));
            },
        };
        let kind = match trigger_kind {
            Some(k) => match DocumentKind::from_name(&strip_quotes(k.as_str())) {
                Some(kind) => kind,
                None => {
                    return Err(String::from_str("TRIGGER_KIND must be demand or customerorder"));
                },
            },
            None => DocumentKind::Demand,
        };
        Ok(Settings {
            moysklad_token: token,
            store_name: cleaned_or_default(store_name, "Кобрино FBS"),
            tech_card_field_name: cleaned_or_default(tech_card_field_name, "Техкарта"),
            min_stock_threshold: match min_stock_threshold {
                Some(t) => t,
                None => DEFAULT_THRESHOLD,
            },
            server_port: match server_port {
                Some(p) => p,
                None => DEFAULT_PORT,
            },
            server_host: cleaned_or_default(server_host, "0.0.0.0"),
            trigger_kind: kind,
        })
    }
}

} // verus!
