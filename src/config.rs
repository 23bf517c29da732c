//! The monitor's configuration: one webhook target and the pages to watch.
use vstd::prelude::*;

use crate::stock::{contains, contains_seq};

verus! {

/// One watched page.
pub struct WebsiteConfig {
    /// The page to fetch.
    pub url: String,
    /// The label used in notifications.
    pub name: String,
    /// Milliseconds to wait between two polls of this page.
    pub interval: u64,
    /// Text that appears in the page only while the product is out of stock.
    pub no_stock_indicator: String,
}

/// The whole configuration: where notifications go, and what to watch.
pub struct Config {
    pub webhook: String,
    pub websites: Vec<WebsiteConfig>,
}

/// A product is in stock when its page was fetched and the page does not hold
/// the out-of-stock marker. An unreachable page counts as out of stock.
pub open spec fn in_stock_spec(page: Option<Seq<char>>, marker: Seq<char>) -> bool {
    match page {
        Some(body) => !contains_seq(body, marker),
        None => false,
    }
}

impl WebsiteConfig {
    pub fn new(url: String, name: String, interval: u64, no_stock_indicator: String) -> (r: Self)
        ensures
            r.url@ == url@,
            r.name@ == name@,
            r.interval == interval,
            r.no_stock_indicator@ == no_stock_indicator@,
    {
        WebsiteConfig { url, name, interval, no_stock_indicator }
    }

    /// Classifies the outcome of fetching this page: `None` when the fetch
    /// failed, else the page's text.
    pub fn is_in_stock(&self, page: &Option<String>) -> (r: bool)
        ensures
            r == in_stock_spec(page.deep_view(), self.no_stock_indicator@),
    {
        match page {
            Some(body) => !contains(body.as_str(), self.no_stock_indicator.as_str()),
            None => false,
        }
    }
}

impl Config {
    pub fn new(webhook: String, websites: Vec<WebsiteConfig>) -> (r: Self)
        ensures
            r.webhook@ == webhook@,
            r.websites@ == websites@,
    {
        Config { webhook, websites }
    }
}

/// Availability is the absence of the marker: a fetched page is in stock exactly
/// when the marker does not occur in it, and the empty marker occurs in every
/// page, so with it nothing is ever in stock.
pub proof fn lemma_in_stock_iff_marker_absent(body: Seq<char>, marker: Seq<char>)
    ensures
        in_stock_spec(Some(body), marker) <==> !contains_seq(body, marker),
        marker.len() == 0 ==> !in_stock_spec(Some(body), marker),
{
    if marker.len() == 0 {
        assert(body.subrange(0, 0) =~= marker);
        assert(crate::stock::occurs_at(body, marker, 0));
    }
}

/// A page that could not be fetched is never in stock, whatever the marker.
pub proof fn lemma_failed_fetch_not_in_stock(marker: Seq<char>)
    ensures
        !in_stock_spec(None, marker),
{
}

} // verus!
