use stock_monitor::config::{Config, WebsiteConfig};
use stock_monitor::notify::{description, frame_body, webhook_body};
use stock_monitor::poller::{pollers, Action, Event, Phase, Poller};
use stock_monitor::stock::contains;

fn site(url: &str, name: &str, interval: u64, marker: &str) -> WebsiteConfig {
    WebsiteConfig::new(url.to_string(), name.to_string(), interval, marker.to_string())
}

#[test]
fn contains_finds_substrings() {
    assert!(contains("abcdef", "cde"));
    assert!(contains("abcdef", "abcdef"));
    assert!(contains("abcdef", "f"));
    assert!(contains("abcdef", ""));
    assert!(contains("", ""));
    assert!(!contains("abcdef", "abd"));
    assert!(!contains("abc", "abcd"));
    assert!(!contains("", "a"));
    assert!(!contains("Sold Out", "sold out"));
    assert!(contains("prix: 5\u{20ac} \u{e9}puis\u{e9}", "\u{e9}puis\u{e9}"));
    assert!(contains("aaab", "aab"));
}

#[test]
fn in_stock_iff_marker_absent() {
    let s = site("http://x/w", "Widget", 100, "Out of stock");
    assert!(s.is_in_stock(&Some("<html>Add to cart</html>".to_string())));
    assert!(!s.is_in_stock(&Some("<html>Out of stock</html>".to_string())));
    // Case-sensitive: a differently cased marker does not count.
    assert!(s.is_in_stock(&Some("<html>OUT OF STOCK</html>".to_string())));
    assert!(s.is_in_stock(&Some(String::new())));
}

#[test]
fn empty_marker_is_never_in_stock() {
    let s = site("http://x/w", "Widget", 100, "");
    assert!(!s.is_in_stock(&Some("anything".to_string())));
    assert!(!s.is_in_stock(&Some(String::new())));
}

#[test]
fn failed_fetch_is_not_in_stock() {
    let s = site("http://x/w", "Widget", 100, "Out of stock");
    assert!(!s.is_in_stock(&None));
}

#[test]
fn description_names_the_site() {
    assert_eq!(description("Widget"), "The product is available on Widget");
    assert_eq!(description(""), "The product is available on ");
}

#[test]
fn frame_body_places_both_values() {
    assert_eq!(
        frame_body("\"D\"", "\"U\""),
        "{\"embeds\":[{\"color\":1841963,\"description\":\"D\",\"footer\":{\"text\":\"built by peet with \u{2764}\u{fe0f}\"},\"title\":\"Monitor triggered\",\"url\":\"U\"}],\"username\":\"\u{1f5a5}  - Monitor\"}"
    );
}

#[test]
fn webhook_body_for_widget() {
    let body = webhook_body(&site("http://x/w", "Widget", 100, "x"));
    assert_eq!(
        body,
        "{\"embeds\":[{\"color\":1841963,\"description\":\"The product is available on Widget\",\"footer\":{\"text\":\"built by peet with \u{2764}\u{fe0f}\"},\"title\":\"Monitor triggered\",\"url\":\"http://x/w\"}],\"username\":\"\u{1f5a5}  - Monitor\"}"
    );
    let v: serde_json::Value = serde_json::from_str(&body).unwrap();
    let embed = &v["embeds"][0];
    assert_eq!(embed["description"], "The product is available on Widget");
    assert_eq!(embed["url"], "http://x/w");
    assert_eq!(embed["title"], "Monitor triggered");
    assert_eq!(embed["color"], 1841963);
    assert_eq!(embed["footer"]["text"], "built by peet with \u{2764}\u{fe0f}");
    assert_eq!(v["username"], "\u{1f5a5}  - Monitor");
    assert_eq!(v["embeds"].as_array().unwrap().len(), 1);
}

#[test]
fn webhook_body_fixed_fields_do_not_depend_on_site() {
    let a: serde_json::Value =
        serde_json::from_str(&webhook_body(&site("http://a", "A", 1, "m"))).unwrap();
    let b: serde_json::Value =
        serde_json::from_str(&webhook_body(&site("https://b/c?d=e", "Other shop", 9, "n")))
            .unwrap();
    assert_eq!(a["username"], b["username"]);
    assert_eq!(a["embeds"][0]["title"], b["embeds"][0]["title"]);
    assert_eq!(a["embeds"][0]["color"], b["embeds"][0]["color"]);
    assert_eq!(a["embeds"][0]["footer"], b["embeds"][0]["footer"]);
    assert_eq!(b["embeds"][0]["description"], "The product is available on Other shop");
    assert_eq!(b["embeds"][0]["url"], "https://b/c?d=e");
}

#[test]
fn webhook_body_escapes_text_fields() {
    let body = webhook_body(&site("http://x/\"q\"", "Say \"hi\"\n\\", 100, "x"));
    assert!(body.contains("\"description\":\"The product is available on Say \\\"hi\\\"\\n\\\\\""));
    assert!(body.contains("\"url\":\"http://x/\\\"q\\\"\""));
    let v: serde_json::Value = serde_json::from_str(&body).unwrap();
    assert_eq!(v["embeds"][0]["description"], "The product is available on Say \"hi\"\n\\");
    assert_eq!(v["embeds"][0]["url"], "http://x/\"q\"");
}

fn expect_fetch(a: Option<Action>, url: &str) {
    match a {
        Some(Action::Fetch { url: u }) => assert_eq!(u, url),
        _ => panic!("expected a fetch"),
    }
}

fn expect_sleep(a: Option<Action>, millis: u64) {
    match a {
        Some(Action::Sleep { millis: m }) => assert_eq!(m, millis),
        _ => panic!("expected a sleep"),
    }
}

fn expect_notify(a: Option<Action>, webhook: &str) -> String {
    match a {
        Some(Action::Notify { webhook: w, body }) => {
            assert_eq!(w, webhook);
            body
        }
        _ => panic!("expected a notification"),
    }
}

#[test]
fn poller_cycle_when_in_stock() {
    let mut p = Poller::new(site("http://x/w", "Widget", 250, "Sold out"), "http://hook".to_string());
    assert_eq!(p.phase, Phase::Ready);
    expect_fetch(p.step(Event::Started), "http://x/w");
    assert_eq!(p.phase, Phase::Fetching);
    let body = expect_notify(p.step(Event::Fetched(Some("Buy now".to_string()))), "http://hook");
    assert_eq!(body, webhook_body(&site("http://x/w", "Widget", 250, "Sold out")));
    assert_eq!(p.phase, Phase::Notifying);
    expect_sleep(p.step(Event::Notified(true)), 250);
    assert_eq!(p.phase, Phase::Sleeping);
    expect_fetch(p.step(Event::Slept), "http://x/w");
    // Still available: notified again, on every poll.
    expect_notify(p.step(Event::Fetched(Some("Buy now".to_string()))), "http://hook");
}

#[test]
fn poller_cycle_when_out_of_stock_or_unreachable() {
    let mut p = Poller::new(site("http://x/w", "Widget", 40, "Sold out"), "http://hook".to_string());
    expect_fetch(p.step(Event::Started), "http://x/w");
    expect_sleep(p.step(Event::Fetched(Some("It is Sold out".to_string()))), 40);
    expect_fetch(p.step(Event::Slept), "http://x/w");
    expect_sleep(p.step(Event::Fetched(None)), 40);
    assert_eq!(p.phase, Phase::Sleeping);
}

#[test]
fn failed_notification_keeps_polling() {
    let mut p = Poller::new(site("http://x/w", "Widget", 70, "Sold out"), "http://hook".to_string());
    expect_fetch(p.step(Event::Started), "http://x/w");
    expect_notify(p.step(Event::Fetched(Some("ok".to_string()))), "http://hook");
    expect_sleep(p.step(Event::Notified(false)), 70);
    expect_fetch(p.step(Event::Slept), "http://x/w");
    expect_notify(p.step(Event::Fetched(Some("ok".to_string()))), "http://hook");
}

#[test]
fn poller_ignores_events_out_of_turn() {
    let mut p = Poller::new(site("http://x/w", "Widget", 70, "Sold out"), "http://hook".to_string());
    assert!(p.step(Event::Slept).is_none());
    assert_eq!(p.phase, Phase::Ready);
    expect_fetch(p.step(Event::Started), "http://x/w");
    assert!(p.step(Event::Slept).is_none());
    assert!(p.step(Event::Started).is_none());
    assert!(p.step(Event::Notified(true)).is_none());
    assert_eq!(p.phase, Phase::Fetching);
}

#[test]
fn zero_interval_polls_back_to_back() {
    let mut p = Poller::new(site("http://x/w", "Widget", 0, "Sold out"), "http://hook".to_string());
    expect_fetch(p.step(Event::Started), "http://x/w");
    expect_sleep(p.step(Event::Fetched(None)), 0);
    expect_fetch(p.step(Event::Slept), "http://x/w");
}

/// Drives a poller against a page that always answers `page`, with a clock in
/// milliseconds where only the waits take time. Returns the fetch start times
/// and the number of notifications sent before `until`.
fn simulate(p: &mut Poller, page: &str, until: u64) -> (Vec<u64>, usize) {
    let mut now: u64 = 0;
    let mut fetches = Vec::new();
    let mut notified = 0;
    let mut next = p.step(Event::Started);
    while now < until {
        next = match next {
            Some(Action::Fetch { .. }) => {
                fetches.push(now);
                p.step(Event::Fetched(Some(page.to_string())))
            }
            Some(Action::Notify { .. }) => {
                notified += 1;
                p.step(Event::Notified(true))
            }
            Some(Action::Sleep { millis }) => {
                now += millis;
                p.step(Event::Slept)
            }
            None => panic!("the poller stopped"),
        };
    }
    (fetches, notified)
}

#[test]
fn two_sites_notify_independently() {
    let config = Config::new(
        "http://hook".to_string(),
        vec![
            site("http://a", "A", 100, "Sold out"),
            site("http://b", "B", 500, "Sold out"),
        ],
    );
    let mut ps = pollers(config);
    assert_eq!(ps.len(), 2);
    assert_eq!(ps[0].webhook, "http://hook");
    assert_eq!(ps[1].webhook, "http://hook");
    assert_eq!(ps[0].site.url, "http://a");
    assert_eq!(ps[1].site.url, "http://b");
    let (fa, na) = simulate(&mut ps[0], "<p>In stock</p>", 1000);
    let (fb, nb) = simulate(&mut ps[1], "<p>Sold out</p>", 1000);
    assert!(na >= 8);
    assert_eq!(nb, 0);
    assert_eq!(fa, vec![0, 100, 200, 300, 400, 500, 600, 700, 800, 900]);
    assert_eq!(fb, vec![0, 500]);
}

#[test]
fn fetch_starts_are_an_interval_apart() {
    for interval in [1u64, 30, 120] {
        let mut p = Poller::new(site("http://a", "A", interval, "x"), "http://hook".to_string());
        let (starts, _) = simulate(&mut p, "no marker here", 1000);
        assert!(starts.len() >= 2);
        for w in starts.windows(2) {
            assert!(w[1] - w[0] >= interval);
        }
    }
}

#[test]
fn pollers_of_empty_config() {
    let ps = pollers(Config::new("http://hook".to_string(), Vec::new()));
    assert!(ps.is_empty());
}

#[test]
fn same_name_and_url_give_same_body() {
    assert_eq!(
        webhook_body(&site("http://x/w", "Widget", 100, "Sold out")),
        webhook_body(&site("http://x/w", "Widget", 9000, "Gone")),
    );
}

#[test]
fn available_site_is_notified_on_every_poll() {
    let mut p = Poller::new(site("http://a", "A", 100, "Sold out"), "http://hook".to_string());
    let (fetches, notified) = simulate(&mut p, "<p>In stock</p>", 1000);
    assert_eq!(fetches.len(), 10);
    assert_eq!(notified, 10);
}
