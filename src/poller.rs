//! The decisions of one page's polling loop, as a state machine. The caller
//! performs each action (fetch the page, send the notification, wait) and hands
//! back what came of it as the next event. The loop never ends: after each wait
//! comes the next fetch.
use vstd::prelude::*;

use crate::config::{in_stock_spec, Config, WebsiteConfig};
use crate::notify::{webhook_body, webhook_body_spec};

verus! {

/// Where a poller stands in its cycle.
#[derive(Debug, Clone, Copy, PartialEq, Eq, Structural)]
pub enum Phase {
    /// Not started yet.
    Ready,
    /// Waiting for the page.
    Fetching,
    /// Waiting for the notification to be sent.
    Notifying,
    /// Waiting for the pause between polls to end.
    Sleeping,
}

/// What the caller reports back.
pub enum Event {
    /// The loop is to begin.
    Started,
    /// The page was fetched (`Some` text) or could not be (`None`).
    Fetched(Option<String>),
    /// The notification was sent (`true`) or sending it failed (`false`).
    Notified(bool),
    /// The pause is over.
    Slept,
}

/// What the caller is to do next.
pub enum Action {
    /// Fetch the page at `url`.
    Fetch { url: String },
    /// Post `body` to `webhook`.
    Notify { webhook: String, body: String },
    /// Wait `millis` milliseconds.
    Sleep { millis: u64 },
}

pub ghost enum EventView {
    Started,
    Fetched(Option<Seq<char>>),
    Notified(bool),
    Slept,
}

pub ghost enum ActionView {
    Fetch(Seq<char>),
    Notify(Seq<char>, Seq<char>),
    Sleep(u64),
}

impl View for Event {
    type V = EventView;

    open spec fn view(&self) -> EventView {
        match self {
            Event::Started => EventView::Started,
            Event::Fetched(page) => EventView::Fetched(page.deep_view()),
            Event::Notified(ok) => EventView::Notified(*ok),
            Event::Slept => EventView::Slept,
        }
    }
}

impl View for Action {
    type V = ActionView;

    open spec fn view(&self) -> ActionView {
        match self {
            Action::Fetch { url } => ActionView::Fetch(url@),
            Action::Notify { webhook, body } => ActionView::Notify(webhook@, body@),
            Action::Sleep { millis } => ActionView::Sleep(*millis),
        }
    }
}

/// The view of an action that may be absent.
pub open spec fn opt_action_view(a: Option<Action>) -> Option<ActionView> {
    match a {
        Some(x) => Some(x@),
        None => None,
    }
}

/// What a poller's decisions depend on.
pub ghost struct PollerView {
    pub url: Seq<char>,
    pub interval: u64,
    pub marker: Seq<char>,
    pub webhook: Seq<char>,
    pub body: Seq<char>,
    pub phase: Phase,
}

/// One decision: the phase after `e` and the action it calls for. An event that
/// does not answer the pending action is ignored.
pub open spec fn step_spec(p: PollerView, e: EventView) -> (Phase, Option<ActionView>) {
    match (p.phase, e) {
        (Phase::Ready, EventView::Started) => (Phase::Fetching, Some(ActionView::Fetch(p.url))),
        (Phase::Fetching, EventView::Fetched(page)) => if in_stock_spec(page, p.marker) {
            (Phase::Notifying, Some(ActionView::Notify(p.webhook, p.body)))
        } else {
            (Phase::Sleeping, Some(ActionView::Sleep(p.interval)))
        },
        (Phase::Notifying, EventView::Notified(_)) => (
            Phase::Sleeping,
            Some(ActionView::Sleep(p.interval)),
        ),
        (Phase::Sleeping, EventView::Slept) => (Phase::Fetching, Some(ActionView::Fetch(p.url))),
        _ => (p.phase, None),
    }
}

/// The polling loop of one page.
pub struct Poller {
    pub site: WebsiteConfig,
    pub webhook: String,
    /// The notification for this page, built once: it does not change between
    /// polls.
    pub body: String,
    pub phase: Phase,
}

impl View for Poller {
    type V = PollerView;

    open spec fn view(&self) -> PollerView {
        PollerView {
            url: self.site.url@,
            interval: self.site.interval,
            marker: self.site.no_stock_indicator@,
            webhook: self.webhook@,
            body: self.body@,
            phase: self.phase,
        }
    }
}

impl Poller {
    /// The notification held is the one for this page.
    pub open spec fn wf(&self) -> bool {
        self.body@ == webhook_body_spec(self.site.name@, self.site.url@)
    }

    /// A poller for `site` that notifies `webhook`; it starts on `Event::Started`.
    pub fn new(site: WebsiteConfig, webhook: String) -> (r: Self)
        ensures
            r.wf(),
            r.phase == Phase::Ready,
            r.site == site,
            r.webhook == webhook,
    {
        let body = webhook_body(&site);
        Poller { site, webhook, body, phase: Phase::Ready }
    }

    /// Takes one decision: moves to the next phase and returns the action that
    /// `e` calls for, or `None` where `e` does not answer the pending action.
    pub fn step(&mut self, e: Event) -> (r: Option<Action>)
        ensures
            final(self).site == old(self).site,
            final(self).webhook == old(self).webhook,
            final(self).body == old(self).body,
            final(self).wf() == old(self).wf(),
            (final(self).phase, opt_action_view(r)) == step_spec(old(self)@, e@),
    {
        match (self.phase, e) {
            (Phase::Ready, Event::Started) | (Phase::Sleeping, Event::Slept) => {
                self.phase = Phase::Fetching;
                Some(Action::Fetch { url: self.site.url.clone() })
            },
            (Phase::Fetching, Event::Fetched(page)) => {
                if self.site.is_in_stock(&page) {
                    self.phase = Phase::Notifying;
                    Some(Action::Notify { webhook: self.webhook.clone(), body: self.body.clone() })
                } else {
                    self.phase = Phase::Sleeping;
                    Some(Action::Sleep { millis: self.site.interval })
                }
            },
            (Phase::Notifying, Event::Notified(_)) => {
                self.phase = Phase::Sleeping;
                Some(Action::Sleep { millis: self.site.interval })
            },
            _ => None,
        }
    }
}

/// One poller for each configured site, in the configuration's order, each
/// notifying the configuration's webhook and none of them started yet.
pub fn pollers(config: Config) -> (r: Vec<Poller>)
    ensures
        r.len() == config.websites.len(),
        forall|i: int|
            0 <= i < r.len() ==> {
                &&& (#[trigger] r[i]).wf()
                &&& r[i].phase == Phase::Ready
                &&& r[i].site == config.websites[i]
                &&& r[i].webhook@ == config.webhook@
            },
{
    let Config { webhook, websites } = config;
    let mut r: Vec<Poller> = Vec::new();
    for site in it: websites.into_iter()
        invariant
            r.len() == it.index(),
            it.seq() == websites@,
            forall|i: int|
                0 <= i < r.len() ==> {
                    &&& (#[trigger] r[i]).wf()
                    &&& r[i].phase == Phase::Ready
                    &&& r[i].site == websites@[i]
                    &&& r[i].webhook@ == webhook@
                },
    {
        r.push(Poller::new(site, webhook.clone()));
    }
    r
}

/// The poller's state and the actions it called for, after it took `events` in
/// order starting from `p`.
pub open spec fn run(p: PollerView, events: Seq<EventView>) -> (PollerView, Seq<Option<ActionView>>)
    decreases events.len(),
{
    if events.len() == 0 {
        (p, Seq::empty())
    } else {
        let (q, acts) = run(p, events.drop_last());
        let (phase, a) = step_spec(q, events.last());
        (PollerView { phase, ..q }, acts.push(a))
    }
}

pub open spec fn is_fetch(a: Option<ActionView>) -> bool {
    a matches Some(ActionView::Fetch(_))
}

pub open spec fn is_sleep(a: Option<ActionView>, millis: u64) -> bool {
    a == Some(ActionView::Sleep(millis))
}

/// Every fetch before `end` is followed, still before `end`, by a wait of
/// `millis`.
pub open spec fn each_fetch_waited(acts: Seq<Option<ActionView>>, millis: u64, end: int) -> bool {
    forall|i: int|
        0 <= i < end && #[trigger] is_fetch(acts[i]) ==> exists|k: int|
            i < k < end && #[trigger] is_sleep(acts[k], millis)
}

/// Between any two fetches the poller asked to wait its whole interval.
pub open spec fn fetches_separated(acts: Seq<Option<ActionView>>, millis: u64) -> bool {
    forall|j: int| 0 <= j < acts.len() && #[trigger] is_fetch(acts[j]) ==> each_fetch_waited(acts, millis, j)
}

proof fn lemma_run_invariant(p: PollerView, events: Seq<EventView>)
    ensures
        ({
            let (q, acts) = run(p, events);
            &&& acts.len() == events.len()
            &&& q == PollerView { phase: q.phase, ..p }
            &&& fetches_separated(acts, p.interval)
            &&& q.phase == Phase::Ready ==> forall|i: int| 0 <= i < acts.len() ==> !is_fetch(#[trigger] acts[i])
            &&& q.phase == Phase::Sleeping ==> each_fetch_waited(acts, p.interval, acts.len() as int)
        }),
    decreases events.len(),
{
    if events.len() > 0 {
        let prefix = events.drop_last();
        lemma_run_invariant(p, prefix);
        let (q0, acts0) = run(p, prefix);
        let (phase, a) = step_spec(q0, events.last());
        let acts = acts0.push(a);
        let n = acts0.len() as int;
        assert forall|i: int| 0 <= i < n implies acts[i] == acts0[i] by {}
        assert forall|j: int| 0 <= j < acts.len() && #[trigger] is_fetch(acts[j]) implies each_fetch_waited(acts, p.interval, j) by {
            if j < n {
                assert(each_fetch_waited(acts0, p.interval, j));
                assert forall|i: int| 0 <= i < j && #[trigger] is_fetch(acts[i]) implies exists|k: int|
                    i < k < j && #[trigger] is_sleep(acts[k], p.interval) by {
                    assert(is_fetch(acts0[i]));
                    let k = choose|k: int| i < k < j && #[trigger] is_sleep(acts0[k], p.interval);
                    assert(is_sleep(acts[k], p.interval));
                }
            } else {
                assert forall|i: int| 0 <= i < j && #[trigger] is_fetch(acts[i]) implies exists|k: int|
                    i < k < j && #[trigger] is_sleep(acts[k], p.interval) by {
                    assert(is_fetch(acts0[i]));
                    let k = choose|k: int| i < k < n && #[trigger] is_sleep(acts0[k], p.interval);
                    assert(is_sleep(acts[k], p.interval));
                }
            }
        }
        if phase == Phase::Sleeping {
            assert forall|i: int| 0 <= i < acts.len() && #[trigger] is_fetch(acts[i]) implies exists|k: int|
                i < k < acts.len() && #[trigger] is_sleep(acts[k], p.interval) by {
                if is_sleep(a, p.interval) {
                    assert(is_sleep(acts[n], p.interval));
                } else {
                    assert(is_fetch(acts0[i]));
                    let k = choose|k: int| i < k < n && #[trigger] is_sleep(acts0[k], p.interval);
                    assert(is_sleep(acts[k], p.interval));
                }
            }
        }
        if phase == Phase::Ready {
            assert forall|i: int| 0 <= i < acts.len() implies !is_fetch(#[trigger] acts[i]) by {
                if i < n {
                    assert(!is_fetch(acts0[i]));
                }
            }
        }
    }
}

/// Whatever the events and whatever phase a poller starts in, between any two
/// fetches it asks to wait for its own interval: two fetches of one page start
/// at least that interval apart.
pub proof fn lemma_wait_between_fetches(p: PollerView, events: Seq<EventView>)
    ensures
        fetches_separated(run(p, events).1, p.interval),
{
    lemma_run_invariant(p, events);
}

/// A failed notification changes nothing: the poller goes on to wait its
/// interval exactly as after a successful one, and then fetches again.
pub proof fn lemma_failed_notification_keeps_polling(p: PollerView)
    requires
        p.phase == Phase::Notifying,
    ensures
        step_spec(p, EventView::Notified(false)) == step_spec(p, EventView::Notified(true)),
        step_spec(p, EventView::Notified(false)) == (
            Phase::Sleeping,
            Some(ActionView::Sleep(p.interval)),
        ),
        step_spec(PollerView { phase: Phase::Sleeping, ..p }, EventView::Slept) == (
            Phase::Fetching,
            Some(ActionView::Fetch(p.url)),
        ),
{
}

/// After each fetch a poller asks for a notification exactly when the page shows
/// the product in stock, on every such poll, and otherwise waits its interval.
pub proof fn lemma_notify_exactly_when_in_stock(p: PollerView, page: Option<Seq<char>>)
    requires
        p.phase == Phase::Fetching,
    ensures
        in_stock_spec(page, p.marker) ==> step_spec(p, EventView::Fetched(page)) == (
            Phase::Notifying,
            Some(ActionView::Notify(p.webhook, p.body)),
        ),
        !in_stock_spec(page, p.marker) ==> step_spec(p, EventView::Fetched(page)) == (
            Phase::Sleeping,
            Some(ActionView::Sleep(p.interval)),
        ),
{
}

} // verus!
