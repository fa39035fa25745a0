//! The scrape as a state machine. The caller performs each `Action` on the
//! browser and reports what happened as an `Event`; `ScrapeSession::step`
//! decides what to do next. One run finds the sellers on the result page of
//! the first keyword, asks every seller for every other keyword, and
//! reports one `ShopResults` per seller.

pub mod model;
pub mod sellers;

pub use crate::session::{get_chrome_and_driver_info, open_chrome_with_driver};
pub use model::{ActionView, EventView, SessionView, Stage};
pub use sellers::{
    extract_shop_slug,
    group_products_by_shop,
    index_cards,
    list_products,
    record_seller,
    Seller,
};

use vstd::prelude::*;
use crate::models::{
    clone_products,
    clone_results,
    clone_shops,
    Product,
    QueryResult,
    QueryResultView,
    ShopResults,
};
use crate::platforms::{
    heading_query,
    pick_shop_name,
    shop_heading,
    shop_link,
    Card,
    Page,
    Platform,
};
use crate::text::{opt_view, same};
use model::{
    lemma_step_valid,
    next_fetch,
    poll_interval_ms,
    poll_timeout_ms,
    reports,
    seed_listing,
    seed_opening,
    seed_results,
    shop_listing,
    shop_opening,
    shop_visit,
};
use sellers::title_of;

verus! {

/// What the caller is asked to do.
#[derive(Debug, PartialEq, Eq)]
pub enum Action {
    /// Load the address.
    Navigate { url: String },
    /// Wait.
    Pause { millis: u64 },
    /// Find the visible search box, click it, clear it, type the keyword and
    /// submit; report `Searched(true)` if the box was there.
    SearchBox { selector: String, query: String },
    /// Look for any of the elements every `interval_ms` until one is there or
    /// `timeout_ms` have passed; report `Awaited`.
    Await { selectors: Vec<String>, interval_ms: u64, timeout_ms: u64 },
    /// Read at most `limit` product cards; report `Cards`.
    Collect { page: Page, selector: String, limit: usize },
    /// Read, on a product's page, the block that presents the shop: the
    /// target of its link, and the texts that `names` finds, relative to the
    /// block; report `Shop`, or `Failed` where there is no block or no link.
    ReadShop { block: String, names: String },
    /// Tell the listener that one seller is complete.
    Progress { shop: ShopResults },
    /// Tell the listener that the scrape is over.
    Done,
    /// The run has ended with these results.
    Finish { results: Vec<ShopResults> },
}

/// What the caller reports back.
#[derive(Debug, PartialEq, Eq)]
pub enum Event {
    /// The action was performed.
    Ack,
    /// Whether the search box was found and used.
    Searched(bool),
    /// Whether an awaited element appeared in time.
    Awaited(bool),
    /// The cards that were read, in page order.
    Cards(Vec<Card>),
    /// What a product's page shows of its shop: the texts beside the shop's
    /// link, in page order, and the link's target.
    Shop { names: Vec<String>, link: Option<String> },
    /// The action could not be performed.
    Failed,
}

impl View for Action {
    type V = ActionView;

    open spec fn view(&self) -> ActionView {
        match self {
            Action::Navigate { url } => ActionView::Navigate { url: url@ },
            Action::Pause { millis } => ActionView::Pause { millis: *millis },
            Action::SearchBox { selector, query } => ActionView::SearchBox {
                selector: selector@,
                query: query@,
            },
            Action::Await { selectors, interval_ms, timeout_ms } => ActionView::Await {
                selectors: selectors.deep_view(),
                interval_ms: *interval_ms,
                timeout_ms: *timeout_ms,
            },
            Action::Collect { page, selector, limit } => ActionView::Collect {
                page: *page,
                selector: selector@,
                limit: *limit,
            },
            Action::ReadShop { block, names } => ActionView::ReadShop {
                block: block@,
                names: names@,
            },
            Action::Progress { shop } => ActionView::Progress { shop: shop@ },
            Action::Done => ActionView::Done,
            Action::Finish { results } => ActionView::Finish { results: results.deep_view() },
        }
    }
}

impl DeepView for Action {
    type V = ActionView;

    open spec fn deep_view(&self) -> ActionView {
        self@
    }
}

impl View for Event {
    type V = EventView;

    open spec fn view(&self) -> EventView {
        match self {
            Event::Ack => EventView::Ack,
            Event::Searched(b) => EventView::Searched(*b),
            Event::Awaited(b) => EventView::Awaited(*b),
            Event::Cards(cards) => EventView::Cards(cards.deep_view()),
            Event::Shop { names, link } => EventView::Shop {
                names: names.deep_view(),
                link: opt_view(*link),
            },
            Event::Failed => EventView::Failed,
        }
    }
}

/// A scrape in progress.
pub struct ScrapeSession {
    platform: Platform,
    keywords: Vec<String>,
    limit: usize,
    stage: Stage,
    pending: Vec<Action>,
    sellers: Vec<Seller>,
    seller: usize,
    results: Vec<QueryResult>,
    finished: Vec<ShopResults>,
}

impl View for ScrapeSession {
    type V = SessionView;

    closed spec fn view(&self) -> SessionView {
        SessionView {
            platform: self.platform,
            keywords: self.keywords.deep_view(),
            limit: self.limit,
            stage: self.stage,
            pending: self.pending.deep_view(),
            sellers: self.sellers.deep_view(),
            seller: self.seller as int,
            results: self.results.deep_view(),
            finished: self.finished.deep_view(),
        }
    }
}

/// The request to wait for one of some elements.
fn await_action(selectors: Vec<String>) -> (r: Action)
    ensures
        r@ == (ActionView::Await {
            selectors: selectors.deep_view(),
            interval_ms: poll_interval_ms(),
            timeout_ms: poll_timeout_ms(),
        }),
{
    Action::Await { selectors, interval_ms: 500, timeout_ms: 6000 }
}

/// The request to read the cards of a page.
fn collect_action(platform: Platform, page: Page, limit: usize) -> (r: Action)
    ensures
        r@ == (ActionView::Collect { page, selector: platform.spec_card_query(page), limit }),
{
    Action::Collect { page, selector: platform.card_query(page), limit }
}

/// What is asked to learn a seller's name and address.
fn shop_visit_script(seller: &Seller) -> (r: Vec<Action>)
    ensures
        r.deep_view() == shop_visit(seller@),
{
    let url = if seller.products.len() > 0 {
        assert(seller@.products[0] == seller.products[0]@);
        seller.products[0].link.clone()
    } else {
        String::new()
    };
    let mut r: Vec<Action> = Vec::new();
    r.push(Action::Navigate { url });
    r.push(Action::Pause { millis: 1500 });
    r.push(
        Action::ReadShop {
            block: String::from_str(".page-product__shop"),
            names: String::from_str(".//a/following-sibling::div//div"),
        },
    );
    assert(r.deep_view() =~= shop_visit(seller@));
    r
}

/// What is asked first of the marketplace.
fn seed_opening_script(platform: Platform, keyword: &str) -> (r: Vec<Action>)
    ensures
        r.deep_view() == seed_opening(platform, keyword@),
{
    let mut r: Vec<Action> = Vec::new();
    r.push(Action::Navigate { url: platform.home_url() });
    r.push(Action::Pause { millis: 2000 });
    r.push(Action::SearchBox { selector: platform.search_box(), query: String::from_str(keyword) });
    assert(r.deep_view() =~= seed_opening(platform, keyword@));
    r
}

/// What is asked once the seed page's search box was tried.
fn seed_listing_script(platform: Platform, keyword: &str, searched: bool, limit: usize) -> (r: Vec<
    Action,
>)
    ensures
        r.deep_view() == seed_listing(platform, keyword@, searched, limit),
{
    let mut r: Vec<Action> = Vec::new();
    if !searched {
        r.push(Action::Navigate { url: platform.search_url(keyword) });
    }
    r.push(Action::Pause { millis: 2000 });
    r.push(collect_action(platform, Page::Seed, limit));
    assert(r.deep_view() =~= seed_listing(platform, keyword@, searched, limit));
    r
}

/// What is asked first of a seller for a keyword.
fn shop_opening_script(platform: Platform, seller: &Seller, keyword: &str, limit: usize) -> (r: Vec<
    Action,
>)
    ensures
        r.deep_view() == shop_opening(platform, seller@, keyword@, limit),
{
    let mut r: Vec<Action> = Vec::new();
    match platform {
        Platform::Tokopedia => {
            r.push(Action::Navigate { url: platform.shop_url(seller.id.as_str()) });
            let mut marks: Vec<String> = Vec::new();
            marks.push(heading_query());
            assert(marks.deep_view() =~= seq![shop_heading()]);
            r.push(await_action(marks));
            r.push(
                Action::SearchBox {
                    selector: platform.search_box(),
                    query: String::from_str(keyword),
                },
            );
        },
        Platform::Shopee => {
            let title = title_of(seller);
            r.push(
                Action::Navigate {
                    url: platform.shop_search_url(seller.id.as_str(), title.as_str(), keyword),
                },
            );
            r.push(Action::Pause { millis: 2000 });
            r.push(await_action(platform.listing_marks()));
            r.push(collect_action(platform, Page::Storefront, limit));
        },
    }
    assert(r.deep_view() =~= shop_opening(platform, seller@, keyword@, limit));
    r
}

/// What is asked once a storefront's search box was tried.
fn shop_listing_script(
    platform: Platform,
    seller: &Seller,
    keyword: &str,
    searched: bool,
    limit: usize,
) -> (r: Vec<Action>)
    ensures
        r.deep_view() == shop_listing(platform, seller@, keyword@, searched, limit),
{
    let mut r: Vec<Action> = Vec::new();
    if searched {
        r.push(await_action(platform.listing_marks()));
        r.push(Action::Pause { millis: 1000 });
    } else {
        let title = title_of(seller);
        r.push(Action::Pause { millis: 1000 });
        r.push(
            Action::Navigate {
                url: platform.shop_search_url(seller.id.as_str(), title.as_str(), keyword),
            },
        );
    }
    r.push(Action::Pause { millis: 500 });
    r.push(collect_action(platform, Page::Storefront, limit));
    assert(r.deep_view() =~= shop_listing(platform, seller@, keyword@, searched, limit));
    r
}

impl ScrapeSession {
    /// A scrape of `platform` for `keywords` that reads at most `limit`
    /// cards of a page. It has not begun: the first `step` begins it,
    /// whatever its event.
    pub fn new(platform: Platform, keywords: Vec<String>, limit: usize) -> (r: Self)
        ensures
            r@ == SessionView::initial(platform, keywords.deep_view(), limit),
            r@.valid(),
    {
        let r = ScrapeSession {
            platform,
            keywords,
            limit,
            stage: Stage::Idle,
            pending: Vec::new(),
            sellers: Vec::new(),
            seller: 0,
            results: Vec::new(),
            finished: Vec::new(),
        };
        assert(r@.pending =~= Seq::empty());
        assert(r@.sellers =~= Seq::empty());
        assert(r@.results =~= Seq::empty());
        assert(r@.finished =~= Seq::empty());
        r
    }

    /// The marketplace that is scraped.
    pub fn platform(&self) -> (r: Platform)
        ensures
            r == self@.platform,
    {
        self.platform
    }

    /// Whether the results have been handed out.
    pub fn is_finished(&self) -> (b: bool)
        ensures
            b == (self@.stage == Stage::Finished),
    {
        match self.stage {
            Stage::Finished => true,
            _ => false,
        }
    }

    /// Announces the end.
    fn close(&mut self)
        ensures
            final(self)@ == old(self)@.closing(),
    {
        let mut script: Vec<Action> = Vec::new();
        script.push(Action::Done);
        assert(script.deep_view() =~= seq![ActionView::Done]);
        self.pending = script;
        self.stage = Stage::Closing;
    }

    /// Reports the current seller under a name and an address.
    fn report(&mut self, shop_name: String, shop_url: String)
        ensures
            final(self)@ == old(self)@.report(shop_name@, shop_url@),
    {
        let shop = ShopResults {
            shop_name,
            shop_url,
            platform: self.platform.name(),
            results: clone_results(&self.results),
        };
        let ghost done = self.finished.deep_view();
        self.finished.push(shop.clone());
        assert(self.finished.deep_view() =~= done.push(shop@));
        let mut script: Vec<Action> = Vec::new();
        script.push(Action::Progress { shop });
        assert(script.deep_view() =~= seq![ActionView::Progress { shop: shop@ }]);
        self.pending = script;
        self.stage = Stage::Reported;
    }

    /// Fills the current seller's results up with the products of the seed
    /// page while the keywords repeat the first, then goes on to the next
    /// keyword or completes the seller.
    fn proceed(&mut self)
        requires
            old(self).seller < old(self).sellers.len(),
            old(self).results.len() <= old(self).keywords.len(),
        ensures
            final(self)@ == old(self)@.proceed(),
    {
        let ghost pre = self@;
        let ghost start = self.results.len() as int;
        let ghost seed = pre.sellers[pre.seller].products;
        let mut k: usize = self.results.len();
        assert(self.results.deep_view() =~= pre.results + seed_results(
            pre.keywords,
            start,
            k as int,
            seed,
        ));
        while k < self.keywords.len() && self.keywords[k] == self.keywords[0]
            invariant
                start <= k <= self.keywords.len(),
                pre == old(self)@,
                start == pre.results.len(),
                seed == pre.sellers[pre.seller].products,
                self.platform == old(self).platform,
                self.keywords == old(self).keywords,
                self.limit == old(self).limit,
                self.stage == old(self).stage,
                self.pending == old(self).pending,
                self.sellers == old(self).sellers,
                self.seller == old(self).seller,
                self.finished == old(self).finished,
                self.seller < self.sellers.len(),
                self.results.len() == k,
                self.results.deep_view() == pre.results + seed_results(
                    pre.keywords,
                    start,
                    k as int,
                    seed,
                ),
                next_fetch(pre.keywords, start) == next_fetch(pre.keywords, k as int),
            decreases self.keywords.len() - k,
        {
            let ghost before = self.results.deep_view();
            let products = clone_products(&self.sellers[self.seller].products);
            let query = self.keywords[k].clone();
            self.results.push(QueryResult { query, products });
            assert(pre.keywords[k as int] == self.keywords[k as int]@);
            assert(pre.keywords[0] == self.keywords[0]@);
            assert(self.results.deep_view() =~= before.push(
                QueryResultView { query: pre.keywords[k as int], products: seed },
            ));
            k += 1;
            assert(self.results.deep_view() =~= pre.results + seed_results(
                pre.keywords,
                start,
                k as int,
                seed,
            ));
        }
        proof {
            if k < self.keywords.len() {
                assert(pre.keywords[k as int] == self.keywords[k as int]@);
                assert(pre.keywords[0] == self.keywords[0]@);
            }
            assert(next_fetch(pre.keywords, start) == k);
        }
        if k >= self.keywords.len() {
            let seller = &self.sellers[self.seller];
            match self.platform {
                Platform::Tokopedia => {
                    let shop_name = title_of(seller);
                    let shop_url = self.platform.shop_url(seller.id.as_str());
                    self.report(shop_name, shop_url);
                },
                Platform::Shopee => {
                    self.pending = shop_visit_script(seller);
                    self.stage = Stage::ShopInfo;
                },
            }
        } else {
            let script = shop_opening_script(
                self.platform,
                &self.sellers[self.seller],
                self.keywords[k].as_str(),
                self.limit,
            );
            self.pending = script;
            self.stage = match self.platform {
                Platform::Tokopedia => Stage::ShopSearch,
                Platform::Shopee => Stage::ShopCards,
            };
        }
    }

    /// Takes up seller `i`, or announces the end if there is none.
    fn begin_seller(&mut self, i: usize)
        requires
            old(self).results.len() <= old(self).keywords.len(),
        ensures
            final(self)@ == old(self)@.begin_seller(i as int),
    {
        self.seller = i;
        if i >= self.sellers.len() {
            self.close();
        } else {
            self.results = Vec::new();
            assert(self.results.deep_view() =~= Seq::empty());
            self.proceed();
        }
    }

    /// Records the current seller's products for the current keyword.
    fn after_pair(&mut self, products: Vec<Product>)
        requires
            old(self).seller < old(self).sellers.len(),
            old(self).results.len() < old(self).keywords.len(),
        ensures
            final(self)@ == old(self)@.after_pair(products.deep_view()),
    {
        let ghost before = self.results.deep_view();
        let ghost pv = products.deep_view();
        let query = self.keywords[self.results.len()].clone();
        self.results.push(QueryResult { query, products });
        assert(self.results.deep_view() =~= before.push(
            QueryResultView { query: old(self)@.keywords[before.len() as int], products: pv },
        ));
        self.proceed();
    }

    /// Decides on an event once nothing is pending.
    fn decide(&mut self, event: Event)
        requires
            old(self)@.valid(),
        ensures
            final(self)@ == old(self)@.decided(event@),
    {
        let (searched, cards, shop_name, shop_url) = match event {
            Event::Searched(b) => (b, Vec::new(), String::new(), String::new()),
            Event::Cards(cards) => (false, cards, String::new(), String::new()),
            Event::Shop { names, link } => (
                false,
                Vec::new(),
                pick_shop_name(&names),
                shop_link(&link),
            ),
            _ => (false, Vec::new(), String::new(), String::new()),
        };
        let used: usize = if cards.len() <= self.limit {
            cards.len()
        } else {
            self.limit
        };
        match self.stage {
            Stage::Idle => {
                if self.keywords.len() == 0 {
                    self.close();
                } else {
                    self.pending = seed_opening_script(self.platform, self.keywords[0].as_str());
                    self.stage = Stage::SeedSearch;
                }
            },
            Stage::SeedSearch => {
                self.pending = seed_listing_script(
                    self.platform,
                    self.keywords[0].as_str(),
                    searched,
                    self.limit,
                );
                self.stage = Stage::SeedCards;
            },
            Stage::SeedCards => {
                self.sellers = index_cards(self.platform, &cards, used);
                self.begin_seller(0);
            },
            Stage::ShopSearch => {
                self.pending = shop_listing_script(
                    self.platform,
                    &self.sellers[self.seller],
                    self.keywords[self.results.len()].as_str(),
                    searched,
                    self.limit,
                );
                self.stage = Stage::ShopCards;
            },
            Stage::ShopCards => {
                let seller = &self.sellers[self.seller];
                let title = title_of(seller);
                let products = list_products(
                    self.platform,
                    &cards,
                    used,
                    seller.id.as_str(),
                    title.as_str(),
                );
                self.after_pair(products);
            },
            Stage::ShopInfo => {
                self.report(shop_name, shop_url);
            },
            Stage::Reported => {
                assert(self@.seller < self@.sellers.len());
                assert(self.sellers.deep_view().len() == self.sellers.len());
                let next = self.seller + 1;
                self.begin_seller(next);
            },
            Stage::Closing => {
                self.stage = Stage::Finished;
            },
            Stage::Finished => {},
        }
    }

    /// Takes what happened and says what to do next. Once it has answered
    /// `Finish` it answers `Finish` again, with the same results.
    pub fn step(&mut self, event: Event) -> (action: Action)
        requires
            old(self)@.valid(),
        ensures
            (final(self)@, action@) == old(self)@.step(event@),
            final(self)@.valid(),
            final(self)@.keywords == old(self)@.keywords,
            reports(action@, old(self)@.keywords),
    {
        proof {
            lemma_step_valid(self@, event@);
        }
        let finished = match self.stage {
            Stage::Finished => true,
            _ => false,
        };
        let at_storefront = match self.stage {
            Stage::ShopSearch => true,
            Stage::ShopCards => true,
            _ => false,
        };
        let failed = match event {
            Event::Failed => true,
            _ => false,
        };
        let at_shop_info = match self.stage {
            Stage::ShopInfo => true,
            _ => false,
        };
        if finished {
        } else if at_storefront && failed {
            let none: Vec<Product> = Vec::new();
            assert(none.deep_view() =~= Seq::empty());
            self.after_pair(none);
        } else if at_shop_info && failed {
            self.report(String::new(), String::new());
        } else if self.pending.len() == 0 {
            self.decide(event);
        }
        assert(self@ == old(self)@.settled(event@));
        if self.pending.len() > 0 {
            let ghost before = self.pending.deep_view();
            let action = self.pending.remove(0);
            assert(self.pending.deep_view() =~= before.drop_first());
            action
        } else {
            Action::Finish { results: clone_shops(&self.finished) }
        }
    }
}

/// The marketplaces that a name stands for: one of them, or `all` for both.
pub open spec fn platforms_named(name: Seq<char>) -> Option<Seq<Platform>> {
    if name == "tokopedia"@ {
        Some(seq![Platform::Tokopedia])
    } else if name == "shopee"@ {
        Some(seq![Platform::Shopee])
    } else if name == "all"@ {
        Some(seq![Platform::Tokopedia, Platform::Shopee])
    } else {
        None
    }
}

/// A copy of a list of texts.
pub fn clone_texts(texts: &Vec<String>) -> (r: Vec<String>)
    ensures
        r.deep_view() == texts.deep_view(),
{
    let mut r: Vec<String> = Vec::new();
    let mut i: usize = 0;
    while i < texts.len()
        invariant
            i <= texts.len(),
            r.len() == i,
            forall|j: int| 0 <= j < i ==> r[j]@ == texts[j]@,
        decreases texts.len() - i,
    {
        r.push(texts[i].clone());
        i += 1;
    }
    assert(r.deep_view() =~= texts.deep_view());
    r
}

/// The scrapes that a request asks for, in the order in which they are run:
/// one per marketplace that `platform` names, each for all the keywords. A
/// name that stands for no marketplace is an error.
pub fn scrape_products(queries: &Vec<String>, platform: &str, limit: usize) -> (r: Result<
    Vec<ScrapeSession>,
    String,
>)
    ensures
        match platforms_named(platform@) {
            Some(platforms) => r matches Ok(sessions) && sessions.len() == platforms.len()
                && forall|i: int|
                0 <= i < platforms.len() ==> (#[trigger] sessions[i])@ == SessionView::initial(
                    platforms[i],
                    queries.deep_view(),
                    limit,
                ) && sessions[i]@.valid(),
            None => r matches Err(e) && e@ == "Unsupported platform"@,
        },
{
    let mut sessions: Vec<ScrapeSession> = Vec::new();
    if same(platform, "tokopedia") {
        sessions.push(TokopediaScraper::scrape(queries, limit));
    } else if same(platform, "shopee") {
        sessions.push(ShopeeScraper::scrape(queries, limit));
    } else if same(platform, "all") {
        sessions.push(TokopediaScraper::scrape(queries, limit));
        sessions.push(ShopeeScraper::scrape(queries, limit));
    } else {
        return Err(String::from_str("Unsupported platform"));
    }
    Ok(sessions)
}

/// The scraper of Tokopedia.
pub struct TokopediaScraper;

/// The scraper of Shopee.
pub struct ShopeeScraper;

impl TokopediaScraper {
    /// A scrape of Tokopedia for the keywords, reading at most `limit` cards
    /// of a page.
    pub fn scrape(queries: &Vec<String>, limit: usize) -> (r: ScrapeSession)
        ensures
            r@ == SessionView::initial(Platform::Tokopedia, queries.deep_view(), limit),
            r@.valid(),
    {
        ScrapeSession::new(Platform::Tokopedia, clone_texts(queries), limit)
    }
}

impl ShopeeScraper {
    /// A scrape of Shopee for the keywords, reading at most `limit` cards of
    /// a page.
    pub fn scrape(queries: &Vec<String>, limit: usize) -> (r: ScrapeSession)
        ensures
            r@ == SessionView::initial(Platform::Shopee, queries.deep_view(), limit),
            r@.valid(),
    {
        ScrapeSession::new(Platform::Shopee, clone_texts(queries), limit)
    }
}

} // verus!
