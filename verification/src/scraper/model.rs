//! The scrape as a transition system over mathematical values: what a run
//! is, what one step does to it, and what holds of every run.

use vstd::prelude::*;
use crate::models::{ProductView, QueryResultView, ShopResultsView};
use crate::platforms::{shop_heading, shop_name_among, shopee_shop_url, CardView, Page, Platform};
use crate::scraper::sellers::{
    capped,
    distinct_ids,
    indexed,
    lemma_indexed_count,
    lemma_indexed_distinct,
    listed,
    product_count,
    shop_title,
    SellerView,
};

verus! {

/// How long a page is given to settle.
pub open spec fn settle_ms() -> u64 {
    2000
}

/// How long a wait for an element pauses between two looks.
pub open spec fn poll_interval_ms() -> u64 {
    500
}

/// How long an element is waited for at most.
pub open spec fn poll_timeout_ms() -> u64 {
    6000
}

/// Where a run stands, between two decisions.
#[derive(Clone, Copy, Debug, PartialEq, Eq, Structural)]
pub enum Stage {
    /// Nothing has been asked yet.
    Idle,
    /// The seed page is being searched.
    SeedSearch,
    /// The seed page is being read.
    SeedCards,
    /// A storefront is being searched.
    ShopSearch,
    /// A storefront is being read.
    ShopCards,
    /// A seller is complete but for its name and address, which a product's
    /// page is being asked for.
    ShopInfo,
    /// A seller is complete and is being reported.
    Reported,
    /// The end is being announced.
    Closing,
    /// The results have been handed out.
    Finished,
}

/// The mathematical value of an `Action`.
pub enum ActionView {
    Navigate { url: Seq<char> },
    Pause { millis: u64 },
    SearchBox { selector: Seq<char>, query: Seq<char> },
    Await { selectors: Seq<Seq<char>>, interval_ms: u64, timeout_ms: u64 },
    Collect { page: Page, selector: Seq<char>, limit: usize },
    ReadShop { block: Seq<char>, names: Seq<char> },
    Progress { shop: ShopResultsView },
    Done,
    Finish { results: Seq<ShopResultsView> },
}

/// The mathematical value of an `Event`.
pub enum EventView {
    Ack,
    Searched(bool),
    Awaited(bool),
    Cards(Seq<CardView>),
    Shop { names: Seq<Seq<char>>, link: Option<Seq<char>> },
    Failed,
}

/// The state of a run as a mathematical value.
pub struct SessionView {
    pub platform: Platform,
    pub keywords: Seq<Seq<char>>,
    pub limit: usize,
    pub stage: Stage,
    /// What is still to be asked before the next decision.
    pub pending: Seq<ActionView>,
    /// The sellers of the seed page, in the order in which they were found.
    pub sellers: Seq<SellerView>,
    /// The seller that is being asked.
    pub seller: int,
    /// That seller's results so far, one per keyword from the first on.
    pub results: Seq<QueryResultView>,
    /// The sellers that are complete.
    pub finished: Seq<ShopResultsView>,
}

/// Offset of the first keyword at or after `k` that differs from the first
/// keyword, or the number of keywords.
pub open spec fn next_fetch(keywords: Seq<Seq<char>>, k: int) -> int
    decreases keywords.len() - k,
{
    if k < 0 || k >= keywords.len() {
        keywords.len() as int
    } else if keywords[k] == keywords[0] {
        next_fetch(keywords, k + 1)
    } else {
        k
    }
}

/// The results for the keywords from `from` up to `to`, each with the
/// products of the seed page.
pub open spec fn seed_results(
    keywords: Seq<Seq<char>>,
    from: int,
    to: int,
    products: Seq<ProductView>,
) -> Seq<QueryResultView> {
    Seq::new(
        (to - from) as nat,
        |j: int| QueryResultView { query: keywords[from + j], products },
    )
}

/// The report on a seller.
pub open spec fn assembled(
    platform: Platform,
    shop_name: Seq<char>,
    shop_url: Seq<char>,
    results: Seq<QueryResultView>,
) -> ShopResultsView {
    ShopResultsView { shop_name, shop_url, platform: platform.spec_name(), results }
}

/// The address of a seller's first product on the seed page, or the empty
/// text.
pub open spec fn first_link(seller: SellerView) -> Seq<char> {
    if seller.products.len() > 0 {
        seller.products[0].link
    } else {
        Seq::empty()
    }
}

/// The query that finds the block that presents the shop on a product's
/// page.
pub open spec fn shop_block() -> Seq<char> {
    ".page-product__shop"@
}

/// The query that finds, in that block, the texts beside the shop's link.
pub open spec fn shop_names() -> Seq<char> {
    ".//a/following-sibling::div//div"@
}

/// What is asked to learn a seller's name and address from the page of its
/// first product.
pub open spec fn shop_visit(seller: SellerView) -> Seq<ActionView> {
    seq![
        ActionView::Navigate { url: first_link(seller) },
        ActionView::Pause { millis: 1500 },
        ActionView::ReadShop { block: shop_block(), names: shop_names() },
    ]
}

/// What is asked first: the home page, then its search box.
pub open spec fn seed_opening(platform: Platform, keyword: Seq<char>) -> Seq<ActionView> {
    seq![
        ActionView::Navigate { url: platform.spec_home_url() },
        ActionView::Pause { millis: settle_ms() },
        ActionView::SearchBox { selector: platform.spec_search_box(), query: keyword },
    ]
}

/// What is asked once the seed search box was tried: without a box the
/// result page is loaded by its address; either way the cards are read
/// after the page has settled.
pub open spec fn seed_listing(
    platform: Platform,
    keyword: Seq<char>,
    searched: bool,
    limit: usize,
) -> Seq<ActionView> {
    let read = seq![
        ActionView::Pause { millis: settle_ms() },
        ActionView::Collect {
            page: Page::Seed,
            selector: platform.spec_card_query(Page::Seed),
            limit,
        },
    ];
    if searched {
        read
    } else {
        seq![ActionView::Navigate { url: platform.spec_search_url(keyword) }] + read
    }
}

/// The stage in which a storefront visit begins.
pub open spec fn shop_entry_stage(platform: Platform) -> Stage {
    match platform {
        Platform::Tokopedia => Stage::ShopSearch,
        Platform::Shopee => Stage::ShopCards,
    }
}

/// What is asked first of a seller for a keyword.
pub open spec fn shop_opening(
    platform: Platform,
    seller: SellerView,
    keyword: Seq<char>,
    limit: usize,
) -> Seq<ActionView> {
    match platform {
        Platform::Tokopedia => seq![
            ActionView::Navigate { url: platform.spec_shop_url(seller.id) },
            ActionView::Await {
                selectors: seq![shop_heading()],
                interval_ms: poll_interval_ms(),
                timeout_ms: poll_timeout_ms(),
            },
            ActionView::SearchBox { selector: platform.spec_search_box(), query: keyword },
        ],
        Platform::Shopee => seq![
            ActionView::Navigate {
                url: platform.spec_shop_search_url(seller.id, shop_title(seller), keyword),
            },
            ActionView::Pause { millis: settle_ms() },
            ActionView::Await {
                selectors: platform.spec_listing_marks(),
                interval_ms: poll_interval_ms(),
                timeout_ms: poll_timeout_ms(),
            },
            ActionView::Collect {
                page: Page::Storefront,
                selector: platform.spec_card_query(Page::Storefront),
                limit,
            },
        ],
    }
}

/// What is asked once a storefront's search box was tried: with a box the
/// listing is awaited; without, the listing is loaded by its address.
pub open spec fn shop_listing(
    platform: Platform,
    seller: SellerView,
    keyword: Seq<char>,
    searched: bool,
    limit: usize,
) -> Seq<ActionView> {
    let read = seq![
        ActionView::Pause { millis: 500 },
        ActionView::Collect {
            page: Page::Storefront,
            selector: platform.spec_card_query(Page::Storefront),
            limit,
        },
    ];
    if searched {
        seq![
            ActionView::Await {
                selectors: platform.spec_listing_marks(),
                interval_ms: poll_interval_ms(),
                timeout_ms: poll_timeout_ms(),
            },
            ActionView::Pause { millis: 1000 },
        ] + read
    } else {
        seq![
            ActionView::Pause { millis: 1000 },
            ActionView::Navigate {
                url: platform.spec_shop_search_url(seller.id, shop_title(seller), keyword),
            },
        ] + read
    }
}

impl SessionView {
    /// A run that has not begun.
    pub open spec fn initial(platform: Platform, keywords: Seq<Seq<char>>, limit: usize) -> Self {
        SessionView {
            platform,
            keywords,
            limit,
            stage: Stage::Idle,
            pending: Seq::empty(),
            sellers: Seq::empty(),
            seller: 0,
            results: Seq::empty(),
            finished: Seq::empty(),
        }
    }

    /// Whether a storefront is being visited.
    pub open spec fn at_storefront(self) -> bool {
        self.stage == Stage::ShopSearch || self.stage == Stage::ShopCards
    }

    /// The end is announced.
    pub open spec fn closing(self) -> Self {
        SessionView { stage: Stage::Closing, pending: seq![ActionView::Done], ..self }
    }

    /// The current seller is reported under a name and an address.
    pub open spec fn report(self, shop_name: Seq<char>, shop_url: Seq<char>) -> Self {
        let shop = assembled(self.platform, shop_name, shop_url, self.results);
        SessionView {
            stage: Stage::Reported,
            finished: self.finished.push(shop),
            pending: seq![ActionView::Progress { shop }],
            ..self
        }
    }

    /// The current seller's results are filled up with the products of the
    /// seed page for as long as the keywords repeat the first one. Then the
    /// seller is asked for the next keyword. With no keyword left the seller
    /// is complete: on Tokopedia it is reported under the name that the seed
    /// page showed; on Shopee the page of its first product is asked for its
    /// name and address.
    pub open spec fn proceed(self) -> Self {
        let seller = self.sellers[self.seller];
        let k = next_fetch(self.keywords, self.results.len() as int);
        let results = self.results + seed_results(
            self.keywords,
            self.results.len() as int,
            k,
            seller.products,
        );
        if k >= self.keywords.len() {
            match self.platform {
                Platform::Tokopedia => SessionView { results, ..self }.report(
                    shop_title(seller),
                    self.platform.spec_shop_url(seller.id),
                ),
                Platform::Shopee => SessionView {
                    stage: Stage::ShopInfo,
                    results,
                    pending: shop_visit(seller),
                    ..self
                },
            }
        } else {
            SessionView {
                stage: shop_entry_stage(self.platform),
                results,
                pending: shop_opening(self.platform, seller, self.keywords[k], self.limit),
                ..self
            }
        }
    }

    /// Seller `i` is taken up, or the end is announced if there is none.
    pub open spec fn begin_seller(self, i: int) -> Self {
        if i >= self.sellers.len() {
            SessionView { seller: i, ..self }.closing()
        } else {
            SessionView { seller: i, results: Seq::empty(), ..self }.proceed()
        }
    }

    /// The current seller's products for the current keyword are known.
    pub open spec fn after_pair(self, products: Seq<ProductView>) -> Self {
        SessionView {
            results: self.results.push(
                QueryResultView { query: self.keywords[self.results.len() as int], products },
            ),
            ..self
        }.proceed()
    }

    /// The decision that an event leads to once nothing is pending.
    pub open spec fn decided(self, event: EventView) -> Self {
        let searched = event == EventView::Searched(true);
        let cards = match event {
            EventView::Cards(cards) => cards,
            _ => Seq::empty(),
        };
        let used = capped(cards.len(), self.limit);
        match self.stage {
            Stage::Idle => {
                if self.keywords.len() == 0 {
                    self.closing()
                } else {
                    SessionView {
                        stage: Stage::SeedSearch,
                        pending: seed_opening(self.platform, self.keywords[0]),
                        ..self
                    }
                }
            },
            Stage::SeedSearch => SessionView {
                stage: Stage::SeedCards,
                pending: seed_listing(self.platform, self.keywords[0], searched, self.limit),
                ..self
            },
            Stage::SeedCards => SessionView {
                sellers: indexed(self.platform, cards, used),
                ..self
            }.begin_seller(0),
            Stage::ShopSearch => SessionView {
                stage: Stage::ShopCards,
                pending: shop_listing(
                    self.platform,
                    self.sellers[self.seller],
                    self.keywords[self.results.len() as int],
                    searched,
                    self.limit,
                ),
                ..self
            },
            Stage::ShopCards => {
                let seller = self.sellers[self.seller];
                self.after_pair(listed(self.platform, cards, used, seller.id, shop_title(seller)))
            },
            Stage::ShopInfo => match event {
                EventView::Shop { names, link } => self.report(
                    shop_name_among(names),
                    shopee_shop_url(link),
                ),
                _ => self.report(Seq::empty(), Seq::empty()),
            },
            Stage::Reported => self.begin_seller(self.seller + 1),
            Stage::Closing => SessionView { stage: Stage::Finished, ..self },
            Stage::Finished => self,
        }
    }

    /// The state in which the next action is taken from what is pending.
    pub open spec fn settled(self, event: EventView) -> Self {
        if self.stage == Stage::Finished {
            self
        } else if self.at_storefront() && event == EventView::Failed {
            self.after_pair(Seq::empty())
        } else if self.stage == Stage::ShopInfo && event == EventView::Failed {
            self.report(Seq::empty(), Seq::empty())
        } else if self.pending.len() > 0 {
            self
        } else {
            self.decided(event)
        }
    }

    /// One step of the run: the state after the event, and what is asked
    /// next. A failure during a storefront visit ends the visit with no
    /// products, and one while a shop's name is asked for leaves name and
    /// address empty; otherwise what is pending is asked first, and an event
    /// is decided on when nothing is pending.
    pub open spec fn step(self, event: EventView) -> (Self, ActionView) {
        let s = self.settled(event);
        if s.pending.len() > 0 {
            (SessionView { pending: s.pending.drop_first(), ..s }, s.pending[0])
        } else {
            (s, ActionView::Finish { results: s.finished })
        }
    }

    /// What holds of every state that a run passes through: the results so
    /// far follow the keywords, whatever was or will be reported answers the
    /// keywords, no seller occurs twice, the sellers hold no more products
    /// of the seed page than the limit allows, and the stage fits the rest.
    pub open spec fn valid(self) -> bool {
        &&& self.results.len() <= self.keywords.len()
        &&& forall|j: int|
            0 <= j < self.results.len() ==> (#[trigger] self.results[j]).query == self.keywords[j]
        &&& forall|i: int|
            0 <= i < self.finished.len() ==> answers(#[trigger] self.finished[i], self.keywords)
        &&& forall|i: int|
            0 <= i < self.pending.len() ==> reports(#[trigger] self.pending[i], self.keywords)
                && !(self.pending[i] is Finish)
        &&& distinct_ids(self.sellers)
        &&& product_count(self.sellers) <= self.limit
        &&& 0 <= self.seller
        &&& self.at_storefront() ==> self.seller < self.sellers.len() && self.results.len()
            < self.keywords.len()
        &&& self.stage == Stage::Reported ==> self.seller < self.sellers.len()
        &&& self.stage == Stage::ShopInfo ==> self.seller < self.sellers.len() && self.results.len()
            == self.keywords.len()
        &&& self.stage == Stage::SeedSearch || self.stage == Stage::SeedCards
            ==> self.keywords.len() > 0
        &&& self.stage == Stage::Idle ==> self.pending.len() == 0 && self.finished.len() == 0
        &&& self.stage == Stage::Finished ==> self.pending.len() == 0
    }
}

/// Whatever an action reports answers the keywords.
pub open spec fn reports(action: ActionView, keywords: Seq<Seq<char>>) -> bool {
    match action {
        ActionView::Progress { shop } => answers(shop, keywords),
        ActionView::Finish { results } => forall|i: int|
            0 <= i < results.len() ==> answers(#[trigger] results[i], keywords),
        _ => true,
    }
}

/// A seller's report answers the keywords: one result per keyword, in the
/// order of the keywords.
pub open spec fn answers(shop: ShopResultsView, keywords: Seq<Seq<char>>) -> bool {
    &&& shop.results.len() == keywords.len()
    &&& forall|j: int| 0 <= j < keywords.len() ==> (#[trigger] shop.results[j]).query == keywords[j]
}

/// `next_fetch` stays within the keywords, and the keywords that it passes
/// over repeat the first.
pub proof fn lemma_next_fetch(keywords: Seq<Seq<char>>, k: int)
    requires
        0 <= k <= keywords.len(),
    ensures
        k <= next_fetch(keywords, k) <= keywords.len(),
        forall|j: int| k <= j < next_fetch(keywords, k) ==> #[trigger] keywords[j] == keywords[0],
        next_fetch(keywords, k) < keywords.len() ==> keywords[next_fetch(keywords, k)]
            != keywords[0],
    decreases keywords.len() - k,
{
    if k < keywords.len() && keywords[k] == keywords[0] {
        lemma_next_fetch(keywords, k + 1);
    }
}

/// Filling up and going on keeps a state valid.
pub proof fn lemma_proceed_valid(s: SessionView)
    requires
        s.valid(),
        s.seller < s.sellers.len(),
    ensures
        s.proceed().valid(),
        s.proceed().pending.len() > 0,
        s.proceed().keywords == s.keywords,
        s.proceed().stage != Stage::Finished,
{
    lemma_next_fetch(s.keywords, s.results.len() as int);
    let k = next_fetch(s.keywords, s.results.len() as int);
    let n = s.proceed();
    assert forall|j: int| 0 <= j < n.results.len() implies (#[trigger] n.results[j]).query
        == s.keywords[j] by {
        if j < s.results.len() {
            assert(n.results[j] == s.results[j]);
        }
    }
    if k >= s.keywords.len() && s.platform == Platform::Tokopedia {
        let seller = s.sellers[s.seller];
        lemma_report_valid(
            SessionView { results: n.results, ..s },
            shop_title(seller),
            s.platform.spec_shop_url(seller.id),
        );
    }
}

/// Reporting a seller whose results are complete keeps a state valid.
pub proof fn lemma_report_valid(s: SessionView, shop_name: Seq<char>, shop_url: Seq<char>)
    requires
        s.results.len() == s.keywords.len(),
        forall|j: int|
            0 <= j < s.results.len() ==> (#[trigger] s.results[j]).query == s.keywords[j],
        forall|i: int| 0 <= i < s.finished.len() ==> answers(#[trigger] s.finished[i], s.keywords),
        distinct_ids(s.sellers),
        product_count(s.sellers) <= s.limit,
        0 <= s.seller < s.sellers.len(),
    ensures
        s.report(shop_name, shop_url).valid(),
        s.report(shop_name, shop_url).pending.len() > 0,
        s.report(shop_name, shop_url).keywords == s.keywords,
        s.report(shop_name, shop_url).stage != Stage::Finished,
{
    let n = s.report(shop_name, shop_url);
    let shop = assembled(s.platform, shop_name, shop_url, s.results);
    assert(answers(shop, s.keywords));
    assert forall|i: int| 0 <= i < n.finished.len() implies answers(
        #[trigger] n.finished[i],
        s.keywords,
    ) by {
        if i < s.finished.len() {
            assert(n.finished[i] == s.finished[i]);
        }
    }
}

/// Every step keeps a state valid and leaves the keywords as they are, and
/// whatever it reports answers the keywords.
pub proof fn lemma_step_valid(s: SessionView, event: EventView)
    requires
        s.valid(),
    ensures
        s.step(event).0.valid(),
        s.step(event).0.keywords == s.keywords,
        s.step(event).0.platform == s.platform,
        reports(s.step(event).1, s.keywords),
        s.step(event).1 is Finish <==> s.step(event).0.stage == Stage::Finished,
{
    let d = s.settled(event);
    if s.stage == Stage::Finished {
    } else if s.at_storefront() && event == EventView::Failed {
        lemma_after_pair_valid(s, Seq::empty());
    } else if s.stage == Stage::ShopInfo && event == EventView::Failed {
        lemma_report_valid(s, Seq::empty(), Seq::empty());
    } else if s.pending.len() > 0 {
    } else {
        match s.stage {
            Stage::ShopInfo => {
                match event {
                    EventView::Shop { names, link } => {
                        lemma_report_valid(s, shop_name_among(names), shopee_shop_url(link));
                    },
                    _ => {
                        lemma_report_valid(s, Seq::empty(), Seq::empty());
                    },
                }
            },
            Stage::SeedCards => {
                let cards = match event {
                    EventView::Cards(cards) => cards,
                    _ => Seq::empty(),
                };
                let t = SessionView {
                    sellers: indexed(s.platform, cards, capped(cards.len(), s.limit)),
                    ..s
                };
                lemma_indexed_distinct(s.platform, cards, capped(cards.len(), s.limit));
                lemma_indexed_count(s.platform, cards, capped(cards.len(), s.limit));
                lemma_begin_seller_valid(t, 0);
            },
            Stage::ShopCards => {
                let cards = match event {
                    EventView::Cards(cards) => cards,
                    _ => Seq::empty(),
                };
                let seller = s.sellers[s.seller];
                lemma_after_pair_valid(
                    s,
                    listed(
                        s.platform,
                        cards,
                        capped(cards.len(), s.limit),
                        seller.id,
                        shop_title(seller),
                    ),
                );
            },
            Stage::Reported => {
                lemma_begin_seller_valid(s, s.seller + 1);
            },
            _ => {},
        }
    }
    assert(d.valid());
    assert(d.keywords == s.keywords);
    if d.pending.len() > 0 {
        let n = s.step(event).0;
        assert forall|i: int| 0 <= i < n.pending.len() implies reports(
            #[trigger] n.pending[i],
            n.keywords,
        ) && !(n.pending[i] is Finish) by {
            assert(n.pending[i] == d.pending[i + 1]);
        }
        assert(reports(d.pending[0], s.keywords));
        assert(!(d.pending[0] is Finish));
    }
}

/// Taking up a seller keeps a state valid.
pub proof fn lemma_begin_seller_valid(s: SessionView, i: int)
    requires
        s.valid(),
        0 <= i,
        s.stage != Stage::Finished,
    ensures
        s.begin_seller(i).valid(),
        s.begin_seller(i).pending.len() > 0,
        s.begin_seller(i).keywords == s.keywords,
        s.begin_seller(i).stage != Stage::Finished,
{
    if i >= s.sellers.len() {
    } else {
        let t = SessionView { seller: i, results: Seq::empty(), pending: Seq::empty(), ..s };
        let u = SessionView { stage: Stage::Reported, ..t };
        assert(u.valid());
        lemma_proceed_valid(u);
        assert(u.proceed().results == SessionView { seller: i, results: Seq::empty(), ..s }.proceed().results);
    }
}

/// Ending a storefront visit keeps a state valid.
pub proof fn lemma_after_pair_valid(s: SessionView, products: Seq<ProductView>)
    requires
        s.valid(),
        s.at_storefront(),
    ensures
        s.after_pair(products).valid(),
        s.after_pair(products).pending.len() > 0,
        s.after_pair(products).keywords == s.keywords,
        s.after_pair(products).stage != Stage::Finished,
{
    let t = SessionView {
        results: s.results.push(
            QueryResultView { query: s.keywords[s.results.len() as int], products },
        ),
        pending: Seq::empty(),
        stage: Stage::Reported,
        ..s
    };
    assert(t.valid());
    lemma_proceed_valid(t);
    let u = SessionView { results: t.results, ..s };
    assert(u.proceed().results == t.proceed().results);
    assert(u.proceed().finished == t.proceed().finished);
    assert(u.proceed().pending == t.proceed().pending);
    assert(u.proceed().stage == t.proceed().stage);
}

/// Taking up a seller answers the first keyword with the seller's products
/// of the seed page, before anything is asked of the seller.
pub proof fn lemma_first_keyword_uses_seed(s: SessionView, i: int)
    requires
        0 <= i < s.sellers.len(),
        s.keywords.len() > 0,
    ensures
        s.begin_seller(i).results.len() >= 1,
        s.begin_seller(i).results[0] == (QueryResultView {
            query: s.keywords[0],
            products: s.sellers[i].products,
        }),
{
    lemma_next_fetch(s.keywords, 1);
    assert(next_fetch(s.keywords, 0) == next_fetch(s.keywords, 1));
}

/// The state that a run is in after a sequence of events.
pub open spec fn run(s: SessionView, events: Seq<EventView>) -> SessionView
    decreases events.len(),
{
    if events.len() == 0 {
        s
    } else {
        run(s, events.drop_last()).step(events.last()).0
    }
}

/// Whatever happens during a run, every seller that it reports has one
/// result per keyword, in the order of the keywords: the sellers that are
/// complete, and whatever the next step hands out.
pub proof fn lemma_results_answer_keywords(
    platform: Platform,
    keywords: Seq<Seq<char>>,
    limit: usize,
    events: Seq<EventView>,
    next: EventView,
)
    ensures
        run(SessionView::initial(platform, keywords, limit), events).valid(),
        run(SessionView::initial(platform, keywords, limit), events).keywords == keywords,
        forall|i: int|
            0 <= i < run(SessionView::initial(platform, keywords, limit), events).finished.len()
                ==> answers(
                #[trigger] run(SessionView::initial(platform, keywords, limit), events).finished[i],
                keywords,
            ),
        reports(
            run(SessionView::initial(platform, keywords, limit), events).step(next).1,
            keywords,
        ),
    decreases events.len(),
{
    let init = SessionView::initial(platform, keywords, limit);
    if events.len() == 0 {
        assert(init.valid());
    } else {
        lemma_results_answer_keywords(platform, keywords, limit, events.drop_last(), events.last());
        lemma_step_valid(run(init, events.drop_last()), events.last());
    }
    lemma_step_valid(run(init, events), next);
}

/// Without keywords a run announces its end at once and then ends with no
/// results: nothing is navigated to and no seller is reported.
pub proof fn lemma_no_keywords(
    platform: Platform,
    keywords: Seq<Seq<char>>,
    limit: usize,
    first: EventView,
    second: EventView,
)
    requires
        keywords.len() == 0,
    ensures
        SessionView::initial(platform, keywords, limit).step(first).1 == ActionView::Done,
        SessionView::initial(platform, keywords, limit).step(first).0.step(second).1 == (
        ActionView::Finish { results: Seq::empty() }),
{
    let init = SessionView::initial(platform, keywords, limit);
    let s = init.step(first).0;
    assert(init.settled(first) == init.closing());
    assert(s.pending =~= Seq::empty());
    assert(s.stage == Stage::Closing);
}

} // verus!
