use satu_toko::models::{Product, QueryResult, ShopResults};
use satu_toko::platforms::{Card, Page, Platform};
use satu_toko::scraper::{
    extract_shop_slug, group_products_by_shop, index_cards, list_products, scrape_products, Action,
    Event, ScrapeSession, ShopeeScraper, TokopediaScraper,
};

fn texts(items: &[&str]) -> Vec<String> {
    items.iter().map(|s| s.to_string()).collect()
}

fn card(link: &str, title: &str, price: &str, shop: &str) -> Card {
    Card {
        link: Some(link.to_string()),
        titles: vec![String::new(), title.to_string()],
        price: Some(price.to_string()),
        shop: if shop.is_empty() { None } else { Some(shop.to_string()) },
        location: Some("Jakarta".to_string()),
        photo: Some("https://img.example/p.jpg".to_string()),
    }
}

fn seed_cards() -> Vec<Card> {
    vec![
        card("https://www.tokopedia.com/toko-a/sepatu-1", "Sepatu Satu", "Rp100.000", "Toko A"),
        card("/toko-b/sepatu-2?src=x", "Sepatu Dua", "Rp200.000", "Toko B"),
        card("https://www.tokopedia.com/toko-a/sepatu-3", "Sepatu Tiga", "Rp300.000", ""),
    ]
}

/// Drives a session to its end and returns what it asked for and what it
/// ended with. `respond` plays the browser.
fn drive(
    mut session: ScrapeSession,
    mut respond: impl FnMut(&Action) -> Event,
) -> (Vec<Action>, Vec<ShopResults>) {
    let mut asked = Vec::new();
    let mut event = Event::Ack;
    for _ in 0..10_000 {
        let action = session.step(event);
        if let Action::Finish { results } = action {
            assert!(session.is_finished());
            return (asked, results);
        }
        event = respond(&action);
        asked.push(action);
    }
    panic!("the session did not end");
}

fn queries_of(shop: &ShopResults) -> Vec<String> {
    shop.results.iter().map(|r| r.query.clone()).collect()
}

#[test]
fn two_sellers_two_keywords_on_tokopedia() {
    let session = TokopediaScraper::scrape(&texts(&["sepatu", "tas"]), 20);
    let (asked, results) = drive(session, |action| match action {
        Action::SearchBox { .. } => Event::Searched(true),
        Action::Await { .. } => Event::Awaited(true),
        Action::Collect { page: Page::Seed, .. } => Event::Cards(seed_cards()),
        Action::Collect { page: Page::Storefront, .. } => Event::Cards(vec![card(
            "/toko-x/tas-1",
            "Tas Satu",
            "Rp50.000",
            "",
        )]),
        _ => Event::Ack,
    });

    assert_eq!(results.len(), 2);
    assert_eq!(results[0].shop_name, "Toko A");
    assert_eq!(results[0].shop_url, "https://www.tokopedia.com/toko-a");
    assert_eq!(results[0].platform, "tokopedia");
    assert_eq!(results[1].shop_name, "Toko B");
    assert_eq!(results[1].shop_url, "https://www.tokopedia.com/toko-b");
    for shop in &results {
        assert_eq!(queries_of(shop), texts(&["sepatu", "tas"]));
    }

    // The first keyword's products are those of the seed page.
    let a = &results[0].results[0].products;
    assert_eq!(a.len(), 2);
    assert_eq!(a[0].name, "Sepatu Satu");
    assert_eq!(a[0].link, "https://www.tokopedia.com/toko-a/sepatu-1");
    assert_eq!(a[0].shop, "Toko A");
    assert_eq!(a[1].name, "Sepatu Tiga");
    assert_eq!(a[1].shop, "");
    let b = &results[1].results[0].products;
    assert_eq!(b.len(), 1);
    assert_eq!(b[0].link, "https://www.tokopedia.com/toko-b/sepatu-2?src=x");

    // The second keyword's products come from the storefront, under the
    // seller's name.
    let tas = &results[1].results[1].products;
    assert_eq!(tas.len(), 1);
    assert_eq!(tas[0].name, "Tas Satu");
    assert_eq!(tas[0].shop, "Toko B");
    assert_eq!(tas[0].link, "https://www.tokopedia.com/toko-x/tas-1");

    // No storefront is visited for the first keyword: each seller's page is
    // loaded once, for "tas", and "sepatu" is typed once, on the seed page.
    let visits: Vec<&String> = asked
        .iter()
        .filter_map(|a| match a {
            Action::Navigate { url } => Some(url),
            _ => None,
        })
        .collect();
    assert_eq!(
        visits,
        vec![
            "https://www.tokopedia.com/",
            "https://www.tokopedia.com/toko-a",
            "https://www.tokopedia.com/toko-b"
        ]
    );
    let typed: Vec<&String> = asked
        .iter()
        .filter_map(|a| match a {
            Action::SearchBox { query, .. } => Some(query),
            _ => None,
        })
        .collect();
    assert_eq!(typed, vec!["sepatu", "tas", "tas"]);

    // One progress report per seller, in the order of discovery, then the end.
    let reported: Vec<&String> = asked
        .iter()
        .filter_map(|a| match a {
            Action::Progress { shop } => Some(&shop.shop_name),
            _ => None,
        })
        .collect();
    assert_eq!(reported, vec!["Toko A", "Toko B"]);
    assert_eq!(asked.iter().filter(|a| matches!(a, Action::Done)).count(), 1);
    assert!(matches!(asked.last(), Some(Action::Done)));
}

#[test]
fn the_whole_script_of_one_storefront_visit() {
    let session = ScrapeSession::new(Platform::Tokopedia, texts(&["sepatu", "tas"]), 5);
    let (asked, _) = drive(session, |action| match action {
        Action::SearchBox { .. } => Event::Searched(true),
        Action::Collect { page: Page::Seed, .. } => Event::Cards(vec![card(
            "/toko-a/sepatu-1",
            "Sepatu",
            "Rp1",
            "Toko A",
        )]),
        Action::Collect { .. } => Event::Cards(Vec::new()),
        _ => Event::Ack,
    });
    let box_query = r#"input[data-unify="Search"][type="search"]"#.to_string();
    let marks = vec![
        r#"img[alt="product-image"]"#.to_string(),
        r#"div[class="unf-emptystate-img"]"#.to_string(),
    ];
    let expected = vec![
        Action::Navigate { url: "https://www.tokopedia.com/".to_string() },
        Action::Pause { millis: 2000 },
        Action::SearchBox { selector: box_query.clone(), query: "sepatu".to_string() },
        Action::Pause { millis: 2000 },
        Action::Collect {
            page: Page::Seed,
            selector: r#"div[data-ssr="contentProductsSRPSSR"] a"#.to_string(),
            limit: 5,
        },
        Action::Navigate { url: "https://www.tokopedia.com/toko-a".to_string() },
        Action::Await {
            selectors: vec![r#"h1[data-testid="shopNameHeader"]"#.to_string()],
            interval_ms: 500,
            timeout_ms: 6000,
        },
        Action::SearchBox { selector: box_query, query: "tas".to_string() },
        Action::Await { selectors: marks, interval_ms: 500, timeout_ms: 6000 },
        Action::Pause { millis: 1000 },
        Action::Pause { millis: 500 },
        Action::Collect {
            page: Page::Storefront,
            selector: r#"[data-ssr="shopSSR"] > div:nth-child(2) a[data-theme="default"]"#
                .to_string(),
            limit: 5,
        },
    ];
    assert_eq!(&asked[..expected.len()], &expected[..]);
    assert!(matches!(asked[expected.len()], Action::Progress { .. }));
    assert!(matches!(asked[expected.len() + 1], Action::Done));
    assert_eq!(asked.len(), expected.len() + 2);
}

#[test]
fn empty_keyword_list_ends_at_once() {
    let mut session = TokopediaScraper::scrape(&Vec::new(), 20);
    assert_eq!(session.step(Event::Ack), Action::Done);
    assert_eq!(session.step(Event::Ack), Action::Finish { results: Vec::new() });
    assert!(session.is_finished());
    // After the end the answer stays the same.
    assert_eq!(session.step(Event::Failed), Action::Finish { results: Vec::new() });
}

#[test]
fn empty_keyword_list_on_shopee_reports_nothing() {
    let session = ShopeeScraper::scrape(&Vec::new(), 20);
    let (asked, results) = drive(session, |_| Event::Ack);
    assert_eq!(asked, vec![Action::Done]);
    assert!(results.is_empty());
}

#[test]
fn storefront_without_search_box_and_without_products_gives_empty_result() {
    let session = TokopediaScraper::scrape(&texts(&["sepatu", "tas", "topi"]), 20);
    let mut seed_searched = false;
    let (asked, results) = drive(session, |action| match action {
        Action::SearchBox { .. } => {
            if seed_searched {
                Event::Searched(false)
            } else {
                seed_searched = true;
                Event::Searched(true)
            }
        }
        Action::Await { .. } => Event::Awaited(false),
        Action::Collect { page: Page::Seed, .. } => Event::Cards(seed_cards()),
        Action::Collect { .. } => Event::Cards(Vec::new()),
        _ => Event::Ack,
    });
    assert_eq!(results.len(), 2);
    for shop in &results {
        assert_eq!(queries_of(shop), texts(&["sepatu", "tas", "topi"]));
        assert!(!shop.results[0].products.is_empty());
        assert!(shop.results[1].products.is_empty());
        assert!(shop.results[2].products.is_empty());
    }
    // Without a search box the listing is loaded by its address, with the
    // keyword and the seller's name as URL components.
    assert!(asked.contains(&Action::Navigate {
        url: "https://www.tokopedia.com/toko-a/product?q=tas&srp_page_title=Toko%20A&navsource=shop&srp_component_id=02.01.00.00".to_string()
    }));
    assert!(asked.contains(&Action::Navigate {
        url: "https://www.tokopedia.com/toko-b/product?q=topi&srp_page_title=Toko%20B&navsource=shop&srp_component_id=02.01.00.00".to_string()
    }));
    // Without a search box the listing is not awaited.
    let awaits = asked.iter().filter(|a| matches!(a, Action::Await { .. })).count();
    assert_eq!(awaits, 4);
}

#[test]
fn seed_without_search_box_loads_the_result_page() {
    let session = TokopediaScraper::scrape(&texts(&["sepatu lari"]), 20);
    let (asked, results) = drive(session, |action| match action {
        Action::SearchBox { .. } => Event::Searched(false),
        Action::Collect { .. } => Event::Cards(Vec::new()),
        _ => Event::Ack,
    });
    assert!(results.is_empty());
    assert_eq!(
        asked[3],
        Action::Navigate { url: "https://www.tokopedia.com/search?q=sepatu%20lari".to_string() }
    );
    assert_eq!(asked[4], Action::Pause { millis: 2000 });
    assert!(matches!(asked[5], Action::Collect { page: Page::Seed, .. }));
    assert_eq!(asked[6], Action::Done);
    assert_eq!(asked.len(), 7);
}

#[test]
fn failure_in_a_storefront_visit_skips_to_the_next_keyword() {
    let session = TokopediaScraper::scrape(&texts(&["sepatu", "tas", "topi"]), 20);
    let (asked, results) = drive(session, |action| match action {
        Action::Navigate { url } if url == "https://www.tokopedia.com/toko-a" => Event::Failed,
        Action::SearchBox { .. } => Event::Searched(true),
        Action::Collect { page: Page::Seed, .. } => Event::Cards(vec![card(
            "/toko-a/sepatu-1",
            "Sepatu",
            "Rp1",
            "Toko A",
        )]),
        Action::Collect { .. } => Event::Cards(vec![card("/toko-a/x", "X", "Rp2", "")]),
        _ => Event::Ack,
    });
    assert_eq!(results.len(), 1);
    assert_eq!(queries_of(&results[0]), texts(&["sepatu", "tas", "topi"]));
    assert!(results[0].results[1].products.is_empty());
    assert!(results[0].results[2].products.is_empty());
    // Each failed visit ends after its first action.
    let storefront_reads =
        asked.iter().filter(|a| matches!(a, Action::Collect { page: Page::Storefront, .. })).count();
    assert_eq!(storefront_reads, 0);
}

#[test]
fn a_keyword_that_repeats_the_first_uses_the_seed_products() {
    let session = TokopediaScraper::scrape(&texts(&["sepatu", "tas", "sepatu"]), 20);
    let (asked, results) = drive(session, |action| match action {
        Action::SearchBox { .. } => Event::Searched(true),
        Action::Collect { page: Page::Seed, .. } => Event::Cards(seed_cards()),
        Action::Collect { .. } => Event::Cards(Vec::new()),
        _ => Event::Ack,
    });
    assert_eq!(results.len(), 2);
    for shop in &results {
        assert_eq!(queries_of(shop), texts(&["sepatu", "tas", "sepatu"]));
        assert_eq!(shop.results[0].products, shop.results[2].products);
    }
    let typed = asked.iter().filter(|a| matches!(a, Action::SearchBox { .. })).count();
    assert_eq!(typed, 3);
}

#[test]
fn the_limit_caps_the_cards_that_are_used() {
    let session = TokopediaScraper::scrape(&texts(&["sepatu"]), 1);
    let (_, results) = drive(session, |action| match action {
        Action::SearchBox { .. } => Event::Searched(true),
        Action::Collect { .. } => Event::Cards(seed_cards()),
        _ => Event::Ack,
    });
    assert_eq!(results.len(), 1);
    assert_eq!(results[0].shop_name, "Toko A");
    assert_eq!(results[0].results[0].products.len(), 1);
}

#[test]
fn shopee_run_asks_the_product_page_for_the_shop() {
    let seed = vec![Card {
        link: Some("/Sepatu-Keren-i.124455053.29705222804?sp_atk=1".to_string()),
        titles: vec!["Sepatu Keren".to_string()],
        price: Some("75.000".to_string()),
        shop: None,
        location: Some("Bandung".to_string()),
        photo: None,
    }];
    let session = ShopeeScraper::scrape(&texts(&["sepatu", "tas"]), 10);
    let (asked, results) = drive(session, |action| match action {
        Action::SearchBox { .. } => Event::Searched(true),
        Action::Collect { page: Page::Seed, .. } => Event::Cards(seed.clone_cards()),
        Action::Collect { .. } => Event::Cards(vec![Card {
            link: Some("/Tas-Bagus-i.124455053.111".to_string()),
            titles: vec!["Tas Bagus".to_string()],
            price: Some("10.000".to_string()),
            shop: None,
            location: None,
            photo: None,
        }]),
        Action::ReadShop { .. } => Event::Shop {
            names: texts(&["", "Aktif 3 menit lalu", "  ", "Chat sekarang", "Toko Keren"]),
            link: Some("/tokokeren".to_string()),
        },
        _ => Event::Ack,
    });
    assert_eq!(results.len(), 1);
    let shop = &results[0];
    assert_eq!(shop.shop_name, "Toko Keren");
    assert_eq!(shop.shop_url, "https://shopee.co.id/tokokeren");
    assert_eq!(shop.platform, "shopee");
    assert_eq!(queries_of(shop), texts(&["sepatu", "tas"]));
    let first = &shop.results[0].products[0];
    assert_eq!(first.price, "Rp75.000");
    assert_eq!(first.shop, "124455053");
    assert_eq!(first.link, "https://shopee.co.id/Sepatu-Keren-i.124455053.29705222804?sp_atk=1");
    assert_eq!(first.photo, "");
    assert_eq!(shop.results[1].products[0].name, "Tas Bagus");
    assert_eq!(shop.results[1].products[0].shop, "124455053");

    assert!(asked.contains(&Action::Navigate {
        url: "https://shopee.co.id/search?keyword=tas&shop=124455053".to_string()
    }));
    assert!(asked.contains(&Action::Navigate {
        url: "https://shopee.co.id/Sepatu-Keren-i.124455053.29705222804?sp_atk=1".to_string()
    }));
    assert!(asked.contains(&Action::ReadShop {
        block: ".page-product__shop".to_string(),
        names: ".//a/following-sibling::div//div".to_string()
    }));
}

#[test]
fn shopee_shop_without_block_is_reported_without_name() {
    let session = ShopeeScraper::scrape(&texts(&["sepatu"]), 10);
    let (_, results) = drive(session, |action| match action {
        Action::SearchBox { .. } => Event::Searched(false),
        Action::Collect { .. } => Event::Cards(vec![Card {
            link: Some("/Sepatu-i.7.8".to_string()),
            titles: vec!["Sepatu".to_string()],
            price: Some("1".to_string()),
            shop: None,
            location: None,
            photo: None,
        }]),
        Action::ReadShop { .. } => Event::Failed,
        _ => Event::Ack,
    });
    assert_eq!(results.len(), 1);
    assert_eq!(results[0].shop_name, "");
    assert_eq!(results[0].shop_url, "");
    assert_eq!(results[0].results.len(), 1);
}

trait CloneCards {
    fn clone_cards(&self) -> Vec<Card>;
}

impl CloneCards for Vec<Card> {
    fn clone_cards(&self) -> Vec<Card> {
        self.iter()
            .map(|c| Card {
                link: c.link.clone(),
                titles: c.titles.clone(),
                price: c.price.clone(),
                shop: c.shop.clone(),
                location: c.location.clone(),
                photo: c.photo.clone(),
            })
            .collect()
    }
}

#[test]
fn sellers_are_indexed_in_the_order_of_discovery() {
    let cards = seed_cards();
    let sellers = index_cards(Platform::Tokopedia, &cards, 3);
    assert_eq!(sellers.len(), 2);
    assert_eq!(sellers[0].id, "toko-a");
    assert_eq!(sellers[0].name, "Toko A");
    assert_eq!(sellers[0].products.len(), 2);
    assert_eq!(sellers[1].id, "toko-b");
    assert_eq!(sellers[1].products.len(), 1);
    assert!(index_cards(Platform::Tokopedia, &cards, 0).is_empty());
}

#[test]
fn a_later_shop_name_replaces_an_earlier_one() {
    let cards = vec![
        card("/toko-a/sepatu", "Sepatu", "Rp1", "Lama"),
        card("/toko-a/tas", "Tas", "Rp2", ""),
        card("/toko-a/topi", "Topi", "Rp3", "Baru"),
    ];
    let sellers = index_cards(Platform::Tokopedia, &cards, 3);
    assert_eq!(sellers.len(), 1);
    assert_eq!(sellers[0].name, "Baru");
    assert_eq!(sellers[0].products.len(), 3);
}

#[test]
fn storefront_cards_become_products_under_the_shop_name() {
    let cards = vec![
        card("/toko-a/tas-1", "Tas", "Rp5", ""),
        card("/toko-a/product?perpage=10", "Lainnya", "Rp0", ""),
        card("//cdn.example/x", "", "", ""),
    ];
    let products = list_products(Platform::Tokopedia, &cards, 3, "toko-a", "Toko A");
    assert_eq!(products.len(), 1);
    assert_eq!(products[0].shop, "Toko A");
    assert_eq!(products[0].link, "https://www.tokopedia.com/toko-a/tas-1");
}

#[test]
fn scrape_products_names_the_marketplaces() {
    let queries = texts(&["sepatu"]);
    assert_eq!(scrape_products(&queries, "tokopedia", 5).map(|s| s.len()), Ok(1));
    assert_eq!(scrape_products(&queries, "shopee", 5).map(|s| s.len()), Ok(1));
    assert_eq!(scrape_products(&queries, "all", 5).map(|s| s.len()), Ok(2));
    assert_eq!(
        scrape_products(&queries, "lazada", 5).map(|s| s.len()),
        Err("Unsupported platform".to_string())
    );

    let mut sessions = scrape_products(&queries, "all", 5).unwrap();
    let second = sessions.pop().unwrap();
    let first = sessions.pop().unwrap();
    let (asked, _) = drive(first, |_| Event::Failed);
    assert_eq!(asked[0], Action::Navigate { url: "https://www.tokopedia.com/".to_string() });
    let (asked, _) = drive(second, |_| Event::Failed);
    assert_eq!(asked[0], Action::Navigate { url: "https://shopee.co.id/".to_string() });
}

#[test]
fn shop_slug_of_a_link() {
    assert_eq!(
        extract_shop_slug("https://www.tokopedia.com/toko-a/sepatu", "tokopedia"),
        Some("toko-a".to_string())
    );
    assert_eq!(extract_shop_slug("https://www.tokopedia.com/toko-a", "tokopedia"), None);
    assert_eq!(extract_shop_slug("https://example.com/toko-a/x", "tokopedia"), None);
    assert_eq!(extract_shop_slug("anything", "shopee"), Some("shopee".to_string()));
    assert_eq!(extract_shop_slug("https://www.tokopedia.com/a/b", "lazada"), None);
}

#[test]
fn products_are_grouped_by_the_shop_of_the_first_result() {
    let product = |link: &str, shop: &str| Product {
        name: "n".to_string(),
        price: "p".to_string(),
        shop: shop.to_string(),
        location: String::new(),
        photo: String::new(),
        link: link.to_string(),
    };
    let results = vec![
        QueryResult {
            query: "sepatu".to_string(),
            products: vec![
                product("https://www.tokopedia.com/toko-b/x", ""),
                product("https://www.tokopedia.com/toko-a/y", "Toko A"),
                product("https://www.tokopedia.com/toko-b/z", "Toko B"),
                product("https://elsewhere.example/toko-c/z", "Toko C"),
            ],
        },
        QueryResult { query: "tas".to_string(), products: Vec::new() },
    ];
    let shops = group_products_by_shop(&results, "tokopedia").unwrap();
    assert_eq!(shops.len(), 2);
    assert_eq!(shops[0].shop_name, "Toko B");
    assert_eq!(shops[0].shop_url, "https://www.tokopedia.com/toko-b");
    assert_eq!(shops[0].platform, "tokopedia");
    assert_eq!(shops[0].results, results);
    assert_eq!(shops[1].shop_name, "Toko A");
    assert_eq!(shops[1].results, results);

    assert!(group_products_by_shop(&Vec::new(), "tokopedia").unwrap().is_empty());
    let shopee = group_products_by_shop(&results, "shopee").unwrap();
    assert_eq!(shopee.len(), 1);
    assert_eq!(shopee[0].shop_url, "https://shopee.co.id/shopee");
}
