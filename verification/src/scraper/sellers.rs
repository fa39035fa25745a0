//! The sellers that a result page shows: each with the products that link
//! to it, in the order in which the page shows them first. No seller occurs
//! twice.

use vstd::prelude::*;
use crate::models::{
    clone_results,
    Product,
    ProductView,
    QueryResult,
    QueryResultView,
    ShopResults,
    ShopResultsView,
};
use crate::platforms::{Card, CardView, Platform};
use crate::text::{
    contains,
    find,
    find_first,
    has_substring,
    head,
    join2,
    opt_view,
    same,
    starts_with,
    tail,
};

verus! {

/// A seller found on the seed page.
pub struct Seller {
    pub id: String,
    /// The name that the seed page shows, empty if it shows none.
    pub name: String,
    /// The seller's products on the seed page.
    pub products: Vec<Product>,
}

/// The mathematical value of a `Seller`.
pub struct SellerView {
    pub id: Seq<char>,
    pub name: Seq<char>,
    pub products: Seq<ProductView>,
}

impl View for Seller {
    type V = SellerView;

    open spec fn view(&self) -> SellerView {
        SellerView { id: self.id@, name: self.name@, products: self.products.deep_view() }
    }
}

impl DeepView for Seller {
    type V = SellerView;

    open spec fn deep_view(&self) -> SellerView {
        self@
    }
}

/// Offset of the first seller at or after `i` with this id, or -1.
pub open spec fn seller_position(sellers: Seq<SellerView>, id: Seq<char>, i: int) -> int
    decreases sellers.len() - i,
{
    if i < 0 || i >= sellers.len() {
        -1
    } else if sellers[i].id == id {
        i
    } else {
        seller_position(sellers, id, i + 1)
    }
}

/// The sellers after one more product of the seed page: the product joins
/// its seller's list, and its shop name, if it has one, becomes the seller's;
/// a seller not seen before comes last.
pub open spec fn recorded(sellers: Seq<SellerView>, id: Seq<char>, product: ProductView) -> Seq<
    SellerView,
> {
    let at = seller_position(sellers, id, 0);
    if at >= 0 {
        sellers.update(
            at,
            SellerView {
                id,
                name: if product.shop.len() > 0 {
                    product.shop
                } else {
                    sellers[at].name
                },
                products: sellers[at].products.push(product),
            },
        )
    } else {
        sellers.push(SellerView { id, name: product.shop, products: seq![product] })
    }
}

/// The sellers that the first `n` cards of the seed page show.
pub open spec fn indexed(platform: Platform, cards: Seq<CardView>, n: int) -> Seq<SellerView>
    decreases n,
{
    if n <= 0 {
        Seq::empty()
    } else {
        let before = indexed(platform, cards, n - 1);
        match platform.spec_seed_entry(cards[n - 1]) {
            Some(entry) => recorded(before, entry.0, entry.1),
            None => before,
        }
    }
}

/// The products that the first `n` cards of a storefront show.
pub open spec fn listed(
    platform: Platform,
    cards: Seq<CardView>,
    n: int,
    seller: Seq<char>,
    shop_name: Seq<char>,
) -> Seq<ProductView>
    decreases n,
{
    if n <= 0 {
        Seq::empty()
    } else {
        let before = listed(platform, cards, n - 1, seller, shop_name);
        match platform.spec_shop_product(cards[n - 1], seller, shop_name) {
            Some(product) => before.push(product),
            None => before,
        }
    }
}

/// How many of `count` cards are used under a limit.
pub open spec fn capped(count: nat, limit: usize) -> int {
    if count <= limit {
        count as int
    } else {
        limit as int
    }
}

/// The name under which a seller is reported: the name the seed page showed,
/// or else the seller's id.
pub open spec fn shop_title(seller: SellerView) -> Seq<char> {
    if seller.name.len() > 0 {
        seller.name
    } else {
        seller.id
    }
}

/// The name under which a seller is reported.
pub fn title_of(seller: &Seller) -> (r: String)
    ensures
        r@ == shop_title(seller@),
{
    if seller.name.as_str().unicode_len() > 0 {
        seller.name.clone()
    } else {
        seller.id.clone()
    }
}

/// Takes one more product of the seed page into the list of sellers.
pub fn record_seller(sellers: &mut Vec<Seller>, id: String, product: Product)
    ensures
        final(sellers).deep_view() == recorded(old(sellers).deep_view(), id@, product@),
{
    let ghost before = sellers.deep_view();
    let ghost idv = id@;
    let ghost pv = product@;
    let mut i: usize = 0;
    while i < sellers.len()
        invariant
            i <= sellers.len(),
            sellers.deep_view() == before,
            before == old(sellers).deep_view(),
            idv == id@,
            pv == product@,
            seller_position(before, idv, 0) == seller_position(before, idv, i as int),
        decreases sellers.len() - i,
    {
        assert(before[i as int] == sellers[i as int]@);
        if sellers[i].id == id {
            assert(seller_position(before, idv, i as int) == i);
            let ghost rest = sellers@;
            let found = sellers.remove(i);
            let name = if product.shop.as_str().unicode_len() > 0 {
                product.shop.clone()
            } else {
                found.name
            };
            let mut products = found.products;
            products.push(product);
            assert(products.deep_view() =~= before[i as int].products.push(pv));
            sellers.insert(i, Seller { id, name, products });
            assert(sellers@.len() == before.len());
            assert forall|j: int| 0 <= j < before.len() implies #[trigger] sellers.deep_view()[j]
                == recorded(before, idv, pv)[j] by {
                if j < i {
                    assert(sellers@[j] == rest[j]);
                    assert(before[j] == rest[j]@);
                } else if j > i {
                    assert(sellers@[j] == rest[j]);
                    assert(before[j] == rest[j]@);
                }
            }
            assert(sellers.deep_view() =~= recorded(before, idv, pv));
            return ;
        }
        i += 1;
    }
    assert(seller_position(before, idv, i as int) == -1);
    let ghost rest = sellers@;
    let name = product.shop.clone();
    let mut products: Vec<Product> = Vec::new();
    products.push(product);
    assert(products.deep_view() =~= seq![pv]);
    sellers.push(Seller { id, name, products });
    assert forall|j: int| 0 <= j < sellers@.len() implies #[trigger] sellers.deep_view()[j]
        == recorded(before, idv, pv)[j] by {
        if j < before.len() {
            assert(sellers@[j] == rest[j]);
            assert(before[j] == rest[j]@);
        }
    }
    assert(sellers.deep_view() =~= recorded(before, idv, pv));
}

/// The sellers that the first `n` cards of the seed page show, in the order
/// in which the cards show them.
pub fn index_cards(platform: Platform, cards: &Vec<Card>, n: usize) -> (sellers: Vec<Seller>)
    requires
        n <= cards.len(),
    ensures
        sellers.deep_view() == indexed(platform, cards.deep_view(), n as int),
{
    let mut sellers: Vec<Seller> = Vec::new();
    let mut i: usize = 0;
    assert(sellers.deep_view() =~= indexed(platform, cards.deep_view(), 0));
    while i < n
        invariant
            i <= n <= cards.len(),
            sellers.deep_view() == indexed(platform, cards.deep_view(), i as int),
        decreases n - i,
    {
        match platform.seed_entry(&cards[i]) {
            Some(entry) => {
                record_seller(&mut sellers, entry.0, entry.1);
            },
            None => {},
        }
        i += 1;
    }
    sellers
}

/// The products that the first `n` cards of a storefront show.
pub fn list_products(
    platform: Platform,
    cards: &Vec<Card>,
    n: usize,
    seller: &str,
    shop_name: &str,
) -> (products: Vec<Product>)
    requires
        n <= cards.len(),
    ensures
        products.deep_view() == listed(platform, cards.deep_view(), n as int, seller@, shop_name@),
{
    let mut products: Vec<Product> = Vec::new();
    let mut i: usize = 0;
    assert(products.deep_view() =~= listed(platform, cards.deep_view(), 0, seller@, shop_name@));
    while i < n
        invariant
            i <= n <= cards.len(),
            products.deep_view() == listed(
                platform,
                cards.deep_view(),
                i as int,
                seller@,
                shop_name@,
            ),
        decreases n - i,
    {
        let ghost before = products.deep_view();
        match platform.shop_product(&cards[i], seller, shop_name) {
            Some(product) => {
                products.push(product);
                assert(products.deep_view() =~= before.push(product@));
            },
            None => {},
        }
        i += 1;
    }
    products
}

/// The seller that a product link names on a marketplace given by name: on
/// Tokopedia the first path segment, where a further segment follows; on
/// Shopee always `shopee`.
pub open spec fn shop_slug(link: Seq<char>, platform: Seq<char>) -> Option<Seq<char>> {
    if platform == "tokopedia"@ {
        let marker = "https://www.tokopedia.com/"@;
        if has_substring(link, "tokopedia.com"@) && marker.is_prefix_of(link) {
            let rest = link.skip(marker.len() as int);
            let i = find_first(rest, "/"@);
            if i >= 0 {
                Some(rest.take(i))
            } else {
                None
            }
        } else {
            None
        }
    } else if platform == "shopee"@ {
        Some("shopee"@)
    } else {
        None
    }
}

/// The sellers of the first `n` products, by the seller that each link
/// names.
pub open spec fn grouped_sellers(products: Seq<ProductView>, platform: Seq<char>, n: int) -> Seq<
    SellerView,
>
    decreases n,
{
    if n <= 0 {
        Seq::empty()
    } else {
        let before = grouped_sellers(products, platform, n - 1);
        match shop_slug(products[n - 1].link, platform) {
            Some(id) => recorded(before, id, products[n - 1]),
            None => before,
        }
    }
}

/// The address of a seller on a marketplace given by name.
pub open spec fn slug_url(platform: Seq<char>, id: Seq<char>) -> Seq<char> {
    if platform == "shopee"@ {
        "https://shopee.co.id/"@ + id
    } else {
        "https://www.tokopedia.com/"@ + id
    }
}

/// One report per seller of the first result's products, each with all the
/// results as they are.
pub open spec fn grouped(results: Seq<QueryResultView>, platform: Seq<char>) -> Seq<
    ShopResultsView,
> {
    let sellers = if results.len() > 0 {
        grouped_sellers(results[0].products, platform, results[0].products.len() as int)
    } else {
        Seq::empty()
    };
    Seq::new(
        sellers.len(),
        |i: int|
            ShopResultsView {
                shop_name: shop_title(sellers[i]),
                shop_url: slug_url(platform, sellers[i].id),
                platform,
                results,
            },
    )
}

/// The seller that a product link names on a marketplace given by name.
pub fn extract_shop_slug(link: &str, platform: &str) -> (r: Option<String>)
    ensures
        opt_view(r) == shop_slug(link@, platform@),
{
    if same(platform, "tokopedia") {
        let marker = "https://www.tokopedia.com/";
        if contains(link, "tokopedia.com") && starts_with(link, marker) {
            let rest = tail(link, marker.unicode_len());
            match find(rest.as_str(), "/") {
                Some(i) => Some(head(rest.as_str(), i)),
                None => None,
            }
        } else {
            None
        }
    } else if same(platform, "shopee") {
        Some(String::from_str("shopee"))
    } else {
        None
    }
}

/// Groups the results of a list of keywords by seller: the sellers are those
/// that the products of the first result link to, in the order in which the
/// products name them, and every seller is reported with all the results.
pub fn group_products_by_shop(query_results: &Vec<QueryResult>, platform: &str) -> (r: Result<
    Vec<ShopResults>,
    String,
>)
    ensures
        r matches Ok(shops) && shops.deep_view() == grouped(query_results.deep_view(), platform@),
{
    let mut sellers: Vec<Seller> = Vec::new();
    if query_results.len() > 0 {
        let products = &query_results[0].products;
        assert(query_results.deep_view()[0].products == products.deep_view());
        let mut i: usize = 0;
        assert(sellers.deep_view() =~= grouped_sellers(products.deep_view(), platform@, 0));
        while i < products.len()
            invariant
                i <= products.len(),
                sellers.deep_view() == grouped_sellers(products.deep_view(), platform@, i as int),
            decreases products.len() - i,
        {
            assert(products.deep_view()[i as int] == products[i as int]@);
            match extract_shop_slug(products[i].link.as_str(), platform) {
                Some(id) => {
                    record_seller(&mut sellers, id, products[i].clone());
                },
                None => {},
            }
            i += 1;
        }
    } else {
        assert(sellers.deep_view() =~= Seq::empty());
    }
    let shopee = same(platform, "shopee");
    let mut shops: Vec<ShopResults> = Vec::new();
    let mut k: usize = 0;
    while k < sellers.len()
        invariant
            k <= sellers.len(),
            shops.len() == k,
            shopee == (platform@ == "shopee"@),
            forall|j: int|
                0 <= j < k ==> (#[trigger] shops[j])@ == (ShopResultsView {
                    shop_name: shop_title(sellers[j]@),
                    shop_url: slug_url(platform@, sellers[j]@.id),
                    platform: platform@,
                    results: query_results.deep_view(),
                }),
        decreases sellers.len() - k,
    {
        let seller = &sellers[k];
        let shop_url = if shopee {
            join2("https://shopee.co.id/", seller.id.as_str())
        } else {
            join2("https://www.tokopedia.com/", seller.id.as_str())
        };
        shops.push(
            ShopResults {
                shop_name: title_of(seller),
                shop_url,
                platform: String::from_str(platform),
                results: clone_results(query_results),
            },
        );
        k += 1;
    }
    assert(shops.deep_view() =~= grouped(query_results.deep_view(), platform@));
    Ok(shops)
}

/// No two sellers of a list have the same id.
pub open spec fn distinct_ids(sellers: Seq<SellerView>) -> bool {
    forall|i: int, j: int|
        0 <= i < j < sellers.len() ==> (#[trigger] sellers[i]).id != (#[trigger] sellers[j]).id
}

/// `seller_position` finds the first seller with the id, and -1 only where
/// no seller has it.
pub proof fn lemma_seller_position(sellers: Seq<SellerView>, id: Seq<char>, i: int)
    requires
        0 <= i,
    ensures
        seller_position(sellers, id, i) == -1 || i <= seller_position(sellers, id, i)
            < sellers.len(),
        seller_position(sellers, id, i) >= 0 ==> sellers[seller_position(sellers, id, i)].id == id,
        forall|j: int|
            i <= j < sellers.len() && (seller_position(sellers, id, i) == -1 || j
                < seller_position(sellers, id, i)) ==> (#[trigger] sellers[j]).id != id,
    decreases sellers.len() - i,
{
    if i < sellers.len() && sellers[i].id != id {
        lemma_seller_position(sellers, id, i + 1);
    }
}

/// Recording a product keeps the ids distinct and the sellers in their
/// order: a seller that was there stays where it was.
pub proof fn lemma_recorded_distinct(sellers: Seq<SellerView>, id: Seq<char>, product: ProductView)
    requires
        distinct_ids(sellers),
    ensures
        distinct_ids(recorded(sellers, id, product)),
        sellers.len() <= recorded(sellers, id, product).len(),
        forall|i: int|
            0 <= i < sellers.len() ==> (#[trigger] recorded(sellers, id, product)[i]).id
                == sellers[i].id,
{
    lemma_seller_position(sellers, id, 0);
}

/// The sellers found on the seed page have distinct ids.
pub proof fn lemma_indexed_distinct(platform: Platform, cards: Seq<CardView>, n: int)
    ensures
        distinct_ids(indexed(platform, cards, n)),
    decreases n,
{
    if n > 0 {
        lemma_indexed_distinct(platform, cards, n - 1);
        match platform.spec_seed_entry(cards[n - 1]) {
            Some(entry) => {
                lemma_recorded_distinct(indexed(platform, cards, n - 1), entry.0, entry.1);
            },
            None => {},
        }
    }
}

/// How many products the sellers hold together.
pub open spec fn product_count(sellers: Seq<SellerView>) -> nat
    decreases sellers.len(),
{
    if sellers.len() == 0 {
        0
    } else {
        product_count(sellers.drop_last()) + sellers.last().products.len()
    }
}

/// A seller that joins the list adds its products to the count.
pub proof fn lemma_count_push(sellers: Seq<SellerView>, seller: SellerView)
    ensures
        product_count(sellers.push(seller)) == product_count(sellers) + seller.products.len(),
{
    assert(sellers.push(seller).drop_last() =~= sellers);
}

/// A seller that takes the place of another changes the count by the
/// difference of their products.
pub proof fn lemma_count_update(sellers: Seq<SellerView>, i: int, seller: SellerView)
    requires
        0 <= i < sellers.len(),
    ensures
        product_count(sellers.update(i, seller)) + sellers[i].products.len() == product_count(
            sellers,
        ) + seller.products.len(),
    decreases sellers.len(),
{
    let updated = sellers.update(i, seller);
    if i == sellers.len() - 1 {
        assert(updated.drop_last() =~= sellers.drop_last());
    } else {
        assert(updated.drop_last() =~= sellers.drop_last().update(i, seller));
        lemma_count_update(sellers.drop_last(), i, seller);
    }
}

/// Recording a product adds one to the count.
pub proof fn lemma_recorded_count(sellers: Seq<SellerView>, id: Seq<char>, product: ProductView)
    ensures
        product_count(recorded(sellers, id, product)) == product_count(sellers) + 1,
{
    lemma_seller_position(sellers, id, 0);
    let at = seller_position(sellers, id, 0);
    if at >= 0 {
        lemma_count_update(sellers, at, recorded(sellers, id, product)[at]);
    } else {
        lemma_count_push(sellers, SellerView { id, name: product.shop, products: seq![product] });
    }
}

/// The sellers of a seed page hold, together, at most one product per card
/// that was looked at.
pub proof fn lemma_indexed_count(platform: Platform, cards: Seq<CardView>, n: int)
    requires
        0 <= n,
    ensures
        product_count(indexed(platform, cards, n)) <= n,
    decreases n,
{
    if n > 0 {
        lemma_indexed_count(platform, cards, n - 1);
        match platform.spec_seed_entry(cards[n - 1]) {
            Some(entry) => {
                lemma_recorded_count(indexed(platform, cards, n - 1), entry.0, entry.1);
            },
            None => {},
        }
    }
}

/// Whether a seller with this id is among the sellers.
pub open spec fn has_seller(sellers: Seq<SellerView>, id: Seq<char>) -> bool {
    exists|j: int| 0 <= j < sellers.len() && (#[trigger] sellers[j]).id == id
}

/// Recording a product makes its seller one of the sellers and keeps the
/// others.
pub proof fn lemma_recorded_has(sellers: Seq<SellerView>, id: Seq<char>, product: ProductView)
    ensures
        has_seller(recorded(sellers, id, product), id),
        forall|other: Seq<char>|
            has_seller(sellers, other) ==> has_seller(recorded(sellers, id, product), other),
{
    lemma_seller_position(sellers, id, 0);
    let after = recorded(sellers, id, product);
    let at = seller_position(sellers, id, 0);
    if at >= 0 {
        assert(after[at].id == id);
    } else {
        assert(after[sellers.len() as int].id == id);
    }
    assert forall|other: Seq<char>| has_seller(sellers, other) implies has_seller(
        after,
        other,
    ) by {
        let j = choose|j: int| 0 <= j < sellers.len() && (#[trigger] sellers[j]).id == other;
        assert(after[j].id == other);
    }
}

/// Grouping reports every seller once: the sellers have distinct ids, the
/// seller that a product's link names is among them, and there are as many
/// reports as sellers.
pub proof fn lemma_grouped_sellers(products: Seq<ProductView>, platform: Seq<char>, n: int)
    ensures
        distinct_ids(grouped_sellers(products, platform, n)),
        forall|i: int|
            0 <= i < n && (#[trigger] shop_slug(products[i].link, platform)) is Some
                ==> has_seller(
                grouped_sellers(products, platform, n),
                shop_slug(products[i].link, platform)->0,
            ),
    decreases n,
{
    if n > 0 {
        let before = grouped_sellers(products, platform, n - 1);
        let after = grouped_sellers(products, platform, n);
        lemma_grouped_sellers(products, platform, n - 1);
        match shop_slug(products[n - 1].link, platform) {
            Some(id) => {
                lemma_recorded_distinct(before, id, products[n - 1]);
                lemma_recorded_has(before, id, products[n - 1]);
            },
            None => {},
        }
        assert forall|i: int|
            0 <= i < n && (#[trigger] shop_slug(products[i].link, platform)) is Some implies has_seller(
            after,
            shop_slug(products[i].link, platform)->0,
        ) by {
            if i < n - 1 {
                assert(has_seller(before, shop_slug(products[i].link, platform)->0));
            }
        }
    }
}

/// There are as many reports as sellers, in the sellers' order.
pub proof fn lemma_grouped_len(results: Seq<QueryResultView>, platform: Seq<char>)
    requires
        results.len() > 0,
    ensures
        grouped(results, platform).len() == grouped_sellers(
            results[0].products,
            platform,
            results[0].products.len() as int,
        ).len(),
        distinct_ids(
            grouped_sellers(results[0].products, platform, results[0].products.len() as int),
        ),
        forall|i: int|
            0 <= i < grouped(results, platform).len() ==> (#[trigger] grouped(
                results,
                platform,
            )[i]).results == results,
{
    lemma_grouped_sellers(results[0].products, platform, results[0].products.len() as int);
}

} // verus!
