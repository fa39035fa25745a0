//! The records that a scrape produces.

use vstd::prelude::*;

verus! {

/// One product as a result page lists it.
#[derive(Debug, PartialEq, Eq)]
pub struct Product {
    pub name: String,
    pub price: String,
    pub shop: String,
    pub location: String,
    pub photo: String,
    pub link: String,
}

/// The products found for one keyword, in the order of the page.
#[derive(Debug, PartialEq, Eq)]
pub struct QueryResult {
    pub query: String,
    pub products: Vec<Product>,
}

/// Everything found at one seller: one `QueryResult` per keyword.
#[derive(Debug, PartialEq, Eq)]
pub struct ShopResults {
    pub shop_name: String,
    pub shop_url: String,
    pub platform: String,
    pub results: Vec<QueryResult>,
}

/// The mathematical value of a `Product`.
pub struct ProductView {
    pub name: Seq<char>,
    pub price: Seq<char>,
    pub shop: Seq<char>,
    pub location: Seq<char>,
    pub photo: Seq<char>,
    pub link: Seq<char>,
}

/// The mathematical value of a `QueryResult`.
pub struct QueryResultView {
    pub query: Seq<char>,
    pub products: Seq<ProductView>,
}

/// The mathematical value of a `ShopResults`.
pub struct ShopResultsView {
    pub shop_name: Seq<char>,
    pub shop_url: Seq<char>,
    pub platform: Seq<char>,
    pub results: Seq<QueryResultView>,
}

impl View for Product {
    type V = ProductView;

    open spec fn view(&self) -> ProductView {
        ProductView {
            name: self.name@,
            price: self.price@,
            shop: self.shop@,
            location: self.location@,
            photo: self.photo@,
            link: self.link@,
        }
    }
}

impl DeepView for Product {
    type V = ProductView;

    open spec fn deep_view(&self) -> ProductView {
        self@
    }
}

impl View for QueryResult {
    type V = QueryResultView;

    open spec fn view(&self) -> QueryResultView {
        QueryResultView { query: self.query@, products: self.products.deep_view() }
    }
}

impl DeepView for QueryResult {
    type V = QueryResultView;

    open spec fn deep_view(&self) -> QueryResultView {
        self@
    }
}

impl View for ShopResults {
    type V = ShopResultsView;

    open spec fn view(&self) -> ShopResultsView {
        ShopResultsView {
            shop_name: self.shop_name@,
            shop_url: self.shop_url@,
            platform: self.platform@,
            results: self.results.deep_view(),
        }
    }
}

impl DeepView for ShopResults {
    type V = ShopResultsView;

    open spec fn deep_view(&self) -> ShopResultsView {
        self@
    }
}

impl Clone for Product {
    fn clone(&self) -> (r: Self)
        ensures
            r@ == self@,
    {
        Product {
            name: self.name.clone(),
            price: self.price.clone(),
            shop: self.shop.clone(),
            location: self.location.clone(),
            photo: self.photo.clone(),
            link: self.link.clone(),
        }
    }
}

/// A copy of a list of products.
pub fn clone_products(products: &Vec<Product>) -> (r: Vec<Product>)
    ensures
        r.deep_view() == products.deep_view(),
{
    let mut r: Vec<Product> = Vec::new();
    let mut i: usize = 0;
    while i < products.len()
        invariant
            i <= products.len(),
            r.len() == i,
            forall|j: int| 0 <= j < i ==> r[j]@ == products[j]@,
        decreases products.len() - i,
    {
        r.push(products[i].clone());
        i += 1;
    }
    assert(r.deep_view() =~= products.deep_view());
    r
}

impl Clone for QueryResult {
    fn clone(&self) -> (r: Self)
        ensures
            r@ == self@,
    {
        QueryResult { query: self.query.clone(), products: clone_products(&self.products) }
    }
}

/// A copy of a list of per-keyword results.
pub fn clone_results(results: &Vec<QueryResult>) -> (r: Vec<QueryResult>)
    ensures
        r.deep_view() == results.deep_view(),
{
    let mut r: Vec<QueryResult> = Vec::new();
    let mut i: usize = 0;
    while i < results.len()
        invariant
            i <= results.len(),
            r.len() == i,
            forall|j: int| 0 <= j < i ==> r[j]@ == results[j]@,
        decreases results.len() - i,
    {
        r.push(results[i].clone());
        i += 1;
    }
    assert(r.deep_view() =~= results.deep_view());
    r
}

impl Clone for ShopResults {
    fn clone(&self) -> (r: Self)
        ensures
            r@ == self@,
    {
        ShopResults {
            shop_name: self.shop_name.clone(),
            shop_url: self.shop_url.clone(),
            platform: self.platform.clone(),
            results: clone_results(&self.results),
        }
    }
}

/// A copy of a list of seller reports.
pub fn clone_shops(shops: &Vec<ShopResults>) -> (r: Vec<ShopResults>)
    ensures
        r.deep_view() == shops.deep_view(),
{
    let mut r: Vec<ShopResults> = Vec::new();
    let mut i: usize = 0;
    while i < shops.len()
        invariant
            i <= shops.len(),
            r.len() == i,
            forall|j: int| 0 <= j < i ==> r[j]@ == shops[j]@,
        decreases shops.len() - i,
    {
        r.push(shops[i].clone());
        i += 1;
    }
    assert(r.deep_view() =~= shops.deep_view());
    r
}

} // verus!
