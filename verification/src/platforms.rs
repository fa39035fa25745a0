//! What is particular to each marketplace: its addresses, the queries that
//! find its page elements, the seller that a product link names, and the
//! product that a result card stands for.

pub use crate::scraper::{ShopeeScraper, TokopediaScraper};

use vstd::prelude::*;
use crate::models::{Product, ProductView};
use crate::text::{
    contains,
    find,
    find_first,
    find_last,
    has_substring,
    head,
    join2,
    join3,
    opt_view,
    rfind,
    starts_with,
    tail,
    trim,
    trimmed,
};

verus! {

/// A marketplace that can be scraped.
#[derive(Clone, Copy, Debug, PartialEq, Eq, Structural)]
pub enum Platform {
    Tokopedia,
    Shopee,
}

/// The bytes that a URL may hold as they are: letters, digits and `-._~`.
pub open spec fn is_unreserved(b: u8) -> bool {
    ||| 0x30 <= b <= 0x39
    ||| 0x41 <= b <= 0x5A
    ||| 0x61 <= b <= 0x7A
    ||| b == 0x2D
    ||| b == 0x2E
    ||| b == 0x5F
    ||| b == 0x7E
}

/// The upper-case hexadecimal digit for a value below 16.
pub open spec fn hex_digit(d: u8) -> char {
    if d < 10 {
        ((0x30 + d) as u8) as char
    } else {
        ((0x41 + d - 10) as u8) as char
    }
}

/// One byte as a URL holds it: itself, or `%` and two hexadecimal digits.
pub open spec fn encoded_byte(b: u8) -> Seq<char> {
    if is_unreserved(b) {
        seq![b as char]
    } else {
        seq!['%', hex_digit(b / 16), hex_digit(b % 16)]
    }
}

/// A sequence of bytes, percent-encoded byte by byte.
pub open spec fn percent_encoded(bytes: Seq<u8>) -> Seq<char>
    decreases bytes.len(),
{
    if bytes.len() == 0 {
        Seq::empty()
    } else {
        encoded_byte(bytes[0]) + percent_encoded(bytes.drop_first())
    }
}

/// A string as a URL component: its UTF-8 bytes, percent-encoded.
pub open spec fn url_component(s: Seq<char>) -> Seq<char> {
    percent_encoded(vstd::utf8::encode_utf8(s))
}

/// Calls `urlencoding::encode`. Trusted: the result is the UTF-8 encoding of
/// the argument with every byte but letters, digits and `-._~` replaced by
/// `%` and its two upper-case hexadecimal digits.
#[verifier::external_body]
fn url_encode(s: &str) -> (r: String)
    ensures
        r@ == url_component(s@),
{
    urlencoding::encode(s).into_owned()
}

/// What a result page shows of one product card. A field is `None` where the
/// page has no such element.
#[derive(Debug, PartialEq, Eq)]
pub struct Card {
    /// The card's link target, as the page gives it.
    pub link: Option<String>,
    /// The texts of the card's title elements, in page order.
    pub titles: Vec<String>,
    pub price: Option<String>,
    pub shop: Option<String>,
    pub location: Option<String>,
    pub photo: Option<String>,
}

/// The mathematical value of a `Card`.
pub struct CardView {
    pub link: Option<Seq<char>>,
    pub titles: Seq<Seq<char>>,
    pub price: Option<Seq<char>>,
    pub shop: Option<Seq<char>>,
    pub location: Option<Seq<char>>,
    pub photo: Option<Seq<char>>,
}

impl View for Card {
    type V = CardView;

    open spec fn view(&self) -> CardView {
        CardView {
            link: opt_view(self.link),
            titles: self.titles.deep_view(),
            price: opt_view(self.price),
            shop: opt_view(self.shop),
            location: opt_view(self.location),
            photo: opt_view(self.photo),
        }
    }
}

impl DeepView for Card {
    type V = CardView;

    open spec fn deep_view(&self) -> CardView {
        self@
    }
}

/// A missing text counts as the empty text.
pub open spec fn text_or_empty(o: Option<Seq<char>>) -> Seq<char> {
    match o {
        Some(s) => s,
        None => Seq::empty(),
    }
}

/// How many title elements of a card are looked at.
pub open spec fn title_cap() -> int {
    20
}

/// The first text of `titles` at or after `i`, and before the cap, that is
/// not empty; the empty text if there is none.
pub open spec fn first_title_from(titles: Seq<Seq<char>>, i: int) -> Seq<char>
    decreases titles.len() - i,
{
    if i < 0 || i >= titles.len() || i >= title_cap() {
        Seq::empty()
    } else if titles[i].len() > 0 {
        titles[i]
    } else {
        first_title_from(titles, i + 1)
    }
}

/// The name of the product on a card: its first title text that is not empty.
pub open spec fn card_name(titles: Seq<Seq<char>>) -> Seq<char> {
    first_title_from(titles, 0)
}

/// A Tokopedia link as an absolute address.
pub open spec fn tokopedia_absolute(link: Seq<char>) -> Seq<char> {
    if "//"@.is_prefix_of(link) {
        "https:"@ + link
    } else if "/"@.is_prefix_of(link) {
        "https://www.tokopedia.com"@ + link
    } else {
        link
    }
}

/// The seller that a Tokopedia product address names: its first path
/// segment, where it is not empty and a further segment follows.
pub open spec fn tokopedia_seller(link: Seq<char>) -> Option<Seq<char>> {
    let marker = "https://www.tokopedia.com/"@;
    if marker.is_prefix_of(link) {
        let rest = link.skip(marker.len() as int);
        let i = find_first(rest, "/"@);
        if i > 0 {
            Some(rest.take(i))
        } else {
            None
        }
    } else {
        None
    }
}

/// The seller that a Shopee product address names: in the path, what stands
/// between the last `-i.` and the next `.`; `0` where the address has no
/// such part.
pub open spec fn shopee_seller(link: Seq<char>) -> Seq<char> {
    let marker = "https://shopee.co.id/"@;
    if marker.is_prefix_of(link) {
        let rest = link.skip(marker.len() as int);
        let q = find_first(rest, "?"@);
        let path = if q >= 0 {
            rest.take(q)
        } else {
            rest
        };
        let m = find_last(path, "-i."@);
        if m >= 0 {
            let ids = path.skip(m + "-i."@.len());
            let d = find_first(ids, "."@);
            if d >= 0 {
                ids.take(d)
            } else {
                "0"@
            }
        } else {
            "0"@
        }
    } else {
        "0"@
    }
}

/// Whether a Shopee link leads to a product: a path of the site that is no
/// "similar products" page.
pub open spec fn shopee_product_link(link: Seq<char>) -> bool {
    "/"@.is_prefix_of(link) && !has_substring(link, "find_similar_products"@)
}

/// A card that shows neither a name nor a price is noise.
pub open spec fn is_noise(name: Seq<char>, price: Seq<char>) -> bool {
    name.len() == 0 && price.len() == 0
}

/// The text of a field that may be missing.
pub fn field_text(o: &Option<String>) -> (r: String)
    ensures
        r@ == text_or_empty(opt_view(*o)),
{
    match o {
        Some(s) => s.clone(),
        None => String::new(),
    }
}

/// The name of the product on a card.
pub fn name_of(titles: &Vec<String>) -> (r: String)
    ensures
        r@ == card_name(titles.deep_view()),
{
    let mut i: usize = 0;
    while i < titles.len() && i < 20
        invariant
            i <= titles.len(),
            i <= 20,
            card_name(titles.deep_view()) == first_title_from(titles.deep_view(), i as int),
        decreases titles.len() - i,
    {
        if titles[i].as_str().unicode_len() > 0 {
            return titles[i].clone();
        }
        i += 1;
    }
    String::new()
}

/// A Tokopedia link as an absolute address.
pub fn absolute_tokopedia_link(link: &str) -> (r: String)
    ensures
        r@ == tokopedia_absolute(link@),
{
    if starts_with(link, "//") {
        join2("https:", link)
    } else if starts_with(link, "/") {
        join2("https://www.tokopedia.com", link)
    } else {
        String::from_str(link)
    }
}

/// The seller that a Tokopedia product address names.
pub fn seller_of_tokopedia_link(link: &str) -> (r: Option<String>)
    ensures
        opt_view(r) == tokopedia_seller(link@),
{
    let marker = "https://www.tokopedia.com/";
    if !starts_with(link, marker) {
        return None;
    }
    let rest = tail(link, marker.unicode_len());
    match find(rest.as_str(), "/") {
        Some(i) => {
            if i > 0 {
                proof {
                    crate::text::lemma_find_first(rest@, "/"@);
                }
                Some(head(rest.as_str(), i))
            } else {
                None
            }
        },
        None => None,
    }
}

/// The seller that a Shopee product address names.
pub fn seller_of_shopee_link(link: &str) -> (r: String)
    ensures
        r@ == shopee_seller(link@),
{
    let marker = "https://shopee.co.id/";
    if !starts_with(link, marker) {
        return String::from_str("0");
    }
    let rest = tail(link, marker.unicode_len());
    proof {
        crate::text::lemma_find_first(rest@, "?"@);
    }
    let path = match find(rest.as_str(), "?") {
        Some(q) => head(rest.as_str(), q),
        None => rest,
    };
    match rfind(path.as_str(), "-i.") {
        Some(m) => {
            proof {
                crate::text::lemma_find_back(path@, "-i."@, path@.len() - "-i."@.len());
            }
            let n = path.as_str().unicode_len();
            let k = "-i.".unicode_len();
            assert(m + k <= n);
            let ids = tail(path.as_str(), m + k);
            proof {
                crate::text::lemma_find_first(ids@, "."@);
            }
            match find(ids.as_str(), ".") {
                Some(d) => head(ids.as_str(), d),
                None => String::from_str("0"),
            }
        },
        None => String::from_str("0"),
    }
}

/// Whether a Shopee link leads to a product.
pub fn is_shopee_product_link(link: &str) -> (b: bool)
    ensures
        b == shopee_product_link(link@),
{
    starts_with(link, "/") && !contains(link, "find_similar_products")
}

impl Platform {
    /// The name under which results of this marketplace are reported.
    pub open spec fn spec_name(self) -> Seq<char> {
        match self {
            Platform::Tokopedia => "tokopedia"@,
            Platform::Shopee => "shopee"@,
        }
    }

    /// The address of the marketplace, without a closing slash.
    pub open spec fn spec_origin(self) -> Seq<char> {
        match self {
            Platform::Tokopedia => "https://www.tokopedia.com"@,
            Platform::Shopee => "https://shopee.co.id"@,
        }
    }

    /// The address of the home page.
    pub open spec fn spec_home_url(self) -> Seq<char> {
        self.spec_origin() + "/"@
    }

    /// The address of the result page for a keyword.
    pub open spec fn spec_search_url(self, query: Seq<char>) -> Seq<char> {
        match self {
            Platform::Tokopedia => "https://www.tokopedia.com/search?q="@ + url_component(query),
            Platform::Shopee => "https://shopee.co.id/search?keyword="@ + url_component(query),
        }
    }

    /// The address of a seller's storefront.
    pub open spec fn spec_shop_url(self, seller: Seq<char>) -> Seq<char> {
        match self {
            Platform::Tokopedia => "https://www.tokopedia.com/"@ + seller,
            Platform::Shopee => "https://shopee.co.id/?shop="@ + seller,
        }
    }

    /// The address that lists what a seller offers for a keyword.
    pub open spec fn spec_shop_search_url(
        self,
        seller: Seq<char>,
        shop_name: Seq<char>,
        query: Seq<char>,
    ) -> Seq<char> {
        match self {
            Platform::Tokopedia => "https://www.tokopedia.com/"@ + seller + "/product?q="@
                + url_component(query) + "&srp_page_title="@ + url_component(shop_name)
                + "&navsource=shop&srp_component_id=02.01.00.00"@,
            Platform::Shopee => "https://shopee.co.id/search?keyword="@ + url_component(query)
                + "&shop="@ + seller,
        }
    }

    /// The name under which results of this marketplace are reported.
    pub fn name(self) -> (r: String)
        ensures
            r@ == self.spec_name(),
    {
        match self {
            Platform::Tokopedia => String::from_str("tokopedia"),
            Platform::Shopee => String::from_str("shopee"),
        }
    }

    /// The address of the marketplace, without a closing slash.
    pub fn origin(self) -> (r: String)
        ensures
            r@ == self.spec_origin(),
    {
        match self {
            Platform::Tokopedia => String::from_str("https://www.tokopedia.com"),
            Platform::Shopee => String::from_str("https://shopee.co.id"),
        }
    }

    /// The address of the home page.
    pub fn home_url(self) -> (r: String)
        ensures
            r@ == self.spec_home_url(),
    {
        let mut r = self.origin();
        r.append("/");
        r
    }

    /// The address of the result page for a keyword.
    pub fn search_url(self, query: &str) -> (r: String)
        ensures
            r@ == self.spec_search_url(query@),
    {
        let q = url_encode(query);
        match self {
            Platform::Tokopedia => join2("https://www.tokopedia.com/search?q=", q.as_str()),
            Platform::Shopee => join2("https://shopee.co.id/search?keyword=", q.as_str()),
        }
    }

    /// The address of a seller's storefront.
    pub fn shop_url(self, seller: &str) -> (r: String)
        ensures
            r@ == self.spec_shop_url(seller@),
    {
        match self {
            Platform::Tokopedia => join2("https://www.tokopedia.com/", seller),
            Platform::Shopee => join2("https://shopee.co.id/?shop=", seller),
        }
    }

    /// The address that lists what a seller offers for a keyword.
    pub fn shop_search_url(self, seller: &str, shop_name: &str, query: &str) -> (r: String)
        ensures
            r@ == self.spec_shop_search_url(seller@, shop_name@, query@),
    {
        let q = url_encode(query);
        match self {
            Platform::Tokopedia => {
                let title = url_encode(shop_name);
                let mut r = join3("https://www.tokopedia.com/", seller, "/product?q=");
                r.append(q.as_str());
                r.append("&srp_page_title=");
                r.append(title.as_str());
                r.append("&navsource=shop&srp_component_id=02.01.00.00");
                r
            },
            Platform::Shopee => {
                let mut r = join3("https://shopee.co.id/search?keyword=", q.as_str(), "&shop=");
                r.append(seller);
                r
            },
        }
    }
}

impl Platform {
    /// The product that a card of the seed page stands for, with the seller
    /// that its link names; `None` where the card is no product of a seller.
    pub open spec fn spec_seed_entry(self, card: CardView) -> Option<(Seq<char>, ProductView)> {
        let href = text_or_empty(card.link);
        let name = card_name(card.titles);
        match self {
            Platform::Tokopedia => {
                let link = tokopedia_absolute(href);
                let price = text_or_empty(card.price);
                if has_substring(href, "/product?perpage="@) || is_noise(name, price) {
                    None
                } else {
                    match tokopedia_seller(link) {
                        Some(seller) => Some(
                            (
                                seller,
                                ProductView {
                                    name,
                                    price,
                                    shop: text_or_empty(card.shop),
                                    location: text_or_empty(card.location),
                                    photo: text_or_empty(card.photo),
                                    link,
                                },
                            ),
                        ),
                        None => None,
                    }
                }
            },
            Platform::Shopee => {
                let link = "https://shopee.co.id"@ + href;
                let seller = shopee_seller(link);
                if !shopee_product_link(href) || card.price is None || is_noise(
                    name,
                    card.price->0,
                ) || seller.len() == 0 {
                    None
                } else {
                    Some(
                        (
                            seller,
                            ProductView {
                                name,
                                price: "Rp"@ + card.price->0,
                                shop: seller,
                                location: text_or_empty(card.location),
                                photo: text_or_empty(card.photo),
                                link,
                            },
                        ),
                    )
                }
            },
        }
    }

    /// The product that a card of a seller's storefront stands for; `None`
    /// where the card is no product.
    pub open spec fn spec_shop_product(
        self,
        card: CardView,
        seller: Seq<char>,
        shop_name: Seq<char>,
    ) -> Option<ProductView> {
        let href = text_or_empty(card.link);
        let name = card_name(card.titles);
        match self {
            Platform::Tokopedia => {
                let price = text_or_empty(card.price);
                if ("/"@ + seller + "/product?perpage"@).is_prefix_of(href) || is_noise(
                    name,
                    price,
                ) {
                    None
                } else {
                    Some(
                        ProductView {
                            name,
                            price,
                            shop: shop_name,
                            location: text_or_empty(card.location),
                            photo: text_or_empty(card.photo),
                            link: tokopedia_absolute(href),
                        },
                    )
                }
            },
            Platform::Shopee => {
                if !shopee_product_link(href) || card.price is None || is_noise(
                    name,
                    card.price->0,
                ) {
                    None
                } else {
                    Some(
                        ProductView {
                            name,
                            price: "Rp"@ + card.price->0,
                            shop: seller,
                            location: text_or_empty(card.location),
                            photo: text_or_empty(card.photo),
                            link: "https://shopee.co.id"@ + href,
                        },
                    )
                }
            },
        }
    }

    /// The product that a card of the seed page stands for, with the seller
    /// that its link names.
    pub fn seed_entry(self, card: &Card) -> (r: Option<(String, Product)>)
        ensures
            r is Some == self.spec_seed_entry(card@) is Some,
            r matches Some(e) ==> self.spec_seed_entry(card@) == Some((e.0@, e.1@)),
    {
        let href = field_text(&card.link);
        let name = name_of(&card.titles);
        match self {
            Platform::Tokopedia => {
                let price = field_text(&card.price);
                if contains(href.as_str(), "/product?perpage=") || (name.as_str().unicode_len()
                    == 0 && price.as_str().unicode_len() == 0) {
                    return None;
                }
                let link = absolute_tokopedia_link(href.as_str());
                match seller_of_tokopedia_link(link.as_str()) {
                    Some(seller) => Some(
                        (
                            seller,
                            Product {
                                name,
                                price,
                                shop: field_text(&card.shop),
                                location: field_text(&card.location),
                                photo: field_text(&card.photo),
                                link,
                            },
                        ),
                    ),
                    None => None,
                }
            },
            Platform::Shopee => {
                if !is_shopee_product_link(href.as_str()) {
                    return None;
                }
                let raw_price = match &card.price {
                    Some(p) => p.clone(),
                    None => { return None; },
                };
                if name.as_str().unicode_len() == 0 && raw_price.as_str().unicode_len() == 0 {
                    return None;
                }
                let link = join2("https://shopee.co.id", href.as_str());
                let seller = seller_of_shopee_link(link.as_str());
                if seller.as_str().unicode_len() == 0 {
                    return None;
                }
                Some(
                    (
                        seller.clone(),
                        Product {
                            name,
                            price: join2("Rp", raw_price.as_str()),
                            shop: seller,
                            location: field_text(&card.location),
                            photo: field_text(&card.photo),
                            link,
                        },
                    ),
                )
            },
        }
    }

    /// The product that a card of a seller's storefront stands for.
    pub fn shop_product(self, card: &Card, seller: &str, shop_name: &str) -> (r: Option<Product>)
        ensures
            r is Some == self.spec_shop_product(card@, seller@, shop_name@) is Some,
            r matches Some(p) ==> self.spec_shop_product(card@, seller@, shop_name@) == Some(p@),
    {
        let href = field_text(&card.link);
        let name = name_of(&card.titles);
        match self {
            Platform::Tokopedia => {
                let price = field_text(&card.price);
                let listing = join3("/", seller, "/product?perpage");
                if starts_with(href.as_str(), listing.as_str()) || (name.as_str().unicode_len()
                    == 0 && price.as_str().unicode_len() == 0) {
                    return None;
                }
                Some(
                    Product {
                        name,
                        price,
                        shop: String::from_str(shop_name),
                        location: field_text(&card.location),
                        photo: field_text(&card.photo),
                        link: absolute_tokopedia_link(href.as_str()),
                    },
                )
            },
            Platform::Shopee => {
                if !is_shopee_product_link(href.as_str()) {
                    return None;
                }
                let raw_price = match &card.price {
                    Some(p) => p.clone(),
                    None => { return None; },
                };
                if name.as_str().unicode_len() == 0 && raw_price.as_str().unicode_len() == 0 {
                    return None;
                }
                Some(
                    Product {
                        name,
                        price: join2("Rp", raw_price.as_str()),
                        shop: String::from_str(seller),
                        location: field_text(&card.location),
                        photo: field_text(&card.photo),
                        link: join2("https://shopee.co.id", href.as_str()),
                    },
                )
            },
        }
    }
}

/// The two kinds of page that list products.
#[derive(Clone, Copy, Debug, PartialEq, Eq, Structural)]
pub enum Page {
    /// The marketplace's result page for a keyword.
    Seed,
    /// A seller's own listing.
    Storefront,
}

impl Platform {
    /// The query that finds the search box.
    pub open spec fn spec_search_box(self) -> Seq<char> {
        match self {
            Platform::Tokopedia => r#"input[data-unify="Search"][type="search"]"#@,
            Platform::Shopee => r#"input[type=\"text\"][class*=\"shopee-search-input__input\"]"#@,
        }
    }

    /// The query that finds the product cards of a page.
    pub open spec fn spec_card_query(self, page: Page) -> Seq<char> {
        match (self, page) {
            (Platform::Tokopedia, Page::Seed) => r#"div[data-ssr="contentProductsSRPSSR"] a"#@,
            (Platform::Tokopedia, Page::Storefront) => r#"[data-ssr="shopSSR"] > div:nth-child(2) a[data-theme="default"]"#@,
            (Platform::Shopee, Page::Seed) => ".shopee-search-item-result__item a"@,
            (Platform::Shopee, Page::Storefront) => ".shopee-search-item-result__item"@,
        }
    }

    /// The queries of which one matches once a storefront has listed its
    /// products, or has said that it has none.
    pub open spec fn spec_listing_marks(self) -> Seq<Seq<char>> {
        match self {
            Platform::Tokopedia => seq![
                r#"img[alt="product-image"]"#@,
                r#"div[class="unf-emptystate-img"]"#@,
            ],
            Platform::Shopee => seq![".shopee-search-item-result__item"@],
        }
    }

    /// The query that finds the search box.
    pub fn search_box(self) -> (r: String)
        ensures
            r@ == self.spec_search_box(),
    {
        match self {
            Platform::Tokopedia => String::from_str(r#"input[data-unify="Search"][type="search"]"#),
            Platform::Shopee => String::from_str(
                r#"input[type=\"text\"][class*=\"shopee-search-input__input\"]"#,
            ),
        }
    }

    /// The query that finds the product cards of a page.
    pub fn card_query(self, page: Page) -> (r: String)
        ensures
            r@ == self.spec_card_query(page),
    {
        match (self, page) {
            (Platform::Tokopedia, Page::Seed) => String::from_str(
                r#"div[data-ssr="contentProductsSRPSSR"] a"#,
            ),
            (Platform::Tokopedia, Page::Storefront) => String::from_str(
                r#"[data-ssr="shopSSR"] > div:nth-child(2) a[data-theme="default"]"#,
            ),
            (Platform::Shopee, Page::Seed) => String::from_str(".shopee-search-item-result__item a"),
            (Platform::Shopee, Page::Storefront) => String::from_str(
                ".shopee-search-item-result__item",
            ),
        }
    }

    /// The queries of which one matches once a storefront has listed its
    /// products, or has said that it has none.
    pub fn listing_marks(self) -> (r: Vec<String>)
        ensures
            r.deep_view() == self.spec_listing_marks(),
    {
        let mut r: Vec<String> = Vec::new();
        match self {
            Platform::Tokopedia => {
                r.push(String::from_str(r#"img[alt="product-image"]"#));
                r.push(String::from_str(r#"div[class="unf-emptystate-img"]"#));
            },
            Platform::Shopee => {
                r.push(String::from_str(".shopee-search-item-result__item"));
            },
        }
        assert(r.deep_view() =~= self.spec_listing_marks());
        r
    }
}

/// The query that finds the heading with the seller's name on a Tokopedia
/// storefront.
pub open spec fn shop_heading() -> Seq<char> {
    r#"h1[data-testid="shopNameHeader"]"#@
}

/// The queries that read the fields of a card, each relative to the card.
/// Where a field has several queries, the first that finds an element
/// counts.
#[derive(Debug, PartialEq, Eq)]
pub struct FieldQueries {
    /// Finds the element that carries the link; `None` where the card itself
    /// carries it.
    pub link: Option<String>,
    /// Finds the title elements.
    pub titles: String,
    pub price: Vec<String>,
    /// `None` where the cards show no shop.
    pub shop: Option<String>,
    pub location: String,
    pub photo: Vec<String>,
}

/// The mathematical value of a `FieldQueries`.
pub struct FieldQueriesView {
    pub link: Option<Seq<char>>,
    pub titles: Seq<char>,
    pub price: Seq<Seq<char>>,
    pub shop: Option<Seq<char>>,
    pub location: Seq<char>,
    pub photo: Seq<Seq<char>>,
}

impl View for FieldQueries {
    type V = FieldQueriesView;

    open spec fn view(&self) -> FieldQueriesView {
        FieldQueriesView {
            link: opt_view(self.link),
            titles: self.titles@,
            price: self.price.deep_view(),
            shop: opt_view(self.shop),
            location: self.location@,
            photo: self.photo.deep_view(),
        }
    }
}

impl Platform {
    /// The queries that read the fields of a card on a page of this
    /// marketplace.
    pub open spec fn spec_field_queries(self, page: Page) -> FieldQueriesView {
        match self {
            Platform::Tokopedia => FieldQueriesView {
                link: None,
                titles: "div:nth-child(1) > div:nth-child(2) > div:nth-child(1) span"@,
                price: seq!["div > div:nth-child(2) > div:nth-child(2)"@],
                shop: match page {
                    Page::Seed => Some("span.flip"@),
                    Page::Storefront => None,
                },
                location: "div > div:nth-child(2) > div:nth-child(3) span:nth-child(2)"@,
                photo: seq![r#"img[alt="product-image"]"#@],
            },
            Platform::Shopee => FieldQueriesView {
                link: match page {
                    Page::Seed => None,
                    Page::Storefront => Some("a.contents"@),
                },
                titles: ".line-clamp-2.break-words"@,
                price: seq![
                    r#"[data-testid="a11y-label"] + div .truncate.text-base\/5.font-medium"#@,
                    r#".text-shopee-primary .truncate.text-base\/5.font-medium"#@,
                    r#".flex-shrink.min-w-0.mr-1.truncate.text-shopee-primary .truncate.text-base\/5.font-medium"#@,
                ],
                shop: None,
                location: ".text-shopee-black54.font-extralight.text-sp10 .align-middle"@,
                photo: seq!["img.w-full"@, "img"@],
            },
        }
    }

    /// The queries that read the fields of a card on a page of this
    /// marketplace.
    pub fn field_queries(self, page: Page) -> (r: FieldQueries)
        ensures
            r@ == self.spec_field_queries(page),
    {
        let mut price: Vec<String> = Vec::new();
        let mut photo: Vec<String> = Vec::new();
        match self {
            Platform::Tokopedia => {
                price.push(String::from_str("div > div:nth-child(2) > div:nth-child(2)"));
                photo.push(String::from_str(r#"img[alt="product-image"]"#));
                assert(price.deep_view() =~= self.spec_field_queries(page).price);
                assert(photo.deep_view() =~= self.spec_field_queries(page).photo);
                FieldQueries {
                    link: None,
                    titles: String::from_str(
                        "div:nth-child(1) > div:nth-child(2) > div:nth-child(1) span",
                    ),
                    price,
                    shop: match page {
                        Page::Seed => Some(String::from_str("span.flip")),
                        Page::Storefront => None,
                    },
                    location: String::from_str(
                        "div > div:nth-child(2) > div:nth-child(3) span:nth-child(2)",
                    ),
                    photo,
                }
            },
            Platform::Shopee => {
                price.push(
                    String::from_str(
                        r#"[data-testid="a11y-label"] + div .truncate.text-base\/5.font-medium"#,
                    ),
                );
                price.push(
                    String::from_str(r#".text-shopee-primary .truncate.text-base\/5.font-medium"#),
                );
                price.push(
                    String::from_str(
                        r#".flex-shrink.min-w-0.mr-1.truncate.text-shopee-primary .truncate.text-base\/5.font-medium"#,
                    ),
                );
                photo.push(String::from_str("img.w-full"));
                photo.push(String::from_str("img"));
                assert(price.deep_view() =~= self.spec_field_queries(page).price);
                assert(photo.deep_view() =~= self.spec_field_queries(page).photo);
                FieldQueries {
                    link: match page {
                        Page::Seed => None,
                        Page::Storefront => Some(String::from_str("a.contents")),
                    },
                    titles: String::from_str(".line-clamp-2.break-words"),
                    price,
                    shop: None,
                    location: String::from_str(
                        ".text-shopee-black54.font-extralight.text-sp10 .align-middle",
                    ),
                    photo,
                }
            },
        }
    }
}

/// A text in lower case, as the standard library turns it.
pub uninterp spec fn lowercased(s: Seq<char>) -> Seq<char>;

/// Calls `str::to_lowercase`. Trusted: the result depends on the text
/// alone; it is given the name `lowercased`.
#[verifier::external_body]
fn to_lower(s: &str) -> (r: String)
    ensures
        r@ == lowercased(s@),
{
    s.to_lowercase()
}

/// Whether a text beside a shop's link can be the shop's name, given the
/// text in lower case: it is not blank, and says nothing of when the shop
/// was active or of a chat.
pub open spec fn names_shop(text: Seq<char>, lowered: Seq<char>) -> bool {
    &&& trimmed(text).len() > 0
    &&& !has_substring(lowered, "aktif"@)
    &&& !has_substring(lowered, "chat"@)
}

/// The first text at or after `i` that can be a shop's name, or the empty
/// text.
pub open spec fn first_shop_name(texts: Seq<Seq<char>>, i: int) -> Seq<char>
    decreases texts.len() - i,
{
    if i < 0 || i >= texts.len() {
        Seq::empty()
    } else if names_shop(texts[i], lowercased(texts[i])) {
        texts[i]
    } else {
        first_shop_name(texts, i + 1)
    }
}

/// The shop's name among the texts beside its link: the first text if it is
/// not empty, else the first that can be a name.
pub open spec fn shop_name_among(texts: Seq<Seq<char>>) -> Seq<char> {
    if texts.len() > 0 && texts[0].len() > 0 {
        texts[0]
    } else {
        first_shop_name(texts, 0)
    }
}

/// A shop's link on Shopee as an absolute address; no link gives the empty
/// text.
pub open spec fn shopee_shop_url(link: Option<Seq<char>>) -> Seq<char> {
    match link {
        None => Seq::empty(),
        Some(href) => if "/"@.is_prefix_of(href) {
            "https://shopee.co.id"@ + href
        } else if "http"@.is_prefix_of(href) {
            href
        } else {
            "https://shopee.co.id/"@ + href
        },
    }
}

/// Whether a text beside a shop's link can be the shop's name, given the
/// text in lower case.
pub fn is_shop_name(text: &str, lowered: &str) -> (b: bool)
    ensures
        b == names_shop(text@, lowered@),
{
    let stripped = trim(text);
    stripped.as_str().unicode_len() > 0 && !contains(lowered, "aktif") && !contains(
        lowered,
        "chat",
    )
}

/// The shop's name among the texts beside its link.
pub fn pick_shop_name(texts: &Vec<String>) -> (r: String)
    ensures
        r@ == shop_name_among(texts.deep_view()),
{
    if texts.len() > 0 && texts[0].as_str().unicode_len() > 0 {
        return texts[0].clone();
    }
    let mut i: usize = 0;
    while i < texts.len()
        invariant
            i <= texts.len(),
            texts.len() == 0 || texts.deep_view()[0].len() == 0,
            first_shop_name(texts.deep_view(), 0) == first_shop_name(texts.deep_view(), i as int),
        decreases texts.len() - i,
    {
        let lowered = to_lower(texts[i].as_str());
        if is_shop_name(texts[i].as_str(), lowered.as_str()) {
            return texts[i].clone();
        }
        i += 1;
    }
    String::new()
}

/// A shop's link on Shopee as an absolute address.
pub fn shop_link(link: &Option<String>) -> (r: String)
    ensures
        r@ == shopee_shop_url(opt_view(*link)),
{
    match link {
        None => String::new(),
        Some(href) => {
            if starts_with(href.as_str(), "/") {
                join2("https://shopee.co.id", href.as_str())
            } else if starts_with(href.as_str(), "http") {
                href.clone()
            } else {
                join2("https://shopee.co.id/", href.as_str())
            }
        },
    }
}

/// The query that finds the heading with the seller's name on a Tokopedia
/// storefront.
pub fn heading_query() -> (r: String)
    ensures
        r@ == shop_heading(),
{
    String::from_str(r#"h1[data-testid="shopNameHeader"]"#)
}

} // verus!
