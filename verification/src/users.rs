//! The `namecheap.users` command namespace: product pricing requests.
use vstd::prelude::*;

use crate::params::{optional_param, push_optional, push_param};

verus! {

/// A request for `namecheap.users.getPricing`.
///
/// For domain prices, start from [`PricingRequest::domains`] and narrow with
/// [`action`](Self::action) and [`tld`](Self::tld).
#[derive(Debug, Clone)]
pub struct PricingRequest {
    /// The product type (`"DOMAIN"`, `"SSLCERTIFICATE"`, or `"WHOISGUARD"`).
    pub product_type: String,
    /// The product category (for domains this is `"DOMAINS"`).
    pub product_category: Option<String>,
    /// The action to price (`"REGISTER"`, `"RENEW"`, `"TRANSFER"`,
    /// `"REACTIVATE"`). When omitted, all actions are returned.
    pub action_name: Option<String>,
    /// The specific product, for example a TLD like `"com"`. When omitted,
    /// all products are returned.
    pub product_name: Option<String>,
    /// An optional promotion code to apply.
    pub promotion_code: Option<String>,
}

/// The parameters of `namecheap.users.getPricing`: `ProductType`, then each
/// optional field that is set.
pub open spec fn pricing_params(r: PricingRequest) -> Seq<(Seq<char>, Seq<char>)> {
    seq![("ProductType"@, r.product_type@)] + optional_param(
        "ProductCategory"@,
        r.product_category,
    ) + optional_param("ActionName"@, r.action_name) + optional_param(
        "ProductName"@,
        r.product_name,
    ) + optional_param("PromotionCode"@, r.promotion_code)
}

impl PricingRequest {
    /// A request for domain pricing (`ProductType=DOMAIN`,
    /// `ProductCategory=DOMAINS`).
    pub fn domains() -> (res: Self)
        ensures
            res.product_type@ == "DOMAIN"@,
            res.product_category matches Some(c) && c@ == "DOMAINS"@,
            res.action_name is None,
            res.product_name is None,
            res.promotion_code is None,
    {
        PricingRequest {
            product_type: String::from_str("DOMAIN"),
            product_category: Some(String::from_str("DOMAINS")),
            action_name: None,
            product_name: None,
            promotion_code: None,
        }
    }

    /// A request for an arbitrary product type.
    pub fn new(product_type: &str) -> (res: Self)
        ensures
            res.product_type@ == product_type@,
            res.product_category is None,
            res.action_name is None,
            res.product_name is None,
            res.promotion_code is None,
    {
        PricingRequest {
            product_type: String::from_str(product_type),
            product_category: None,
            action_name: None,
            product_name: None,
            promotion_code: None,
        }
    }

    /// Narrows to a single action (`"REGISTER"`, `"RENEW"`, ...).
    pub fn action(self, action: &str) -> (res: Self)
        ensures
            res.action_name matches Some(a) && a@ == action@,
            res == (PricingRequest { action_name: res.action_name, ..self }),
    {
        let mut r = self;
        r.action_name = Some(String::from_str(action));
        r
    }

    /// Narrows to a single TLD or product (for example `"com"`).
    pub fn tld(self, tld: &str) -> (res: Self)
        ensures
            res.product_name matches Some(p) && p@ == tld@,
            res == (PricingRequest { product_name: res.product_name, ..self }),
    {
        let mut r = self;
        r.product_name = Some(String::from_str(tld));
        r
    }

    /// Sets the product category explicitly.
    pub fn category(self, category: &str) -> (res: Self)
        ensures
            res.product_category matches Some(c) && c@ == category@,
            res == (PricingRequest { product_category: res.product_category, ..self }),
    {
        let mut r = self;
        r.product_category = Some(String::from_str(category));
        r
    }

    /// Applies a promotion code.
    pub fn promotion_code(self, code: &str) -> (res: Self)
        ensures
            res.promotion_code matches Some(c) && c@ == code@,
            res == (PricingRequest { promotion_code: res.promotion_code, ..self }),
    {
        let mut r = self;
        r.promotion_code = Some(String::from_str(code));
        r
    }

    /// The parameters of `namecheap.users.getPricing` for this request.
    pub fn to_params(&self) -> (res: Vec<(String, String)>)
        ensures
            res.deep_view() == pricing_params(*self),
    {
        let mut params: Vec<(String, String)> = Vec::new();
        push_param(&mut params, String::from_str("ProductType"), self.product_type.clone());
        push_optional(&mut params, String::from_str("ProductCategory"), &self.product_category);
        push_optional(&mut params, String::from_str("ActionName"), &self.action_name);
        push_optional(&mut params, String::from_str("ProductName"), &self.product_name);
        push_optional(&mut params, String::from_str("PromotionCode"), &self.promotion_code);
        assert(params.deep_view() =~= pricing_params(*self));
        params
    }
}

/// Pricing returned by `namecheap.users.getPricing`, nested as product type,
/// category, product and price entries. `P` is the type of one price entry.
#[derive(Debug, Clone)]
pub struct PricingResult<P> {
    /// The product types in the response (for a narrowed domain query,
    /// usually just one).
    pub product_types: Vec<ProductTypePricing<P>>,
}

/// Pricing grouped under a product type (for example `"domains"`).
#[derive(Debug, Clone)]
pub struct ProductTypePricing<P> {
    /// The product type name.
    pub name: String,
    /// The categories under this product type.
    pub categories: Vec<ProductCategoryPricing<P>>,
}

/// Pricing grouped under a category (for example `"register"`).
#[derive(Debug, Clone)]
pub struct ProductCategoryPricing<P> {
    /// The category name.
    pub name: String,
    /// The products under this category.
    pub products: Vec<ProductPricing<P>>,
}

/// Pricing for a single product (for domains, a TLD such as `"com"`).
#[derive(Debug, Clone)]
pub struct ProductPricing<P> {
    /// The product name (a TLD, for domain pricing).
    pub name: String,
    /// The price for each available duration.
    pub prices: Vec<P>,
}

/// The price entries of a sequence of products, in order.
pub open spec fn product_prices<P>(products: Seq<ProductPricing<P>>) -> Seq<P>
    decreases products.len(),
{
    if products.len() == 0 {
        Seq::empty()
    } else {
        product_prices(products.drop_last()) + products.last().prices@
    }
}

/// The price entries of a sequence of categories, in order.
pub open spec fn category_prices<P>(categories: Seq<ProductCategoryPricing<P>>) -> Seq<P>
    decreases categories.len(),
{
    if categories.len() == 0 {
        Seq::empty()
    } else {
        category_prices(categories.drop_last()) + product_prices(categories.last().products@)
    }
}

/// The price entries of a sequence of product types, in order.
pub open spec fn type_prices<P>(types: Seq<ProductTypePricing<P>>) -> Seq<P>
    decreases types.len(),
{
    if types.len() == 0 {
        Seq::empty()
    } else {
        type_prices(types.drop_last()) + category_prices(types.last().categories@)
    }
}

/// The entries of `refs`, dereferenced.
pub open spec fn derefs<P>(refs: Seq<&P>) -> Seq<P> {
    refs.map_values(|r: &P| *r)
}

fn push_product_prices<'a, P>(out: &mut Vec<&'a P>, products: &'a Vec<ProductPricing<P>>)
    ensures
        derefs(final(out)@) == derefs(old(out)@) + product_prices(products@),
{
    let mut i: usize = 0;
    while i < products.len()
        invariant
            i <= products.len(),
            derefs(out@) == derefs(old(out)@) + product_prices(products@.take(i as int)),
        decreases products.len() - i,
    {
        let ghost before = derefs(out@);
        let prices = &products[i].prices;
        let mut j: usize = 0;
        while j < prices.len()
            invariant
                j <= prices.len(),
                derefs(out@) == before + prices@.take(j as int),
            decreases prices.len() - j,
        {
            let ghost prev = out@;
            let item = &prices[j];
            out.push(item);
            assert(out@ == prev.push(item));
            assert(derefs(out@) =~= derefs(prev).push(prices@[j as int]));
            assert(derefs(out@) =~= before + prices@.take(j + 1));
            j = j + 1;
        }
        assert(prices@.take(prices.len() as int) =~= prices@);
        assert(products@.take(i + 1).drop_last() =~= products@.take(i as int));
        i = i + 1;
    }
    assert(products@.take(products.len() as int) =~= products@);
}

fn push_category_prices<'a, P>(out: &mut Vec<&'a P>, categories: &'a Vec<ProductCategoryPricing<P>>)
    ensures
        derefs(final(out)@) == derefs(old(out)@) + category_prices(categories@),
{
    let mut i: usize = 0;
    while i < categories.len()
        invariant
            i <= categories.len(),
            derefs(out@) == derefs(old(out)@) + category_prices(categories@.take(i as int)),
        decreases categories.len() - i,
    {
        push_product_prices(out, &categories[i].products);
        assert(categories@.take(i + 1).drop_last() =~= categories@.take(i as int));
        i = i + 1;
    }
    assert(categories@.take(categories.len() as int) =~= categories@);
}

impl<P> PricingResult<P> {
    /// Flattens the nested response into the individual price entries, in
    /// document order: one entry per available duration once the request is
    /// narrowed to one TLD and action.
    pub fn prices(&self) -> (res: Vec<&P>)
        ensures
            derefs(res@) == type_prices(self.product_types@),
    {
        let mut out: Vec<&P> = Vec::new();
        assert(derefs(out@) =~= Seq::<P>::empty());
        let mut i: usize = 0;
        while i < self.product_types.len()
            invariant
                i <= self.product_types.len(),
                derefs(out@) == type_prices(self.product_types@.take(i as int)),
            decreases self.product_types.len() - i,
        {
            push_category_prices(&mut out, &self.product_types[i].categories);
            assert(self.product_types@.take(i + 1).drop_last() =~= self.product_types@.take(
                i as int,
            ));
            i = i + 1;
        }
        assert(self.product_types@.take(self.product_types.len() as int) =~= self.product_types@);
        out
    }
}

} // verus!
