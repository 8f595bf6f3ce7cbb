use namecheap_client::{
    PricingRequest, PricingResult, ProductCategoryPricing, ProductPricing, ProductTypePricing,
};

fn get<'a>(params: &'a [(String, String)], key: &str) -> Option<&'a str> {
    params
        .iter()
        .find(|(k, _)| k == key)
        .map(|(_, v)| v.as_str())
}

#[test]
fn pricing_request_builds_params() {
    let params = PricingRequest::domains()
        .action("REGISTER")
        .tld("com")
        .to_params();
    assert_eq!(get(&params, "ProductType"), Some("DOMAIN"));
    assert_eq!(get(&params, "ProductCategory"), Some("DOMAINS"));
    assert_eq!(get(&params, "ActionName"), Some("REGISTER"));
    assert_eq!(get(&params, "ProductName"), Some("com"));
}

#[test]
fn pricing_request_for_other_products_sends_only_what_is_set() {
    let params = PricingRequest::new("SSLCERTIFICATE").to_params();
    assert_eq!(params, vec![("ProductType".to_string(), "SSLCERTIFICATE".to_string())]);

    let params = PricingRequest::new("WHOISGUARD")
        .category("whoisguard")
        .promotion_code("SAVE10")
        .to_params();
    let keys: Vec<&str> = params.iter().map(|(k, _)| k.as_str()).collect();
    assert_eq!(keys, vec!["ProductType", "ProductCategory", "PromotionCode"]);
    assert_eq!(get(&params, "PromotionCode"), Some("SAVE10"));
}

fn product(name: &str, prices: Vec<u32>) -> ProductPricing<u32> {
    ProductPricing { name: name.to_string(), prices }
}

#[test]
fn prices_flatten_in_document_order() {
    let result = PricingResult { product_types: vec![
        ProductTypePricing {
            name: "domains".to_string(),
            categories: vec![
                ProductCategoryPricing {
                    name: "register".to_string(),
                    products: vec![product("com", vec![1, 2]), product("net", vec![])],
                },
                ProductCategoryPricing {
                    name: "renew".to_string(),
                    products: vec![product("com", vec![3])],
                },
            ],
        },
        ProductTypePricing {
            name: "ssl".to_string(),
            categories: vec![ProductCategoryPricing {
                name: "purchase".to_string(),
                products: vec![product("basic", vec![4, 5])],
            }],
        },
    ] };
    let prices: Vec<u32> = result.prices().into_iter().copied().collect();
    assert_eq!(prices, vec![1, 2, 3, 4, 5]);

    let empty: PricingResult<u32> = PricingResult { product_types: Vec::new() };
    assert!(empty.prices().is_empty());
}
