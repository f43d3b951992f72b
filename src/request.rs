//! The product-data request that a create run sends.

use vstd::prelude::*;
use vstd::string::*;
use crate::discovery::{json_quote, json_text_of};
use crate::locator::ProductLocator;

verus! {

/// The query document of the request.
pub const PDP_QUERY: &'static str = "fragment ProductHighlight on pdpDataProductContent {\n  name\n  price {\n    value\n    currency\n    priceFmt\n    slashPriceFmt\n    discPercentage\n    __typename\n  }\n  campaign {\n    campaignID\n    campaignType\n    campaignTypeName\n    campaignIdentifier\n    background\n    percentageAmount\n    originalPrice\n    discountedPrice\n    originalStock\n    stock\n    stockSoldPercentage\n    threshold\n    startDate\n    endDate\n    endDateUnix\n    appLinks\n    isAppsOnly\n    isActive\n    hideGimmick\n    showStockBar\n    __typename\n  }\n  thematicCampaign {\n    additionalInfo\n    background\n    campaignName\n    icon\n    __typename\n  }\n  stock {\n    useStock\n    value\n    stockWording\n    __typename\n  }\n  variant {\n    isVariant\n    parentID\n    __typename\n  }\n  wholesale {\n    minQty\n    price {\n      value\n      currency\n      __typename\n    }\n    __typename\n  }\n  isCashback {\n    percentage\n    __typename\n  }\n  isTradeIn\n  isOS\n  isPowerMerchant\n  isWishlist\n  isCOD\n  preorder {\n    duration\n    timeUnit\n    isActive\n    preorderInDays\n    __typename\n  }\n  __typename\n}\n\nquery PDPGetLayoutQuery($shopDomain: String, $productKey: String, $layoutID: String, $apiVersion: Float, $userLocation: pdpUserLocation, $extParam: String, $tokonow: pdpTokoNow, $deviceID: String) {\n  pdpGetLayout(shopDomain: $shopDomain, productKey: $productKey, layoutID: $layoutID, apiVersion: $apiVersion, userLocation: $userLocation, extParam: $extParam, tokonow: $tokonow, deviceID: $deviceID) {\n    name\n    components {\n      name\n      type\n      position\n      data {\n        ...ProductHighlight\n        __typename\n      }\n      __typename\n    }\n    __typename\n  }\n}";

/// The JSON body of the request, from the JSON texts of the query and of the
/// two coordinates.
pub open spec fn request_text(query_json: Seq<char>, product_key_json: Seq<char>, shop_domain_json: Seq<char>) -> Seq<char> {
    "{\"operationName\":\"PDPGetLayoutQuery\",\"query\":"@ + query_json
        + ",\"variables\":{\"apiVersion\":1,\"productKey\":"@ + product_key_json
        + ",\"shopDomain\":"@ + shop_domain_json + "}}"@
}

/// The JSON body of the request for the product at `locator`.
pub open spec fn request_body_of(locator: (Seq<char>, Seq<char>)) -> Seq<char> {
    request_text(json_text_of(PDP_QUERY@), json_text_of(locator.1), json_text_of(locator.0))
}

/// The product page address sent as the request's referer.
pub open spec fn referer_of(locator: (Seq<char>, Seq<char>)) -> Seq<char> {
    "https://www.tokopedia.com/"@ + locator.0 + "/"@ + locator.1
}

/// Assembles the request body from the JSON texts of the query and of the two
/// coordinates.
pub fn request_text_from(query_json: &str, product_key_json: &str, shop_domain_json: &str) -> (r:
    String)
    ensures
        r@ == request_text(query_json@, product_key_json@, shop_domain_json@),
{
    let mut r = String::from_str("{\"operationName\":\"PDPGetLayoutQuery\",\"query\":");
    r.append(query_json);
    r.append(",\"variables\":{\"apiVersion\":1,\"productKey\":");
    r.append(product_key_json);
    r.append(",\"shopDomain\":");
    r.append(shop_domain_json);
    r.append("}}");
    r
}

/// The JSON body of the request for the product at `locator`.
pub fn request_body(locator: &ProductLocator) -> (r: String)
    ensures
        r@ == request_body_of(locator@),
{
    request_text_from(
        json_quote(PDP_QUERY).as_str(),
        json_quote(locator.product_key.as_str()).as_str(),
        json_quote(locator.shop_domain.as_str()).as_str(),
    )
}

/// The product page address sent as the request's referer.
pub fn referer(locator: &ProductLocator) -> (r: String)
    ensures
        r@ == referer_of(locator@),
{
    let mut r = String::from_str("https://www.tokopedia.com/");
    r.append(locator.shop_domain.as_str());
    r.append("/");
    r.append(locator.product_key.as_str());
    r
}

} // verus!
