//! The GraphQL documents.
//!
//! These are cut down from what the website sends. The site asks for everything
//! its React tree might render -- ad slots, roundel artwork, health star
//! ratings -- and its `ProductSearch` document alone is about five kilobytes.
//! Asking only for the fields this crate returns keeps the requests small and,
//! more usefully, means a field the site adds or renames somewhere else cannot
//! break a query here.
//!
//! Operation names are kept exactly as the site spells them. They travel in the
//! `wnzx-operation-name` header and the `op-name` query parameter as well as
//! the document, and there is no reason to look like a different client.
use vstd::prelude::*;

use crate::text::{cat, eq_str};

verus! {

/// One product page, however it was selected.
///
/// The ways to select products -- keyword, category, specials and buy-again --
/// are all fields of one `CompositeSearchInput`, so the site uses a single
/// document for search, browse, specials and "buy it again". This does the
/// same; the caller builds the variables.
pub const PRODUCT_SEARCH: &'static str = r#"
query ProductSearch($searchInput: CompositeSearchInput!) {
  My {
    products(searchInput: $searchInput) {
      totalCount
      totalPages
      results {
        __typename
        ... on ProductSummary { ...ProductFields }
        ... on SponsoredProduct { ...SponsoredFields }
      }
    }
  }
}

fragment ProductFields on ProductSummary {
  sku
  productName
  brand
  slug
  imageUrl
  storeKey
  variants { ...VariantFields }
  categoryHierarchyNames { lvl0 lvl1 lvl2 }
}

fragment SponsoredFields on SponsoredProduct {
  sku
  productName
  brand
  slug
  imageUrl
  storeKey
  variants { ...VariantFields }
  categoryHierarchyNames { lvl0 lvl1 lvl2 }
}

fragment VariantFields on VariantSummary {
  variantKey
  unitOfMeasure
  availabilityStatus
  variantPrice {
    sellingPrice
    wasPrice
    cupPrice
    cupUnit
    isSpecial
    isClubPrice
  }
}
"#;

/// The whole department tree, for turning a department name into the key
/// `byCategoryKey` wants.
pub const CATEGORIES: &'static str = r#"
query GetAllCategories($categoryKey: String) {
  My {
    categories(categoryKey: $categoryKey) {
      ...CategoryFields
      children {
        ...CategoryFields
        children { ...CategoryFields }
      }
    }
  }
}

fragment CategoryFields on Category {
  key
  name
  slug
  displaySlug
  level
  displayOrder
}
"#;

/// Stores, by name or near a coordinate.
pub const LOCATIONS: &'static str = r#"
query SearchLocations($input: LocationsInput!) {
  locations(input: $input) {
    locations {
      id
      name
      storeId
      distance
      address {
        lines { line1 line2 line3 line4 line5 }
        locality { suburb city state postcode country }
      }
    }
  }
}
"#;

pub const CART: &'static str = r#"
query CustomerCart {
  customerCart { ...CartFields }
}
"#;

/// Set one or more line quantities. Zero removes a line, which is how the site
/// does it too.
pub const SET_QUANTITY: &'static str = r#"
mutation SetCartLineItemQuantity($input: SetCartLineItemQuantitiesInput!) {
  setCartLineItemQuantity(input: $input) { ...CartFields }
}
"#;

pub const CLEAR_CART: &'static str = r#"
mutation ClearCart {
  clearCart { ...CartFields }
}
"#;

/// Shared by every operation that answers with a cart, so a mutation renders
/// the same way a read does. The reads and the writes all answer with
/// `CustomerCart`, which is what lets one fragment cover all three.
pub const CART_FIELDS: &'static str = r#"
fragment CartFields on CustomerCart {
  key
  totalItemQuantity
  totalUniqueProductSku
  checkout { amountToPayAsCents chargeableTotalAsCents loyaltySpendAsCents }
  pricing {
    orderSubtotal { afterDiscountAsCents discountAmountAsCents }
    productSubtotal { afterDiscountAsCents discountAmountAsCents }
  }
  validationResult {
    isValid
    failedValidations { ruleName message affectedSkus title }
  }
  lineItems {
    sku
    productVariantSku
    quantity
    canSubstitute
    lineTotal { afterDiscountAsCents discountAmountAsCents }
    unitPrice { afterDiscountAsCents }
    product {
      brand
      slug
      variants { ... on GroceryVariant { name key } ... on RegulatedVariant { name key } }
    }
  }
  shoppingMode {
    pickupLocation { id name }
  }
  fulfilment {
    propositionId
    fulfilmentProposition { id storeId method name store { storeId name } }
  }
}
"#;

/// Choose the store to shop against.
///
/// A cart mutation rather than a preference: on this site the store is a
/// property of the cart's fulfilment, and it is what the pricing in a search
/// response is keyed to. It works for a guest as well as an account.
pub const SET_SHOPPING_MODE: &'static str = r#"
mutation SetCartShoppingMode($setCartShoppingModeInput: SetCartShoppingModeInput!) {
  setCartShoppingMode(input: $setCartShoppingModeInput) {
    fulfilment {
      propositionId
      fulfilmentProposition { id storeId method store { storeId name } }
    }
    shoppingMode { pickupLocation { id name } }
    validationResult { isValid failedValidations { message title } }
  }
}
"#;

/// Past orders, newest first.
pub const ORDERS: &'static str = r#"
query Orders($input: OrdersInput!) {
  orders(input: $input) {
    totalCount
    totalPages
    pageSize
    currentPage
    results {
      orderNumber
      createdDateTime
      orderStatus
      fulfilmentStatus
      hasInvoice
      isAmendable
      total { afterDiscountInCents }
      fulfilments {
        method
        startTime
        endTime
        fulfilmentLocation { name }
        address { lines { line1 line2 line3 } }
      }
    }
  }
}
"#;

/// One order and what was in it.
///
/// Cut down hard from the site's own document, which also asks for the
/// customer's name, email and phone, and for each payment's card suffix. None
/// of that is needed to show an order, and asking for it would mean holding it.
pub const ORDER_DETAILS: &'static str = r#"
query OrderDetails($orderNumber: ID!) {
  order(orderNumber: $orderNumber) {
    orderNumber
    orderStatus
    createdDateTime
    isAmendable
    orderTotalInCents
    estimatedTotalInCents
    orderDiscountInCents
    orderSavingsInCents
    productSubtotal { beforeDiscountInCents afterDiscountInCents discountAmountInCents }
    fees { type tag amountInCents }
    fulfilments {
      method
      type
      kind
      startTime
      endTime
      fulfilmentLocation { name storeId }
      address { lines { line1 line2 line3 } }
    }
    lineItems {
      productId
      productKey
      skuId
      quantity
      allowSubstitutions
      totalPriceAsCents
      totalSavingAsCents
      unitPriceAfterDiscountAsCents
      product { name }
    }
  }
}
"#;

/// Every operation this crate can send.
pub const OPERATIONS: [&'static str; 9] = [
    "ProductSearch",
    "GetAllCategories",
    "SearchLocations",
    "CustomerCart",
    "SetCartLineItemQuantity",
    "ClearCart",
    "SetCartShoppingMode",
    "Orders",
    "OrderDetails",
];

/// A document plus every fragment it refers to.
///
/// GraphQL has no include directive, so a fragment shared between operations
/// has to be concatenated onto each one that uses it.
pub open spec fn document_of(operation: Seq<char>) -> Option<Seq<char>> {
    if operation == "CustomerCart"@ {
        Some(CART@ + CART_FIELDS@)
    } else if operation == "SetCartLineItemQuantity"@ {
        Some(SET_QUANTITY@ + CART_FIELDS@)
    } else if operation == "ClearCart"@ {
        Some(CLEAR_CART@ + CART_FIELDS@)
    } else if operation == "ProductSearch"@ {
        Some(PRODUCT_SEARCH@)
    } else if operation == "GetAllCategories"@ {
        Some(CATEGORIES@)
    } else if operation == "SearchLocations"@ {
        Some(LOCATIONS@)
    } else if operation == "SetCartShoppingMode"@ {
        Some(SET_SHOPPING_MODE@)
    } else if operation == "Orders"@ {
        Some(ORDERS@)
    } else if operation == "OrderDetails"@ {
        Some(ORDER_DETAILS@)
    } else {
        None
    }
}

pub fn document(operation: &str) -> (r: Option<String>)
    ensures
        r.deep_view() == document_of(operation@),
{
    if eq_str(operation, "CustomerCart") {
        Some(cat(CART, CART_FIELDS))
    } else if eq_str(operation, "SetCartLineItemQuantity") {
        Some(cat(SET_QUANTITY, CART_FIELDS))
    } else if eq_str(operation, "ClearCart") {
        Some(cat(CLEAR_CART, CART_FIELDS))
    } else if eq_str(operation, "ProductSearch") {
        Some(PRODUCT_SEARCH.to_owned())
    } else if eq_str(operation, "GetAllCategories") {
        Some(CATEGORIES.to_owned())
    } else if eq_str(operation, "SearchLocations") {
        Some(LOCATIONS.to_owned())
    } else if eq_str(operation, "SetCartShoppingMode") {
        Some(SET_SHOPPING_MODE.to_owned())
    } else if eq_str(operation, "Orders") {
        Some(ORDERS.to_owned())
    } else if eq_str(operation, "OrderDetails") {
        Some(ORDER_DETAILS.to_owned())
    } else {
        None
    }
}

} // verus!
