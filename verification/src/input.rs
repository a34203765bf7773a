//! What the checkout hands in: the cart, its fulfillment groups and the
//! locations orders can be picked up at.
//!
//! The decision reads the cart's attribute, whether the cart has lines, and
//! the locations' handles. The models below hold exactly that; everything
//! else is carried along unread.

use vstd::prelude::*;

verus! {

/// The annotation a storefront puts on a cart to ask for pickup.
#[derive(Clone, Debug, PartialEq, Eq)]
pub struct Attribute {
    pub value: Option<String>,
}

/// The product a variant belongs to.
#[derive(Clone, Debug, PartialEq, Eq)]
pub struct Product {
    pub id: String,
    pub title: String,
}

/// What a cart line sells.
#[derive(Clone, Debug, PartialEq, Eq)]
pub enum Merchandise {
    ProductVariant { id: String, product: Product },
    CustomProduct,
}

/// One line of a cart. Its model is its id.
#[derive(Clone, Debug, PartialEq, Eq)]
pub struct CartLine {
    pub id: String,
    pub quantity: i32,
    pub merchandise: Merchandise,
}

impl View for CartLine {
    type V = Seq<char>;

    open spec fn view(&self) -> Seq<char> {
        self.id@
    }
}

/// A cart as it stands when the delivery options are worked out.
#[derive(Clone, Debug, PartialEq, Eq)]
pub struct CartSnapshot {
    pub attribute: Option<Attribute>,
    pub lines: Vec<CartLine>,
}

/// The model of a [`CartSnapshot`]: the attribute's value, where the cart
/// has the attribute and the attribute has a value, and the ids of the lines
/// in their order.
pub struct CartSnapshotView {
    pub attribute: Option<Seq<char>>,
    pub lines: Seq<Seq<char>>,
}

/// The ids of `lines`, in their order.
pub open spec fn line_ids(lines: Seq<CartLine>) -> Seq<Seq<char>> {
    lines.map_values(|line: CartLine| line@)
}

impl View for CartSnapshot {
    type V = CartSnapshotView;

    open spec fn view(&self) -> CartSnapshotView {
        CartSnapshotView {
            attribute: match self.attribute {
                Some(attribute) => attribute.value.deep_view(),
                None => None,
            },
            lines: line_ids(self.lines@),
        }
    }
}

/// A postal address, as the merchant entered it.
#[derive(Clone, Debug, PartialEq, Eq)]
pub struct Address {
    pub address1: Option<String>,
    pub address2: Option<String>,
    pub city: Option<String>,
    pub province_code: Option<String>,
    pub country_code: Option<String>,
    pub zip: Option<String>,
}

/// A place with stock that a buyer can come to. Its model is its handle.
#[derive(Clone, Debug, PartialEq, Eq)]
pub struct Location {
    pub handle: String,
    pub name: String,
    pub address: Address,
}

impl View for Location {
    type V = Seq<char>;

    open spec fn view(&self) -> Seq<char> {
        self.handle@
    }
}

/// The handles of `locations`, in their order.
pub open spec fn handles(locations: Seq<Location>) -> Seq<Seq<char>> {
    locations.map_values(|location: Location| location@)
}

/// Cart lines that are fulfilled together.
#[derive(Clone, Debug, PartialEq, Eq)]
pub struct FulfillmentGroup {
    pub handle: String,
    pub line_ids: Vec<String>,
    pub delivery_group_id: String,
    pub inventory_location_handles: Vec<String>,
}

/// Everything known about one cart.
#[derive(Clone, Debug, PartialEq, Eq)]
pub struct FunctionInput {
    pub cart: CartSnapshot,
    pub fulfillment_groups: Vec<FulfillmentGroup>,
    pub locations: Vec<Location>,
    /// The value of the metafield the merchant configured the generator
    /// with, if any.
    pub configuration: Option<String>,
}

/// The model of a [`FunctionInput`]: the cart, and the handles of the
/// locations in the order the checkout lists them.
pub struct FunctionInputView {
    pub cart: CartSnapshotView,
    pub locations: Seq<Seq<char>>,
}

impl View for FunctionInput {
    type V = FunctionInputView;

    open spec fn view(&self) -> FunctionInputView {
        FunctionInputView {
            cart: self.cart@,
            locations: handles(self.locations@),
        }
    }
}

} // verus!
