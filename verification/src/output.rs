//! What the decision hands back: the delivery options to add.

use vstd::prelude::*;

use crate::decimal::Decimal;

verus! {

/// Where an order is picked up, and what the buyer is told about it.
#[derive(Clone, Debug, PartialEq, Eq)]
pub struct PickupLocation {
    pub location_handle: String,
    pub pickup_instruction: Option<String>,
}

/// The model of a [`PickupLocation`].
pub struct PickupLocationView {
    pub location_handle: Seq<char>,
    pub pickup_instruction: Option<Seq<char>>,
}

impl View for PickupLocation {
    type V = PickupLocationView;

    open spec fn view(&self) -> PickupLocationView {
        PickupLocationView {
            location_handle: self.location_handle@,
            pickup_instruction: self.pickup_instruction.deep_view(),
        }
    }
}

/// One entry of an option's metafields payload.
#[derive(Clone, Debug, PartialEq, Eq)]
pub struct Metafield {
    pub key: String,
    pub value: String,
}

/// The model of a [`Metafield`].
pub struct MetafieldView {
    pub key: Seq<char>,
    pub value: Seq<char>,
}

impl View for Metafield {
    type V = MetafieldView;

    open spec fn view(&self) -> MetafieldView {
        MetafieldView { key: self.key@, value: self.value@ }
    }
}

/// A pickup option as the buyer sees it.
#[derive(Clone, Debug, PartialEq, Eq)]
pub struct LocalPickupDeliveryOption {
    pub title: Option<String>,
    pub cost: Option<Decimal>,
    pub pickup_location: PickupLocation,
    pub metafields: Option<Vec<Metafield>>,
}

/// The model of a [`LocalPickupDeliveryOption`]; the cost is in hundredths.
pub struct LocalPickupDeliveryOptionView {
    pub title: Option<Seq<char>>,
    pub cost: Option<int>,
    pub pickup_location: PickupLocationView,
    pub metafields: Option<Seq<MetafieldView>>,
}

impl View for LocalPickupDeliveryOption {
    type V = LocalPickupDeliveryOptionView;

    open spec fn view(&self) -> LocalPickupDeliveryOptionView {
        LocalPickupDeliveryOptionView {
            title: self.title.deep_view(),
            cost: match self.cost {
                Some(amount) => Some(amount@),
                None => None,
            },
            pickup_location: self.pickup_location@,
            metafields: match self.metafields {
                Some(entries) => Some(entries@.map_values(|entry: Metafield| entry@)),
                None => None,
            },
        }
    }
}

/// An instruction to the checkout: add this option to those on offer.
#[derive(Clone, Debug, PartialEq, Eq)]
pub struct Operation {
    pub add: LocalPickupDeliveryOption,
}

/// The model of an [`Operation`].
pub struct OperationView {
    pub add: LocalPickupDeliveryOptionView,
}

impl View for Operation {
    type V = OperationView;

    open spec fn view(&self) -> OperationView {
        OperationView { add: self.add@ }
    }
}

/// The whole answer for one cart: the operations, in order.
#[derive(Clone, Debug, PartialEq, Eq)]
pub struct FunctionRunResult {
    pub operations: Vec<Operation>,
}

/// The model of a [`FunctionRunResult`].
pub struct FunctionRunResultView {
    pub operations: Seq<OperationView>,
}

impl View for FunctionRunResult {
    type V = FunctionRunResultView;

    open spec fn view(&self) -> FunctionRunResultView {
        FunctionRunResultView {
            operations: self.operations@.map_values(|operation: Operation| operation@),
        }
    }
}

} // verus!
