//! The rules of the pickup offer, as values.
//!
//! A [`Policy`] says which attribute values ask for pickup, what is offered
//! to a shop without a registered location, and the words the buyer reads.
//! Its methods decide for any such rules; [`Policy::standard`] and
//! [`Policy::strict`] are the two sets of rules in use.

use vstd::prelude::*;

use crate::decimal::Decimal;
use crate::input::{handles, CartSnapshot, CartSnapshotView, FunctionInput, FunctionInputView, Location};
use crate::output::{
    FunctionRunResult, FunctionRunResultView, LocalPickupDeliveryOption,
    LocalPickupDeliveryOptionView, Operation, OperationView, PickupLocation, PickupLocationView,
};

verus! {

/// The attribute value by which a storefront asks for pickup.
pub const TRIGGER_PICKUP: &'static str = "pickup";

/// The attribute value of storefronts that only switch the offer on.
pub const TRIGGER_TRUE: &'static str = "true";

/// The handle that stands for a shop with no registered location.
pub const VIRTUAL_LOCATION_HANDLE: &'static str = "diy-label-virtual-location";

/// The option's title under the standard rules. It opens with the four
/// characters U+00F0, U+0178, U+0152 and U+00B1, then a space.
pub const PICKUP_TITLE: &'static str = "\u{f0}\u{178}\u{152}\u{b1} Local Print Shop Pickup";

/// What the buyer is told under the standard rules.
pub const PICKUP_INSTRUCTION: &'static str =
    "Your order will be printed at a local print shop and ready for pickup. You'll receive a notification with pickup details when it's ready.";

/// The option's title under the strict rules. It opens with the seedling,
/// U+1F331, then a space.
pub const STRICT_PICKUP_TITLE: &'static str = "\u{1f331} Local Print Shop Pickup";

/// What the buyer is told under the strict rules.
pub const STRICT_PICKUP_INSTRUCTION: &'static str =
    "Your order will be printed locally and ready for pickup. You'll receive a notification when it's ready.";

/// The rules of the pickup offer.
#[derive(Clone, Debug, PartialEq, Eq)]
pub struct Policy {
    /// The attribute values that ask for pickup.
    pub triggers: Vec<String>,
    /// The handle offered where no location is registered; without one,
    /// a cart of such a shop is offered nothing.
    pub virtual_location: Option<String>,
    /// The option's title.
    pub title: String,
    /// What the buyer is told about picking up.
    pub pickup_instruction: String,
}

/// The model of a [`Policy`].
pub struct PolicyView {
    pub triggers: Seq<Seq<char>>,
    pub virtual_location: Option<Seq<char>>,
    pub title: Seq<char>,
    pub pickup_instruction: Seq<char>,
}

impl View for Policy {
    type V = PolicyView;

    open spec fn view(&self) -> PolicyView {
        PolicyView {
            triggers: self.triggers@.map_values(|trigger: String| trigger@),
            virtual_location: self.virtual_location.deep_view(),
            title: self.title@,
            pickup_instruction: self.pickup_instruction@,
        }
    }
}

/// The rules that offer pickup to every shop: both trigger values count,
/// and a shop without a location gets the virtual one.
pub open spec fn standard_policy() -> PolicyView {
    PolicyView {
        triggers: seq![TRIGGER_PICKUP@, TRIGGER_TRUE@],
        virtual_location: Some(VIRTUAL_LOCATION_HANDLE@),
        title: PICKUP_TITLE@,
        pickup_instruction: PICKUP_INSTRUCTION@,
    }
}

/// The rules that offer pickup only on the value `pickup`, and only at a
/// registered location.
pub open spec fn strict_policy() -> PolicyView {
    PolicyView {
        triggers: seq![TRIGGER_PICKUP@],
        virtual_location: None,
        title: STRICT_PICKUP_TITLE@,
        pickup_instruction: STRICT_PICKUP_INSTRUCTION@,
    }
}

impl PolicyView {
    /// Whether pickup is to be considered for `cart`: its attribute has one
    /// of the trigger values, and it holds at least one line.
    pub open spec fn is_eligible(self, cart: CartSnapshotView) -> bool {
        &&& cart.attribute matches Some(value) && self.triggers.contains(value)
        &&& cart.lines.len() > 0
    }

    /// The handle the option is offered at: that of the first location
    /// listed, else the virtual one, if the rules have one.
    pub open spec fn resolve_location(self, locations: Seq<Seq<char>>) -> Option<Seq<char>> {
        if locations.len() > 0 {
            Some(locations[0])
        } else {
            self.virtual_location
        }
    }

    /// The option offered at `handle`: free of charge, with the rules' title
    /// and instruction, and no metafields.
    pub open spec fn build_option(self, handle: Seq<char>) -> OperationView {
        OperationView {
            add: LocalPickupDeliveryOptionView {
                title: Some(self.title),
                cost: Some(0int),
                pickup_location: PickupLocationView {
                    location_handle: handle,
                    pickup_instruction: Some(self.pickup_instruction),
                },
                metafields: None,
            },
        }
    }

    /// The operations for `input`: one option where the cart is eligible and
    /// a handle is found, else none.
    pub open spec fn run(self, input: FunctionInputView) -> FunctionRunResultView {
        if self.is_eligible(input.cart) {
            match self.resolve_location(input.locations) {
                Some(handle) => FunctionRunResultView {
                    operations: seq![self.build_option(handle)],
                },
                None => FunctionRunResultView { operations: Seq::empty() },
            }
        } else {
            FunctionRunResultView { operations: Seq::empty() }
        }
    }
}

impl Policy {
    /// The standard rules.
    pub fn standard() -> (policy: Policy)
        ensures
            policy@ == standard_policy(),
    {
        let mut triggers: Vec<String> = Vec::new();
        triggers.push(TRIGGER_PICKUP.to_owned());
        triggers.push(TRIGGER_TRUE.to_owned());
        let policy = Policy {
            triggers,
            virtual_location: Some(VIRTUAL_LOCATION_HANDLE.to_owned()),
            title: PICKUP_TITLE.to_owned(),
            pickup_instruction: PICKUP_INSTRUCTION.to_owned(),
        };
        assert(policy@.triggers =~= standard_policy().triggers);
        policy
    }

    /// The strict rules.
    pub fn strict() -> (policy: Policy)
        ensures
            policy@ == strict_policy(),
    {
        let mut triggers: Vec<String> = Vec::new();
        triggers.push(TRIGGER_PICKUP.to_owned());
        let policy = Policy {
            triggers,
            virtual_location: None,
            title: STRICT_PICKUP_TITLE.to_owned(),
            pickup_instruction: STRICT_PICKUP_INSTRUCTION.to_owned(),
        };
        assert(policy@.triggers =~= strict_policy().triggers);
        policy
    }

    /// Whether `value` is one of the trigger values.
    pub fn is_trigger(&self, value: &String) -> (found: bool)
        ensures
            found == self@.triggers.contains(value@),
    {
        let mut i: usize = 0;
        while i < self.triggers.len()
            invariant
                i <= self.triggers.len(),
                forall|j: int| 0 <= j < i ==> self@.triggers[j] != value@,
            decreases self.triggers.len() - i,
        {
            if self.triggers[i] == *value {
                assert(self@.triggers[i as int] == value@);
                return true;
            }
            i += 1;
        }
        false
    }

    /// Whether pickup is to be considered for `cart`.
    pub fn is_eligible(&self, cart: &CartSnapshot) -> (eligible: bool)
        ensures
            eligible == self@.is_eligible(cart@),
    {
        let requested = match &cart.attribute {
            Some(attribute) => match &attribute.value {
                Some(value) => self.is_trigger(value),
                None => false,
            },
            None => false,
        };
        requested && cart.lines.len() > 0
    }

    /// The handle the option is offered at, if there is one.
    pub fn resolve_location(&self, locations: &Vec<Location>) -> (handle: Option<String>)
        ensures
            handle.deep_view() == self@.resolve_location(handles(locations@)),
    {
        if locations.len() > 0 {
            Some(locations[0].handle.clone())
        } else {
            match &self.virtual_location {
                Some(handle) => Some(handle.clone()),
                None => None,
            }
        }
    }

    /// The option offered at `handle`.
    pub fn build_option(&self, handle: String) -> (operation: Operation)
        ensures
            operation@ == self@.build_option(handle@),
    {
        Operation {
            add: LocalPickupDeliveryOption {
                title: Some(self.title.clone()),
                cost: Some(Decimal::zero()),
                pickup_location: PickupLocation {
                    location_handle: handle,
                    pickup_instruction: Some(self.pickup_instruction.clone()),
                },
                metafields: None,
            },
        }
    }

    /// The operations for `input` under these rules: never more than one.
    pub fn run(&self, input: &FunctionInput) -> (result: FunctionRunResult)
        ensures
            result@ == self@.run(input@),
            result@.operations.len() <= 1,
    {
        let mut operations: Vec<Operation> = Vec::new();
        if self.is_eligible(&input.cart) {
            match self.resolve_location(&input.locations) {
                Some(handle) => {
                    operations.push(self.build_option(handle));
                },
                None => {},
            }
        }
        let result = FunctionRunResult { operations };
        assert(result@.operations =~= self@.run(input@).operations);
        result
    }
}

} // verus!
