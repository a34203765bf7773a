//! The pickup offer under the standard rules.
//!
//! A cart is offered pickup when its attribute asks for it and it holds at
//! least one line. The option is offered at the first location the checkout
//! lists, or at the virtual location where it lists none, and is always free.

use vstd::prelude::*;

use crate::input::{handles, CartSnapshot, CartSnapshotView, FunctionInput, FunctionInputView, Location};
use crate::output::{
    FunctionRunResult, FunctionRunResultView, LocalPickupDeliveryOptionView, Operation,
    OperationView, PickupLocationView,
};
use crate::policy::{
    standard_policy, strict_policy, Policy, PICKUP_INSTRUCTION, PICKUP_TITLE, TRIGGER_PICKUP,
    TRIGGER_TRUE, VIRTUAL_LOCATION_HANDLE,
};

verus! {

/// Whether an attribute value asks for pickup.
pub open spec fn is_trigger(value: Seq<char>) -> bool {
    value == TRIGGER_PICKUP@ || value == TRIGGER_TRUE@
}

/// Whether pickup is to be considered for `cart`: its attribute has a value
/// that asks for pickup, and it holds at least one line.
pub open spec fn eligible(cart: CartSnapshotView) -> bool {
    &&& cart.attribute matches Some(value) && is_trigger(value)
    &&& cart.lines.len() > 0
}

/// The handle the option is offered at: that of the first location listed,
/// or the virtual one where none is listed.
pub open spec fn resolved_handle(locations: Seq<Seq<char>>) -> Seq<char> {
    if locations.len() > 0 {
        locations[0]
    } else {
        VIRTUAL_LOCATION_HANDLE@
    }
}

/// The option offered at `handle`.
pub open spec fn pickup_option(handle: Seq<char>) -> OperationView {
    OperationView {
        add: LocalPickupDeliveryOptionView {
            title: Some(PICKUP_TITLE@),
            cost: Some(0int),
            pickup_location: PickupLocationView {
                location_handle: handle,
                pickup_instruction: Some(PICKUP_INSTRUCTION@),
            },
            metafields: None,
        },
    }
}

/// The answer for `input`: the one option for an eligible cart, nothing for
/// any other.
pub open spec fn decision(input: FunctionInputView) -> FunctionRunResultView {
    if eligible(input.cart) {
        FunctionRunResultView {
            operations: seq![pickup_option(resolved_handle(input.locations))],
        }
    } else {
        FunctionRunResultView { operations: Seq::empty() }
    }
}

/// The standard rules consider pickup for exactly the carts that are
/// eligible here.
pub proof fn standard_policy_eligibility(cart: CartSnapshotView)
    ensures
        standard_policy().is_eligible(cart) == eligible(cart),
{
}

/// The standard rules give every input the answer that is decided here.
pub proof fn standard_policy_decision(input: FunctionInputView)
    ensures
        standard_policy().run(input) == decision(input),
{
    standard_policy_eligibility(input.cart);
}

/// Where the strict rules offer pickup, the standard rules offer it too, at
/// the same location.
pub proof fn standard_rules_extend_strict(input: FunctionInputView)
    requires
        strict_policy().run(input).operations.len() == 1,
    ensures
        decision(input).operations.len() == 1,
        decision(input).operations[0].add.pickup_location.location_handle == strict_policy().run(
            input,
        ).operations[0].add.pickup_location.location_handle,
{
}

/// Whether pickup is to be considered for `cart`.
pub fn is_eligible(cart: &CartSnapshot) -> (answer: bool)
    ensures
        answer == eligible(cart@),
{
    let policy = Policy::standard();
    proof {
        standard_policy_eligibility(cart@);
    }
    policy.is_eligible(cart)
}

/// The handle the option is offered at. There always is one.
pub fn resolve_location(locations: &Vec<Location>) -> (handle: String)
    ensures
        handle@ == resolved_handle(handles(locations@)),
{
    if locations.len() > 0 {
        locations[0].handle.clone()
    } else {
        VIRTUAL_LOCATION_HANDLE.to_owned()
    }
}

/// The option offered at `handle`.
pub fn build_option(handle: String) -> (operation: Operation)
    ensures
        operation@ == pickup_option(handle@),
{
    Policy::standard().build_option(handle)
}

/// Decides for one cart.
///
/// The answer holds at most one operation. It holds none where the cart has
/// no attribute value, a value that does not ask for pickup, or no lines.
/// Otherwise it holds one, offered at the first location listed, or at the
/// virtual location where none is listed. An option is always free and
/// always has a title and an instruction.
pub fn run(input: FunctionInput) -> (result: FunctionRunResult)
    ensures
        result@ == decision(input@),
        result@.operations.len() <= 1,
        input@.cart.attribute is None ==> result@.operations.len() == 0,
        input@.cart.attribute matches Some(value) && !is_trigger(value)
            ==> result@.operations.len() == 0,
        input@.cart.lines.len() == 0 ==> result@.operations.len() == 0,
        input@.cart.attribute matches Some(value) && is_trigger(value)
            && input@.cart.lines.len() > 0 && input@.locations.len() > 0 ==> {
            &&& result@.operations.len() == 1
            &&& result@.operations[0].add.pickup_location.location_handle == input@.locations[0]
        },
        input@.cart.attribute matches Some(value) && is_trigger(value)
            && input@.cart.lines.len() > 0 && input@.locations.len() == 0 ==> {
            &&& result@.operations.len() == 1
            &&& result@.operations[0].add.pickup_location.location_handle
                == VIRTUAL_LOCATION_HANDLE@
        },
        forall|i: int|
            0 <= i < result@.operations.len() ==> {
                &&& (#[trigger] result@.operations[i]).add.cost == Some(0int)
                &&& result@.operations[i].add.title is Some
                &&& result@.operations[i].add.pickup_location.pickup_instruction is Some
            },
{
    let policy = Policy::standard();
    proof {
        standard_policy_decision(input@);
    }
    policy.run(&input)
}

/// Two runs on inputs with one model give answers with one model: the
/// answer depends on nothing but what the input holds.
pub proof fn run_is_deterministic(
    first: FunctionInput,
    second: FunctionInput,
    first_result: FunctionRunResult,
    second_result: FunctionRunResult,
)
    requires
        first@ == second@,
        first_result@ == decision(first@),
        second_result@ == decision(second@),
    ensures
        first_result@ == second_result@,
{
}

} // verus!
