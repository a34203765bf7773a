//! Deciding whether a cart is offered pickup at a local print shop.
//!
//! The checkout hands in a cart, its fulfillment groups and the locations it
//! knows ([`input`]); the answer is the list of delivery options to add
//! ([`output`]), which holds the one pickup option or nothing. [`pickup`]
//! decides under the standard rules, [`policy`] under any rules, and
//! [`decimal`] holds the exact amounts that costs are written in.

pub mod decimal;
pub mod input;
pub mod output;
pub mod pickup;
pub mod policy;
