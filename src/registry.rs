//! The engine's keyed registries of models and placed render elements,
//! held in slot maps.
use vstd::prelude::*;
use slotmap::{DefaultKey, SlotMap};
use crate::scene::{Model, RenderElement};

verus! {

/// A slot map of models.
#[verifier::external_body]
pub struct ModelRegistry {
    slots: SlotMap<DefaultKey, Model>,
}

/// A slot map of placed render elements.
#[verifier::external_body]
pub struct ElementRegistry {
    slots: SlotMap<DefaultKey, RenderElement>,
}

/// The models a registry holds, by key in its 64-bit form.
pub uninterp spec fn model_slots(m: ModelRegistry) -> Map<u64, Model>;

/// The render elements a registry holds, by key in its 64-bit form.
pub uninterp spec fn element_slots(m: ElementRegistry) -> Map<u64, RenderElement>;

/// Relies on slotmap's `SlotMap::with_capacity_and_key`: the new map holds
/// no element.
#[verifier::external_body]
pub(crate) fn model_registry(capacity: usize) -> (r: ModelRegistry)
    ensures
        model_slots(r).dom() == Set::<u64>::empty(),
{
    ModelRegistry { slots: SlotMap::with_capacity_and_key(capacity) }
}

/// Relies on slotmap's `SlotMap::with_capacity_and_key`: the new map holds
/// no element.
#[verifier::external_body]
pub(crate) fn element_registry(capacity: usize) -> (r: ElementRegistry)
    ensures
        element_slots(r).dom() == Set::<u64>::empty(),
{
    ElementRegistry { slots: SlotMap::with_capacity_and_key(capacity) }
}

} // verus!
