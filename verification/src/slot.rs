//! Storage slots: the byte buffers that the host hands to each call, each
//! with its identity, its owner and its signer flag.

use vstd::prelude::*;

verus! {

/// A slot as the host supplies it.
#[derive(Clone, Debug, PartialEq, Eq)]
pub struct Slot {
    /// The slot's own identity.
    pub key: [u8; 32],
    /// The identity of the program that owns the slot.
    pub owner: [u8; 32],
    /// Whether the host verified a signature by `key` on this call.
    pub is_signer: bool,
    /// The slot's contents.
    pub data: Vec<u8>,
}

/// What a slot holds, as plain values.
pub struct SlotView {
    pub key: Seq<u8>,
    pub owner: Seq<u8>,
    pub is_signer: bool,
    pub data: Seq<u8>,
}

impl View for Slot {
    type V = SlotView;

    open spec fn view(&self) -> SlotView {
        SlotView { key: self.key@, owner: self.owner@, is_signer: self.is_signer, data: self.data@ }
    }
}

/// A slot list, as plain values.
pub open spec fn views(slots: Seq<Slot>) -> Seq<SlotView> {
    Seq::new(slots.len(), |i: int| slots[i]@)
}

/// The slot list in which slot `index` holds `data` and nothing else differs.
pub open spec fn with_data(slots: Seq<SlotView>, index: int, data: Seq<u8>) -> Seq<SlotView> {
    slots.update(index, SlotView { data, ..slots[index] })
}

} // verus!
