//! Plain transfer structs the boundary hands back and forth.

use vstd::prelude::*;

use crate::bridge::Handle;
use crate::bridge::ValueRegistry;

verus! {

/// A pair of 64-bit lengths crossing the boundary.
#[derive(Debug, Clone, Copy, PartialEq, Eq, Structural, Default)]
pub struct GlutinSizeU64 {
    /// The horizontal component.
    pub x: u64,
    /// The vertical component.
    pub y: u64,
}

/// A string crossing the boundary: its bytes together with their count.
#[derive(Debug, Clone, PartialEq, Eq)]
pub struct GlutinCString {
    /// The string's bytes, without a terminator.
    pub data: Vec<u8>,
    /// How many bytes `data` holds.
    pub length: usize,
}

impl GlutinCString {
    /// The byte count matches the bytes carried.
    pub open spec fn wf(&self) -> bool {
        self.length == self.data@.len()
    }

    /// Wraps bytes for the boundary, counting them.
    pub fn from_bytes(data: Vec<u8>) -> (r: GlutinCString)
        ensures
            r.data@ == data@,
            r.wf(),
    {
        let length = data.len();
        GlutinCString { data, length }
    }
}

/// Boxes a zero size pair and hands the caller its handle.
pub fn glutin_create_size_u64(registry: &mut ValueRegistry<GlutinSizeU64>) -> (h: Handle)
    ensures
        final(registry)@ == old(registry)@.push(Some(GlutinSizeU64 { x: 0, y: 0 })),
        final(registry).live(h),
        final(registry).value_of(h) == (GlutinSizeU64 { x: 0, y: 0 }),
{
    registry.create(GlutinSizeU64 { x: 0, y: 0 })
}

/// Drops the boxed size pair; a null or dead handle is a no-op.
pub fn glutin_destroy_size_u64(
    registry: &mut ValueRegistry<GlutinSizeU64>,
    h: Option<Handle>,
)
    ensures
        old(registry).live_opt(h) ==> final(registry)@ == old(registry)@.update(
            h->Some_0.index as int,
            None::<GlutinSizeU64>,
        ),
        !old(registry).live_opt(h) ==> final(registry)@ == old(registry)@,
{
    match h {
        None => (),
        Some(h) => {
            registry.release(h);
        },
    }
}

} // verus!
