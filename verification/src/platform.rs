//! The emote platforms the bot manages.

use vstd::prelude::*;

verus! {

/// An emote platform on which swaps and slots are kept.
#[derive(Clone, Copy, Debug, PartialEq, Eq, Structural)]
pub enum SlotPlatform {
    Bttv,
    Ffz,
    SevenTv,
}

} // verus!
