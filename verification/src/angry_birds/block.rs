use vstd::prelude::*;

use crate::palette::PaletteColor;

verus! {

/// The materials a block can be made of.
#[derive(Clone, Copy, Debug, PartialEq, Eq, Structural)]
pub enum BlockType {
    Wood,
    Stone,
    Ice,
}

/// The health a fresh block of each material starts with.
pub open spec fn block_max_health(t: BlockType) -> u32 {
    match t {
        BlockType::Wood => 50,
        BlockType::Stone => 150,
        BlockType::Ice => 30,
    }
}

/// The colour a block of each material is drawn in.
pub open spec fn block_color(t: BlockType) -> PaletteColor {
    match t {
        BlockType::Wood => PaletteColor::Brown,
        BlockType::Stone => PaletteColor::Gray,
        BlockType::Ice => PaletteColor::SkyBlue,
    }
}

impl BlockType {
    /// The health a fresh block of this material starts with.
    pub fn max_health(&self) -> (h: u32)
        ensures
            h == block_max_health(*self),
    {
        match self {
            BlockType::Wood => 50,
            BlockType::Stone => 150,
            BlockType::Ice => 30,
        }
    }

    /// The colour a block of this material is drawn in.
    pub fn color(&self) -> (c: PaletteColor)
        ensures
            c == block_color(*self),
    {
        match self {
            BlockType::Wood => PaletteColor::Brown,
            BlockType::Stone => PaletteColor::Gray,
            BlockType::Ice => PaletteColor::SkyBlue,
        }
    }
}

/// Stone is the toughest material and ice the weakest: wood starts with 50
/// health, stone with 150 and ice with 30; they are drawn brown, grey and sky
/// blue.
pub proof fn lemma_block_table()
    ensures
        block_max_health(BlockType::Wood) == 50,
        block_max_health(BlockType::Stone) == 150,
        block_max_health(BlockType::Ice) == 30,
        block_max_health(BlockType::Ice) < block_max_health(BlockType::Wood) < block_max_health(BlockType::Stone),
        block_color(BlockType::Wood) == PaletteColor::Brown,
        block_color(BlockType::Stone) == PaletteColor::Gray,
        block_color(BlockType::Ice) == PaletteColor::SkyBlue,
{
}

} // verus!
