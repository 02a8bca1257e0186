use vstd::prelude::*;

use crate::angry_birds::bird::BirdType;
use crate::angry_birds::block::BlockType;
use crate::angry_birds::pig::PigSize;

verus! {

/// Where a block stands at the start of a level: its material, the screen
/// position of its centre and its size, in whole pixels.
#[derive(Clone, Copy, Debug, PartialEq, Eq, Structural)]
pub struct BlockPlacement {
    pub block_type: BlockType,
    pub x: i32,
    pub y: i32,
    pub width: i32,
    pub height: i32,
}

/// Where a pig sits at the start of a level: its size and the screen position
/// of its centre, in whole pixels.
#[derive(Clone, Copy, Debug, PartialEq, Eq, Structural)]
pub struct PigPlacement {
    pub pig_size: PigSize,
    pub x: i32,
    pub y: i32,
}

/// The contents of a level: the birds handed out, in order, and the blocks and
/// pigs of the structure to knock down.
pub struct LevelData {
    pub birds: Vec<BirdType>,
    pub blocks: Vec<BlockPlacement>,
    pub pigs: Vec<PigPlacement>,
}

/// The mathematical value of a level.
pub struct LevelLayout {
    pub birds: Seq<BirdType>,
    pub blocks: Seq<BlockPlacement>,
    pub pigs: Seq<PigPlacement>,
}

impl View for LevelData {
    type V = LevelLayout;

    open spec fn view(&self) -> LevelLayout {
        LevelLayout { birds: self.birds@, blocks: self.blocks@, pigs: self.pigs@ }
    }
}

/// Shorthand for a block placement.
pub open spec fn block_at(block_type: BlockType, x: i32, y: i32, width: i32, height: i32) -> BlockPlacement {
    BlockPlacement { block_type, x, y, width, height }
}

/// Shorthand for a pig placement.
pub open spec fn pig_at(pig_size: PigSize, x: i32, y: i32) -> PigPlacement {
    PigPlacement { pig_size, x, y }
}

/// The number of levels the game ships with.
pub const LEVEL_COUNT: usize = 5;

/// The layout of level `n`, counted from 1.
pub open spec fn level_layout(n: int) -> LevelLayout
    recommends
        1 <= n <= LEVEL_COUNT,
{
    if n == 1 {
        level_1_layout()
    } else if n == 2 {
        level_2_layout()
    } else if n == 3 {
        level_3_layout()
    } else if n == 4 {
        level_4_layout()
    } else {
        level_5_layout()
    }
}

/// The layout of level 1.
pub open spec fn level_1_layout() -> LevelLayout {
    LevelLayout {
        birds: seq![BirdType::Red, BirdType::Red, BirdType::Yellow],
        blocks: seq![
            block_at(BlockType::Wood, 550, 520, 20, 80),
            block_at(BlockType::Wood, 650, 520, 20, 80),
            block_at(BlockType::Wood, 600, 475, 120, 15),
            block_at(BlockType::Wood, 600, 455, 80, 15),
        ],
        pigs: seq![
            pig_at(PigSize::Small, 600, 430),
        ],
    }
}

/// The layout of level 2.
pub open spec fn level_2_layout() -> LevelLayout {
    LevelLayout {
        birds: seq![BirdType::Red, BirdType::Blue, BirdType::Yellow, BirdType::Yellow],
        blocks: seq![
            block_at(BlockType::Wood, 500, 530, 20, 60),
            block_at(BlockType::Stone, 560, 530, 20, 60),
            block_at(BlockType::Wood, 620, 530, 20, 60),
            block_at(BlockType::Wood, 560, 490, 140, 15),
            block_at(BlockType::Stone, 700, 530, 20, 60),
            block_at(BlockType::Wood, 700, 490, 60, 15),
        ],
        pigs: seq![
            pig_at(PigSize::Small, 560, 465),
            pig_at(PigSize::Small, 700, 465),
        ],
    }
}

/// The layout of level 3.
pub open spec fn level_3_layout() -> LevelLayout {
    LevelLayout {
        birds: seq![BirdType::Red, BirdType::Yellow, BirdType::Blue, BirdType::White, BirdType::Yellow],
        blocks: seq![
            block_at(BlockType::Ice, 480, 540, 15, 50),
            block_at(BlockType::Ice, 540, 540, 15, 50),
            block_at(BlockType::Wood, 510, 510, 80, 15),
            block_at(BlockType::Ice, 510, 490, 60, 15),
            block_at(BlockType::Stone, 620, 540, 25, 50),
            block_at(BlockType::Ice, 680, 540, 15, 50),
            block_at(BlockType::Wood, 650, 510, 80, 15),
            block_at(BlockType::Ice, 650, 490, 60, 15),
            block_at(BlockType::Wood, 510, 470, 20, 40),
            block_at(BlockType::Wood, 650, 470, 20, 40),
            block_at(BlockType::Wood, 580, 450, 160, 15),
        ],
        pigs: seq![
            pig_at(PigSize::Small, 510, 445),
            pig_at(PigSize::Small, 650, 445),
            pig_at(PigSize::Big, 580, 425),
        ],
    }
}

/// The layout of level 4.
pub open spec fn level_4_layout() -> LevelLayout {
    LevelLayout {
        birds: seq![BirdType::Blue, BirdType::Yellow, BirdType::Black, BirdType::Red, BirdType::White],
        blocks: seq![
            block_at(BlockType::Stone, 450, 550, 30, 30),
            block_at(BlockType::Wood, 500, 550, 15, 60),
            block_at(BlockType::Stone, 550, 550, 30, 30),
            block_at(BlockType::Wood, 475, 510, 80, 15),
            block_at(BlockType::Wood, 525, 510, 80, 15),
            block_at(BlockType::Ice, 500, 490, 20, 40),
            block_at(BlockType::Ice, 550, 490, 20, 40),
            block_at(BlockType::Wood, 525, 460, 100, 15),
            block_at(BlockType::Stone, 650, 550, 25, 80),
            block_at(BlockType::Wood, 700, 550, 15, 60),
            block_at(BlockType::Stone, 750, 550, 25, 80),
            block_at(BlockType::Wood, 675, 510, 120, 15),
            block_at(BlockType::Ice, 650, 490, 60, 15),
            block_at(BlockType::Ice, 700, 490, 60, 15),
        ],
        pigs: seq![
            pig_at(PigSize::Small, 500, 485),
            pig_at(PigSize::Small, 550, 485),
            pig_at(PigSize::Big, 675, 465),
            pig_at(PigSize::Small, 700, 485),
        ],
    }
}

/// The layout of level 5.
pub open spec fn level_5_layout() -> LevelLayout {
    LevelLayout {
        birds: seq![BirdType::Black, BirdType::Blue, BirdType::Yellow, BirdType::White, BirdType::Red, BirdType::Red],
        blocks: seq![
            block_at(BlockType::Stone, 400, 560, 30, 30),
            block_at(BlockType::Wood, 450, 560, 15, 80),
            block_at(BlockType::Stone, 500, 560, 30, 30),
            block_at(BlockType::Wood, 475, 510, 100, 15),
            block_at(BlockType::Ice, 430, 510, 50, 15),
            block_at(BlockType::Ice, 520, 510, 50, 15),
            block_at(BlockType::Wood, 450, 490, 20, 40),
            block_at(BlockType::Wood, 500, 490, 20, 40),
            block_at(BlockType::Wood, 475, 460, 80, 15),
            block_at(BlockType::Stone, 600, 560, 30, 60),
            block_at(BlockType::Wood, 650, 560, 15, 60),
            block_at(BlockType::Stone, 700, 560, 30, 60),
            block_at(BlockType::Wood, 625, 520, 120, 15),
            block_at(BlockType::Ice, 600, 500, 15, 40),
            block_at(BlockType::Ice, 650, 500, 15, 40),
            block_at(BlockType::Wood, 625, 470, 80, 15),
            block_at(BlockType::Stone, 550, 400, 25, 25),
            block_at(BlockType::Wood, 500, 400, 15, 60),
            block_at(BlockType::Wood, 600, 400, 15, 60),
            block_at(BlockType::Wood, 550, 360, 120, 15),
        ],
        pigs: seq![
            pig_at(PigSize::Small, 450, 485),
            pig_at(PigSize::Small, 500, 485),
            pig_at(PigSize::Big, 625, 455),
            pig_at(PigSize::Small, 650, 485),
            pig_at(PigSize::Big, 550, 335),
        ],
    }
}

/// The game's levels and the one being played.
pub struct LevelManager {
    pub levels: Vec<LevelData>,
    pub current_level: usize,
}

/// What makes a layout playable: at least one bird and one pig, every block of
/// positive size and wholly inside the 800x600 screen, to the right of the
/// slingshot, and every pig's centre inside the screen.
pub open spec fn layout_playable(l: LevelLayout) -> bool {
    &&& l.birds.len() > 0
    &&& l.pigs.len() > 0
    &&& forall|i: int|
        0 <= i < l.blocks.len() ==> {
            let b = #[trigger] l.blocks[i];
            &&& b.width > 0
            &&& b.height > 0
            &&& 2 * b.x - b.width > 2 * 150
            &&& 2 * b.x + b.width <= 2 * 800
            &&& 2 * b.y - b.height >= 0
            &&& 2 * b.y + b.height <= 2 * 600
        }
    &&& forall|i: int|
        0 <= i < l.pigs.len() ==> {
            let p = #[trigger] l.pigs[i];
            &&& 150 < p.x < 800
            &&& 0 < p.y < 600
        }
}

impl LevelManager {
    /// A manager is well formed when it holds levels and points at one of them.
    pub open spec fn well_formed(&self) -> bool {
        &&& 0 < self.levels@.len()
        &&& self.current_level < self.levels@.len()
    }

    /// The game's levels, starting at the first.
    pub fn new() -> (m: Self)
        ensures
            m.well_formed(),
            m.current_level == 0,
            m.levels@.len() == LEVEL_COUNT,
            forall|i: int| 0 <= i < LEVEL_COUNT ==> #[trigger] m.levels@[i]@ == level_layout(i + 1),
    {
        let levels = vec![
            Self::create_level_1(),
            Self::create_level_2(),
            Self::create_level_3(),
            Self::create_level_4(),
            Self::create_level_5(),
        ];
        LevelManager { levels, current_level: 0 }
    }

    /// The level being played.
    pub fn get_current_level(&self) -> (l: &LevelData)
        requires
            self.current_level < self.levels@.len(),
        ensures
            *l == self.levels@[self.current_level as int],
    {
        &self.levels[self.current_level]
    }

    /// The level being played, for changing it.
    pub fn get_current_level_mut(&mut self) -> (l: &mut LevelData)
        requires
            old(self).current_level < old(self).levels@.len(),
        ensures
            *l == old(self).levels@[old(self).current_level as int],
            final(self).current_level == old(self).current_level,
            final(self).levels@ == old(self).levels@.update(
                old(self).current_level as int,
                *final(l),
            ),
    {
        &mut self.levels[self.current_level]
    }

    /// Moves on to the next level, if the current one is not the last.
    ///
    /// Returns whether it moved.
    pub fn next_level(&mut self) -> (moved: bool)
        requires
            old(self).levels@.len() > 0,
        ensures
            final(self).levels@ == old(self).levels@,
            moved == (old(self).current_level < old(self).levels@.len() - 1),
            moved ==> final(self).current_level == old(self).current_level + 1,
            !moved ==> final(self).current_level == old(self).current_level,
            old(self).well_formed() ==> final(self).well_formed(),
    {
        if self.current_level < self.levels.len() - 1 {
            self.current_level += 1;
            true
        } else {
            false
        }
    }

    /// Back to the first level.
    pub fn reset(&mut self)
        ensures
            final(self).levels@ == old(self).levels@,
            final(self).current_level == 0,
            old(self).well_formed() ==> final(self).well_formed(),
    {
        self.current_level = 0;
    }

    /// The number of the current level, counted from 1.
    pub fn get_level_number(&self) -> (n: usize)
        requires
            self.current_level < usize::MAX,
        ensures
            n == self.current_level + 1,
            self.well_formed() ==> 1 <= n <= self.levels@.len(),
    {
        self.current_level + 1
    }

    /// Builds level 1.
    fn create_level_1() -> (l: LevelData)
        ensures
            l@ == level_1_layout(),
    {
        let l = LevelData {
            birds: vec![BirdType::Red, BirdType::Red, BirdType::Yellow],
            blocks: vec![
                BlockPlacement { block_type: BlockType::Wood, x: 550, y: 520, width: 20, height: 80 },
                BlockPlacement { block_type: BlockType::Wood, x: 650, y: 520, width: 20, height: 80 },
                BlockPlacement { block_type: BlockType::Wood, x: 600, y: 475, width: 120, height: 15 },
                BlockPlacement { block_type: BlockType::Wood, x: 600, y: 455, width: 80, height: 15 },
            ],
            pigs: vec![
                PigPlacement { pig_size: PigSize::Small, x: 600, y: 430 },
            ],
        };
        assert(l.birds@ =~= level_1_layout().birds);
        assert(l.blocks@ =~= level_1_layout().blocks);
        assert(l.pigs@ =~= level_1_layout().pigs);
        l
    }

    /// Builds level 2.
    fn create_level_2() -> (l: LevelData)
        ensures
            l@ == level_2_layout(),
    {
        let l = LevelData {
            birds: vec![BirdType::Red, BirdType::Blue, BirdType::Yellow, BirdType::Yellow],
            blocks: vec![
                BlockPlacement { block_type: BlockType::Wood, x: 500, y: 530, width: 20, height: 60 },
                BlockPlacement { block_type: BlockType::Stone, x: 560, y: 530, width: 20, height: 60 },
                BlockPlacement { block_type: BlockType::Wood, x: 620, y: 530, width: 20, height: 60 },
                BlockPlacement { block_type: BlockType::Wood, x: 560, y: 490, width: 140, height: 15 },
                BlockPlacement { block_type: BlockType::Stone, x: 700, y: 530, width: 20, height: 60 },
                BlockPlacement { block_type: BlockType::Wood, x: 700, y: 490, width: 60, height: 15 },
            ],
            pigs: vec![
                PigPlacement { pig_size: PigSize::Small, x: 560, y: 465 },
                PigPlacement { pig_size: PigSize::Small, x: 700, y: 465 },
            ],
        };
        assert(l.birds@ =~= level_2_layout().birds);
        assert(l.blocks@ =~= level_2_layout().blocks);
        assert(l.pigs@ =~= level_2_layout().pigs);
        l
    }

    /// Builds level 3.
    fn create_level_3() -> (l: LevelData)
        ensures
            l@ == level_3_layout(),
    {
        let l = LevelData {
            birds: vec![BirdType::Red, BirdType::Yellow, BirdType::Blue, BirdType::White, BirdType::Yellow],
            blocks: vec![
                BlockPlacement { block_type: BlockType::Ice, x: 480, y: 540, width: 15, height: 50 },
                BlockPlacement { block_type: BlockType::Ice, x: 540, y: 540, width: 15, height: 50 },
                BlockPlacement { block_type: BlockType::Wood, x: 510, y: 510, width: 80, height: 15 },
                BlockPlacement { block_type: BlockType::Ice, x: 510, y: 490, width: 60, height: 15 },
                BlockPlacement { block_type: BlockType::Stone, x: 620, y: 540, width: 25, height: 50 },
                BlockPlacement { block_type: BlockType::Ice, x: 680, y: 540, width: 15, height: 50 },
                BlockPlacement { block_type: BlockType::Wood, x: 650, y: 510, width: 80, height: 15 },
                BlockPlacement { block_type: BlockType::Ice, x: 650, y: 490, width: 60, height: 15 },
                BlockPlacement { block_type: BlockType::Wood, x: 510, y: 470, width: 20, height: 40 },
                BlockPlacement { block_type: BlockType::Wood, x: 650, y: 470, width: 20, height: 40 },
                BlockPlacement { block_type: BlockType::Wood, x: 580, y: 450, width: 160, height: 15 },
            ],
            pigs: vec![
                PigPlacement { pig_size: PigSize::Small, x: 510, y: 445 },
                PigPlacement { pig_size: PigSize::Small, x: 650, y: 445 },
                PigPlacement { pig_size: PigSize::Big, x: 580, y: 425 },
            ],
        };
        assert(l.birds@ =~= level_3_layout().birds);
        assert(l.blocks@ =~= level_3_layout().blocks);
        assert(l.pigs@ =~= level_3_layout().pigs);
        l
    }

    /// Builds level 4.
    fn create_level_4() -> (l: LevelData)
        ensures
            l@ == level_4_layout(),
    {
        let l = LevelData {
            birds: vec![BirdType::Blue, BirdType::Yellow, BirdType::Black, BirdType::Red, BirdType::White],
            blocks: vec![
                BlockPlacement { block_type: BlockType::Stone, x: 450, y: 550, width: 30, height: 30 },
                BlockPlacement { block_type: BlockType::Wood, x: 500, y: 550, width: 15, height: 60 },
                BlockPlacement { block_type: BlockType::Stone, x: 550, y: 550, width: 30, height: 30 },
                BlockPlacement { block_type: BlockType::Wood, x: 475, y: 510, width: 80, height: 15 },
                BlockPlacement { block_type: BlockType::Wood, x: 525, y: 510, width: 80, height: 15 },
                BlockPlacement { block_type: BlockType::Ice, x: 500, y: 490, width: 20, height: 40 },
                BlockPlacement { block_type: BlockType::Ice, x: 550, y: 490, width: 20, height: 40 },
                BlockPlacement { block_type: BlockType::Wood, x: 525, y: 460, width: 100, height: 15 },
                BlockPlacement { block_type: BlockType::Stone, x: 650, y: 550, width: 25, height: 80 },
                BlockPlacement { block_type: BlockType::Wood, x: 700, y: 550, width: 15, height: 60 },
                BlockPlacement { block_type: BlockType::Stone, x: 750, y: 550, width: 25, height: 80 },
                BlockPlacement { block_type: BlockType::Wood, x: 675, y: 510, width: 120, height: 15 },
                BlockPlacement { block_type: BlockType::Ice, x: 650, y: 490, width: 60, height: 15 },
                BlockPlacement { block_type: BlockType::Ice, x: 700, y: 490, width: 60, height: 15 },
            ],
            pigs: vec![
                PigPlacement { pig_size: PigSize::Small, x: 500, y: 485 },
                PigPlacement { pig_size: PigSize::Small, x: 550, y: 485 },
                PigPlacement { pig_size: PigSize::Big, x: 675, y: 465 },
                PigPlacement { pig_size: PigSize::Small, x: 700, y: 485 },
            ],
        };
        assert(l.birds@ =~= level_4_layout().birds);
        assert(l.blocks@ =~= level_4_layout().blocks);
        assert(l.pigs@ =~= level_4_layout().pigs);
        l
    }

    /// Builds level 5.
    fn create_level_5() -> (l: LevelData)
        ensures
            l@ == level_5_layout(),
    {
        let l = LevelData {
            birds: vec![BirdType::Black, BirdType::Blue, BirdType::Yellow, BirdType::White, BirdType::Red, BirdType::Red],
            blocks: vec![
                BlockPlacement { block_type: BlockType::Stone, x: 400, y: 560, width: 30, height: 30 },
                BlockPlacement { block_type: BlockType::Wood, x: 450, y: 560, width: 15, height: 80 },
                BlockPlacement { block_type: BlockType::Stone, x: 500, y: 560, width: 30, height: 30 },
                BlockPlacement { block_type: BlockType::Wood, x: 475, y: 510, width: 100, height: 15 },
                BlockPlacement { block_type: BlockType::Ice, x: 430, y: 510, width: 50, height: 15 },
                BlockPlacement { block_type: BlockType::Ice, x: 520, y: 510, width: 50, height: 15 },
                BlockPlacement { block_type: BlockType::Wood, x: 450, y: 490, width: 20, height: 40 },
                BlockPlacement { block_type: BlockType::Wood, x: 500, y: 490, width: 20, height: 40 },
                BlockPlacement { block_type: BlockType::Wood, x: 475, y: 460, width: 80, height: 15 },
                BlockPlacement { block_type: BlockType::Stone, x: 600, y: 560, width: 30, height: 60 },
                BlockPlacement { block_type: BlockType::Wood, x: 650, y: 560, width: 15, height: 60 },
                BlockPlacement { block_type: BlockType::Stone, x: 700, y: 560, width: 30, height: 60 },
                BlockPlacement { block_type: BlockType::Wood, x: 625, y: 520, width: 120, height: 15 },
                BlockPlacement { block_type: BlockType::Ice, x: 600, y: 500, width: 15, height: 40 },
                BlockPlacement { block_type: BlockType::Ice, x: 650, y: 500, width: 15, height: 40 },
                BlockPlacement { block_type: BlockType::Wood, x: 625, y: 470, width: 80, height: 15 },
                BlockPlacement { block_type: BlockType::Stone, x: 550, y: 400, width: 25, height: 25 },
                BlockPlacement { block_type: BlockType::Wood, x: 500, y: 400, width: 15, height: 60 },
                BlockPlacement { block_type: BlockType::Wood, x: 600, y: 400, width: 15, height: 60 },
                BlockPlacement { block_type: BlockType::Wood, x: 550, y: 360, width: 120, height: 15 },
            ],
            pigs: vec![
                PigPlacement { pig_size: PigSize::Small, x: 450, y: 485 },
                PigPlacement { pig_size: PigSize::Small, x: 500, y: 485 },
                PigPlacement { pig_size: PigSize::Big, x: 625, y: 455 },
                PigPlacement { pig_size: PigSize::Small, x: 650, y: 485 },
                PigPlacement { pig_size: PigSize::Big, x: 550, y: 335 },
            ],
        };
        assert(l.birds@ =~= level_5_layout().birds);
        assert(l.blocks@ =~= level_5_layout().blocks);
        assert(l.pigs@ =~= level_5_layout().pigs);
        l
    }
}

/// Every level the game ships with is playable: it hands out at least one
/// bird, has at least one pig, and its blocks and pigs stand inside the screen
/// to the right of the slingshot.
pub proof fn lemma_levels_playable(n: int)
    requires
        1 <= n <= LEVEL_COUNT,
    ensures
        layout_playable(level_layout(n)),
{
}

/// The shipped levels hand out exactly these birds, in this order, and hold
/// exactly these blocks and pigs, where each placement gives the material or
/// size, the centre `(x, y)` and, for blocks, the width and height.
pub proof fn lemma_level_contents()
    ensures
        level_layout(1).birds =~= seq![BirdType::Red, BirdType::Red, BirdType::Yellow],
        level_layout(1).blocks.len() == 4,
        level_layout(1).blocks[0] == (BlockPlacement { block_type: BlockType::Wood, x: 550, y: 520, width: 20, height: 80 }),
        level_layout(1).blocks[1] == (BlockPlacement { block_type: BlockType::Wood, x: 650, y: 520, width: 20, height: 80 }),
        level_layout(1).blocks[2] == (BlockPlacement { block_type: BlockType::Wood, x: 600, y: 475, width: 120, height: 15 }),
        level_layout(1).blocks[3] == (BlockPlacement { block_type: BlockType::Wood, x: 600, y: 455, width: 80, height: 15 }),
        level_layout(1).pigs.len() == 1,
        level_layout(1).pigs[0] == (PigPlacement { pig_size: PigSize::Small, x: 600, y: 430 }),
        level_layout(2).birds =~= seq![BirdType::Red, BirdType::Blue, BirdType::Yellow, BirdType::Yellow],
        level_layout(2).blocks.len() == 6,
        level_layout(2).blocks[0] == (BlockPlacement { block_type: BlockType::Wood, x: 500, y: 530, width: 20, height: 60 }),
        level_layout(2).blocks[1] == (BlockPlacement { block_type: BlockType::Stone, x: 560, y: 530, width: 20, height: 60 }),
        level_layout(2).blocks[2] == (BlockPlacement { block_type: BlockType::Wood, x: 620, y: 530, width: 20, height: 60 }),
        level_layout(2).blocks[3] == (BlockPlacement { block_type: BlockType::Wood, x: 560, y: 490, width: 140, height: 15 }),
        level_layout(2).blocks[4] == (BlockPlacement { block_type: BlockType::Stone, x: 700, y: 530, width: 20, height: 60 }),
        level_layout(2).blocks[5] == (BlockPlacement { block_type: BlockType::Wood, x: 700, y: 490, width: 60, height: 15 }),
        level_layout(2).pigs.len() == 2,
        level_layout(2).pigs[0] == (PigPlacement { pig_size: PigSize::Small, x: 560, y: 465 }),
        level_layout(2).pigs[1] == (PigPlacement { pig_size: PigSize::Small, x: 700, y: 465 }),
        level_layout(3).birds =~= seq![BirdType::Red, BirdType::Yellow, BirdType::Blue, BirdType::White, BirdType::Yellow],
        level_layout(3).blocks.len() == 11,
        level_layout(3).blocks[0] == (BlockPlacement { block_type: BlockType::Ice, x: 480, y: 540, width: 15, height: 50 }),
        level_layout(3).blocks[1] == (BlockPlacement { block_type: BlockType::Ice, x: 540, y: 540, width: 15, height: 50 }),
        level_layout(3).blocks[2] == (BlockPlacement { block_type: BlockType::Wood, x: 510, y: 510, width: 80, height: 15 }),
        level_layout(3).blocks[3] == (BlockPlacement { block_type: BlockType::Ice, x: 510, y: 490, width: 60, height: 15 }),
        level_layout(3).blocks[4] == (BlockPlacement { block_type: BlockType::Stone, x: 620, y: 540, width: 25, height: 50 }),
        level_layout(3).blocks[5] == (BlockPlacement { block_type: BlockType::Ice, x: 680, y: 540, width: 15, height: 50 }),
        level_layout(3).blocks[6] == (BlockPlacement { block_type: BlockType::Wood, x: 650, y: 510, width: 80, height: 15 }),
        level_layout(3).blocks[7] == (BlockPlacement { block_type: BlockType::Ice, x: 650, y: 490, width: 60, height: 15 }),
        level_layout(3).blocks[8] == (BlockPlacement { block_type: BlockType::Wood, x: 510, y: 470, width: 20, height: 40 }),
        level_layout(3).blocks[9] == (BlockPlacement { block_type: BlockType::Wood, x: 650, y: 470, width: 20, height: 40 }),
        level_layout(3).blocks[10] == (BlockPlacement { block_type: BlockType::Wood, x: 580, y: 450, width: 160, height: 15 }),
        level_layout(3).pigs.len() == 3,
        level_layout(3).pigs[0] == (PigPlacement { pig_size: PigSize::Small, x: 510, y: 445 }),
        level_layout(3).pigs[1] == (PigPlacement { pig_size: PigSize::Small, x: 650, y: 445 }),
        level_layout(3).pigs[2] == (PigPlacement { pig_size: PigSize::Big, x: 580, y: 425 }),
        level_layout(4).birds =~= seq![BirdType::Blue, BirdType::Yellow, BirdType::Black, BirdType::Red, BirdType::White],
        level_layout(4).blocks.len() == 14,
        level_layout(4).blocks[0] == (BlockPlacement { block_type: BlockType::Stone, x: 450, y: 550, width: 30, height: 30 }),
        level_layout(4).blocks[1] == (BlockPlacement { block_type: BlockType::Wood, x: 500, y: 550, width: 15, height: 60 }),
        level_layout(4).blocks[2] == (BlockPlacement { block_type: BlockType::Stone, x: 550, y: 550, width: 30, height: 30 }),
        level_layout(4).blocks[3] == (BlockPlacement { block_type: BlockType::Wood, x: 475, y: 510, width: 80, height: 15 }),
        level_layout(4).blocks[4] == (BlockPlacement { block_type: BlockType::Wood, x: 525, y: 510, width: 80, height: 15 }),
        level_layout(4).blocks[5] == (BlockPlacement { block_type: BlockType::Ice, x: 500, y: 490, width: 20, height: 40 }),
        level_layout(4).blocks[6] == (BlockPlacement { block_type: BlockType::Ice, x: 550, y: 490, width: 20, height: 40 }),
        level_layout(4).blocks[7] == (BlockPlacement { block_type: BlockType::Wood, x: 525, y: 460, width: 100, height: 15 }),
        level_layout(4).blocks[8] == (BlockPlacement { block_type: BlockType::Stone, x: 650, y: 550, width: 25, height: 80 }),
        level_layout(4).blocks[9] == (BlockPlacement { block_type: BlockType::Wood, x: 700, y: 550, width: 15, height: 60 }),
        level_layout(4).blocks[10] == (BlockPlacement { block_type: BlockType::Stone, x: 750, y: 550, width: 25, height: 80 }),
        level_layout(4).blocks[11] == (BlockPlacement { block_type: BlockType::Wood, x: 675, y: 510, width: 120, height: 15 }),
        level_layout(4).blocks[12] == (BlockPlacement { block_type: BlockType::Ice, x: 650, y: 490, width: 60, height: 15 }),
        level_layout(4).blocks[13] == (BlockPlacement { block_type: BlockType::Ice, x: 700, y: 490, width: 60, height: 15 }),
        level_layout(4).pigs.len() == 4,
        level_layout(4).pigs[0] == (PigPlacement { pig_size: PigSize::Small, x: 500, y: 485 }),
        level_layout(4).pigs[1] == (PigPlacement { pig_size: PigSize::Small, x: 550, y: 485 }),
        level_layout(4).pigs[2] == (PigPlacement { pig_size: PigSize::Big, x: 675, y: 465 }),
        level_layout(4).pigs[3] == (PigPlacement { pig_size: PigSize::Small, x: 700, y: 485 }),
        level_layout(5).birds =~= seq![BirdType::Black, BirdType::Blue, BirdType::Yellow, BirdType::White, BirdType::Red, BirdType::Red],
        level_layout(5).blocks.len() == 20,
        level_layout(5).blocks[0] == (BlockPlacement { block_type: BlockType::Stone, x: 400, y: 560, width: 30, height: 30 }),
        level_layout(5).blocks[1] == (BlockPlacement { block_type: BlockType::Wood, x: 450, y: 560, width: 15, height: 80 }),
        level_layout(5).blocks[2] == (BlockPlacement { block_type: BlockType::Stone, x: 500, y: 560, width: 30, height: 30 }),
        level_layout(5).blocks[3] == (BlockPlacement { block_type: BlockType::Wood, x: 475, y: 510, width: 100, height: 15 }),
        level_layout(5).blocks[4] == (BlockPlacement { block_type: BlockType::Ice, x: 430, y: 510, width: 50, height: 15 }),
        level_layout(5).blocks[5] == (BlockPlacement { block_type: BlockType::Ice, x: 520, y: 510, width: 50, height: 15 }),
        level_layout(5).blocks[6] == (BlockPlacement { block_type: BlockType::Wood, x: 450, y: 490, width: 20, height: 40 }),
        level_layout(5).blocks[7] == (BlockPlacement { block_type: BlockType::Wood, x: 500, y: 490, width: 20, height: 40 }),
        level_layout(5).blocks[8] == (BlockPlacement { block_type: BlockType::Wood, x: 475, y: 460, width: 80, height: 15 }),
        level_layout(5).blocks[9] == (BlockPlacement { block_type: BlockType::Stone, x: 600, y: 560, width: 30, height: 60 }),
        level_layout(5).blocks[10] == (BlockPlacement { block_type: BlockType::Wood, x: 650, y: 560, width: 15, height: 60 }),
        level_layout(5).blocks[11] == (BlockPlacement { block_type: BlockType::Stone, x: 700, y: 560, width: 30, height: 60 }),
        level_layout(5).blocks[12] == (BlockPlacement { block_type: BlockType::Wood, x: 625, y: 520, width: 120, height: 15 }),
        level_layout(5).blocks[13] == (BlockPlacement { block_type: BlockType::Ice, x: 600, y: 500, width: 15, height: 40 }),
        level_layout(5).blocks[14] == (BlockPlacement { block_type: BlockType::Ice, x: 650, y: 500, width: 15, height: 40 }),
        level_layout(5).blocks[15] == (BlockPlacement { block_type: BlockType::Wood, x: 625, y: 470, width: 80, height: 15 }),
        level_layout(5).blocks[16] == (BlockPlacement { block_type: BlockType::Stone, x: 550, y: 400, width: 25, height: 25 }),
        level_layout(5).blocks[17] == (BlockPlacement { block_type: BlockType::Wood, x: 500, y: 400, width: 15, height: 60 }),
        level_layout(5).blocks[18] == (BlockPlacement { block_type: BlockType::Wood, x: 600, y: 400, width: 15, height: 60 }),
        level_layout(5).blocks[19] == (BlockPlacement { block_type: BlockType::Wood, x: 550, y: 360, width: 120, height: 15 }),
        level_layout(5).pigs.len() == 5,
        level_layout(5).pigs[0] == (PigPlacement { pig_size: PigSize::Small, x: 450, y: 485 }),
        level_layout(5).pigs[1] == (PigPlacement { pig_size: PigSize::Small, x: 500, y: 485 }),
        level_layout(5).pigs[2] == (PigPlacement { pig_size: PigSize::Big, x: 625, y: 455 }),
        level_layout(5).pigs[3] == (PigPlacement { pig_size: PigSize::Small, x: 650, y: 485 }),
        level_layout(5).pigs[4] == (PigPlacement { pig_size: PigSize::Big, x: 550, y: 335 }),
{
}

} // verus!
