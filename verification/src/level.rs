//! The level grid: a flat list of static solids populated once at load and
//! only queried afterwards, plus the world placement data a level carries.

use vstd::prelude::*;

use crate::config::{CFG_LIMIT, HALF_BLOCK, POS_LIMIT, TILE_LIMIT};
use crate::math::lemma_mul_bounds;
use crate::model::{SolidModel, occupied};
use crate::physics::{HitBox, Solid, Vec2, Vec3};

verus! {

/// A loaded level: its world placement, block size, the grid of solids,
/// and where the player spawns.
pub struct Level {
    pub world_pos: Vec3,
    pub block_size: Vec2,
    pub grid: Vec<Solid>,
    pub player_spawn_pos: Vec2,
}

impl Level {
    /// The grid as a sequence of solid models.
    pub open spec fn grid_view(&self) -> Seq<SolidModel> {
        Seq::new(self.grid@.len(), |i: int| self.grid@[i]@)
    }

    /// Ranges under which grid queries and tile placement stay in `i64`.
    pub open spec fn wf(&self) -> bool {
        &&& -POS_LIMIT / 2 <= self.world_pos.x <= POS_LIMIT / 2
        &&& -POS_LIMIT / 2 <= self.world_pos.y <= POS_LIMIT / 2
        &&& -POS_LIMIT / 2 <= self.world_pos.z <= POS_LIMIT / 2
        &&& 1 <= self.block_size.x <= CFG_LIMIT
        &&& 1 <= self.block_size.y <= CFG_LIMIT
        &&& forall|i: int| 0 <= i < self.grid@.len() ==> (#[trigger] self.grid@[i]).wf()
    }

    /// An empty level placed in the world, ready to take tiles.
    pub fn new(world_pos: Vec3, block_size: Vec2, player_spawn_pos: Vec2) -> (level: Level)
        requires
            -POS_LIMIT / 2 <= world_pos.x <= POS_LIMIT / 2,
            -POS_LIMIT / 2 <= world_pos.y <= POS_LIMIT / 2,
            -POS_LIMIT / 2 <= world_pos.z <= POS_LIMIT / 2,
            1 <= block_size.x <= CFG_LIMIT,
            1 <= block_size.y <= CFG_LIMIT,
        ensures
            level.wf(),
            level.world_pos == world_pos,
            level.block_size == block_size,
            level.player_spawn_pos == player_spawn_pos,
            level.grid@.len() == 0,
    {
        Level { world_pos, block_size, grid: Vec::new(), player_spawn_pos }
    }

    /// Append the solid for one tile, given by its column and row index in
    /// the grid and its texture name. The solid's center sits half a block
    /// past the level's world position, plus the index times the block
    /// size; its half extents are half a block.
    pub fn add_tile(&mut self, tile: (i64, i64, String)) -> (r: &mut Level)
        requires
            old(self).wf(),
            -TILE_LIMIT <= tile.0 <= TILE_LIMIT,
            -TILE_LIMIT <= tile.1 <= TILE_LIMIT,
        ensures
            *final(self) == *final(r),
            r.wf(),
            r.grid@.len() == old(self).grid@.len() + 1,
            forall|i: int| 0 <= i < old(self).grid@.len() ==> r.grid@[i] == old(self).grid@[i],
            r.grid@[old(self).grid@.len() as int]@ == (SolidModel {
                x: old(self).world_pos.x + old(self).block_size.x / 2 + old(
                    self,
                ).block_size.x * tile.0,
                y: old(self).world_pos.y + old(self).block_size.y / 2 + old(
                    self,
                ).block_size.y * tile.1,
                hx: HALF_BLOCK as int,
                hy: HALF_BLOCK as int,
            }),
            r.grid@[old(self).grid@.len() as int].texture_file == tile.2,
            r.world_pos == old(self).world_pos,
            r.block_size == old(self).block_size,
            r.player_spawn_pos == old(self).player_spawn_pos,
    {
        proof {
            lemma_mul_bounds(self.block_size.x as int, tile.0 as int, CFG_LIMIT as int, TILE_LIMIT as int);
            lemma_mul_bounds(self.block_size.y as int, tile.1 as int, CFG_LIMIT as int, TILE_LIMIT as int);
        }
        let solid = Solid {
            pos_x: (self.world_pos.x + crate::math::div_fx(self.block_size.x, 2))
                + self.block_size.x * tile.0,
            pos_y: (self.world_pos.y + crate::math::div_fx(self.block_size.y, 2))
                + self.block_size.y * tile.1,
            texture_file: tile.2,
            bounds: HitBox {
                half_size: Vec2 {
                    x: HALF_BLOCK,
                    y: HALF_BLOCK,
                },
            },
        };
        self.grid.push(solid);
        self
    }

    /// Find the first solid, by grid insertion order, whose closed bounds
    /// contain the point; `None` when the point is in open air.
    pub fn query_point(&self, x: i64, y: i64) -> (r: Option<usize>)
        requires
            self.wf(),
        ensures
            match r {
                Some(i) => 0 <= i < self.grid@.len() && self.grid_view()[i as int].contains(
                    x as int,
                    y as int,
                ) && forall|j: int| 0 <= j < i ==> !(#[trigger] self.grid_view()[j]).contains(
                    x as int,
                    y as int,
                ),
                None => !occupied(self.grid_view(), x as int, y as int),
            },
            r is Some <==> occupied(self.grid_view(), x as int, y as int),
    {
        let mut i: usize = 0;
        while i < self.grid.len()
            invariant
                self.wf(),
                0 <= i <= self.grid@.len(),
                forall|j: int| 0 <= j < i ==> !(#[trigger] self.grid_view()[j]).contains(
                    x as int,
                    y as int,
                ),
            decreases self.grid@.len() - i,
        {
            if self.grid[i].contains(x, y) {
                proof {
                    assert(occupied(self.grid_view(), x as int, y as int)) by {
                        assert(0 <= i < self.grid_view().len() && self.grid_view()[i as int]
                            .contains(x as int, y as int));
                    }
                }
                return Some(i);
            }
            i = i + 1;
        }
        None
    }
}

} // verus!
