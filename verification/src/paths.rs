use vstd::prelude::*;

verus! {

/// Where the engine's streaming loader finds each asset, relative to the
/// asset root.
pub struct AssetPaths {
    pub fira_sans: &'static str,
    pub texture_sky: &'static str,
    pub texture_digger: &'static str,
    pub texture_background: &'static str,
    pub texture_border: &'static str,
    pub texture_tank_upgrade: &'static str,
    pub texture_stone: &'static str,
    pub texture_stone_mining: &'static str,
    pub texture_gold: &'static str,
    pub texture_gold_mining: &'static str,
    pub texture_base: &'static str,
}

impl Default for AssetPaths {
    /// The fixed set of paths the games ship with.
    fn default() -> (r: AssetPaths)
        ensures
            r.fira_sans@ == "fonts/FiraSans-Bold.ttf"@,
            r.texture_sky@ == "textures/none.png"@,
            r.texture_digger@ == "textures/digger.png"@,
            r.texture_background@ == "textures/background.png"@,
            r.texture_border@ == "textures/border.png"@,
            r.texture_tank_upgrade@ == "textures/tank_upgrade.png"@,
            r.texture_stone@ == "textures/stone.png"@,
            r.texture_stone_mining@ == "textures/stone_mining.png"@,
            r.texture_gold@ == "textures/gold.png"@,
            r.texture_gold_mining@ == "textures/gold_mining.png"@,
            r.texture_base@ == "textures/base.png"@,
    {
        AssetPaths {
            fira_sans: "fonts/FiraSans-Bold.ttf",
            texture_sky: "textures/none.png",
            texture_digger: "textures/digger.png",
            texture_background: "textures/background.png",
            texture_border: "textures/border.png",
            texture_tank_upgrade: "textures/tank_upgrade.png",
            texture_stone: "textures/stone.png",
            texture_stone_mining: "textures/stone_mining.png",
            texture_gold: "textures/gold.png",
            texture_gold_mining: "textures/gold_mining.png",
            texture_base: "textures/base.png",
        }
    }
}

/// The texture that renders each tile kind.
pub fn tile_path(paths: &AssetPaths, t: &crate::gold_digger::map::Tile) -> (r: &'static str)
    ensures
        r@ == match *t {
            crate::gold_digger::map::Tile::Stone => paths.texture_stone@,
            crate::gold_digger::map::Tile::Gold => paths.texture_gold@,
            crate::gold_digger::map::Tile::Background => paths.texture_background@,
            crate::gold_digger::map::Tile::Base => paths.texture_base@,
            crate::gold_digger::map::Tile::Sky => paths.texture_sky@,
        },
{
    match t {
        crate::gold_digger::map::Tile::Stone => paths.texture_stone,
        crate::gold_digger::map::Tile::Gold => paths.texture_gold,
        crate::gold_digger::map::Tile::Background => paths.texture_background,
        crate::gold_digger::map::Tile::Base => paths.texture_base,
        crate::gold_digger::map::Tile::Sky => paths.texture_sky,
    }
}

} // verus!
