use digger::cleanup::map as cmap;
use digger::cleanup::map::Tile as CTile;
use digger::gold_digger::map as gmap;
use digger::gold_digger::map::Tile as GTile;
use digger::grid::{
    BASE_COL_LEFT, BASE_COL_RIGHT, BASE_ROW_HIGH, BASE_ROW_LOW, BASE_X, BASE_Y, MAP_HEIGHT,
    MAP_WIDTH, MINERAL_TOP, TILE_SIZE,
};

fn cleanup_is_mineral(t: &cmap::Tile) -> bool {
    matches!(
        t,
        cmap::Tile::Stone
            | cmap::Tile::Silver
            | cmap::Tile::Gold
            | cmap::Tile::Diamond
            | cmap::Tile::TankUpgrade
            | cmap::Tile::Waste
    )
}

#[test]
fn cleanup_map_has_stated_extent() {
    let m = cmap::generate_map();
    assert_eq!(m.tiles.len(), MAP_HEIGHT);
    for row in &m.tiles {
        assert_eq!(row.len(), MAP_WIDTH);
    }
    assert_eq!(m.base, (BASE_X, BASE_Y));
    assert_eq!(m.tile_size, TILE_SIZE);
    assert_eq!(m.dimensions.x, MAP_WIDTH);
    assert_eq!(m.dimensions.y, MAP_HEIGHT);
}

#[test]
fn cleanup_map_is_walled_all_around() {
    let m = cmap::generate_map();
    for x in 0..MAP_WIDTH {
        assert_eq!(m.tiles[0][x], cmap::Tile::Border);
        assert_eq!(m.tiles[MAP_HEIGHT - 1][x], cmap::Tile::Border);
    }
    for y in 0..MAP_HEIGHT {
        assert_eq!(m.tiles[y][0], cmap::Tile::Border);
        assert_eq!(m.tiles[y][MAP_WIDTH - 1], cmap::Tile::Border);
    }
}

#[test]
fn cleanup_map_regions_hold() {
    let m = cmap::generate_map();
    for y in 1..=MINERAL_TOP {
        for x in 1..MAP_WIDTH - 1 {
            assert!(cleanup_is_mineral(&m.tiles[y][x]), "non-mineral at ({}, {})", x, y);
        }
    }
    for y in BASE_ROW_LOW..=BASE_ROW_HIGH {
        for x in 1..MAP_WIDTH - 1 {
            if x == BASE_COL_LEFT || x == BASE_COL_RIGHT {
                assert_eq!(m.tiles[y][x], cmap::Tile::Base);
            } else {
                assert_eq!(m.tiles[y][x], cmap::Tile::Background);
            }
        }
    }
    for y in BASE_ROW_HIGH + 1..MAP_HEIGHT - 1 {
        for x in 1..MAP_WIDTH - 1 {
            assert_eq!(m.tiles[y][x], cmap::Tile::Background);
        }
    }
}

#[test]
fn cleanup_set_and_get_tile_round_trip() {
    let mut m = cmap::generate_map();
    m.set_tile(7, 42, cmap::Tile::Waste);
    assert_eq!(m.get_tile(7, 42), cmap::Tile::Waste);
    assert_eq!(m.get_tile(0, 42), cmap::Tile::Border);
    assert_eq!(m.width(), MAP_WIDTH);
    assert_eq!(m.height(), MAP_HEIGHT);
}

#[test]
fn gold_digger_map_regions_hold() {
    let m = gmap::generate_map();
    assert_eq!(m.tiles.len(), MAP_HEIGHT);
    for row in &m.tiles {
        assert_eq!(row.len(), MAP_WIDTH);
    }
    assert_eq!(m.base, (BASE_X, BASE_Y));
    assert_eq!(m.tile_size, TILE_SIZE);
    for y in 0..=MINERAL_TOP {
        for x in 0..MAP_WIDTH {
            assert!(
                matches!(m.tiles[y][x], gmap::Tile::Stone | gmap::Tile::Gold),
                "non-mineral at ({}, {})",
                x,
                y
            );
        }
    }
    for y in BASE_ROW_LOW..=BASE_ROW_HIGH {
        for x in 0..MAP_WIDTH {
            if x == BASE_COL_LEFT || x == BASE_COL_RIGHT {
                assert_eq!(m.tiles[y][x], gmap::Tile::Base);
            } else {
                assert_eq!(m.tiles[y][x], gmap::Tile::Sky);
            }
        }
    }
    for y in BASE_ROW_HIGH + 1..MAP_HEIGHT {
        for x in 0..MAP_WIDTH {
            assert_eq!(m.tiles[y][x], gmap::Tile::Sky);
        }
    }
}

#[test]
fn cleanup_tile_tables() {
    for t in [
        CTile::Stone,
        CTile::Silver,
        CTile::Gold,
        CTile::Diamond,
        CTile::Border,
        CTile::TankUpgrade,
        CTile::Waste,
    ] {
        assert!(t.collides());
    }
    for t in [CTile::Background, CTile::Base] {
        assert!(!t.collides());
    }
    assert_eq!(CTile::Stone.mining_strength(), Some(10_000));
    assert_eq!(CTile::TankUpgrade.mining_strength(), Some(5_000));
    assert_eq!(CTile::Waste.mining_strength(), Some(5_000));
    assert_eq!(CTile::Silver.mining_strength(), Some(20_000));
    assert_eq!(CTile::Gold.mining_strength(), Some(30_000));
    assert_eq!(CTile::Diamond.mining_strength(), Some(50_000));
    assert_eq!(CTile::Border.mining_strength(), None);
    assert_eq!(CTile::Silver.effect(), Some(cmap::MiningEffect::Money(5_000)));
    assert_eq!(CTile::Gold.effect(), Some(cmap::MiningEffect::Money(20_000)));
    assert_eq!(CTile::Diamond.effect(), Some(cmap::MiningEffect::Money(50_000)));
    assert_eq!(CTile::TankUpgrade.effect(), Some(cmap::MiningEffect::TankUpgrade(5_000)));
    assert_eq!(CTile::Waste.effect(), Some(cmap::MiningEffect::CollectedWaste));
    assert_eq!(CTile::Background.effect(), None);
}

#[test]
fn cleanup_roll_table() {
    assert_eq!(CTile::from_roll(0), CTile::Silver);
    assert_eq!(CTile::from_roll(4), CTile::Silver);
    assert_eq!(CTile::from_roll(5), CTile::Gold);
    assert_eq!(CTile::from_roll(6), CTile::Gold);
    assert_eq!(CTile::from_roll(7), CTile::Diamond);
    assert_eq!(CTile::from_roll(8), CTile::Stone);
    assert_eq!(CTile::from_roll(99), CTile::Stone);
}

#[test]
fn gold_digger_tile_tables() {
    assert!(GTile::Stone.collides());
    assert!(GTile::Gold.collides());
    assert!(!GTile::Sky.collides());
    assert!(!GTile::Background.collides());
    assert!(!GTile::Base.collides());
    assert_eq!(GTile::Stone.mining_strength(), Some(15_000));
    assert_eq!(GTile::Gold.mining_strength(), Some(20_000));
    assert_eq!(GTile::Sky.mining_strength(), None);
    assert_eq!(GTile::Gold.value(), 10_000);
    assert_eq!(GTile::Stone.value(), 0);
    assert_eq!(GTile::from_roll(0), GTile::Stone);
    assert_eq!(GTile::from_roll(1), GTile::Gold);
}

#[test]
fn mineral_rolls_vary_and_placements_land() {
    let m = cmap::generate_map();
    let mut stone = 0usize;
    let mut silver = 0usize;
    let mut waste = 0usize;
    let mut upgrades = 0usize;
    for y in 1..=MINERAL_TOP {
        for x in 1..MAP_WIDTH - 1 {
            match m.tiles[y][x] {
                cmap::Tile::Stone => stone += 1,
                cmap::Tile::Silver => silver += 1,
                cmap::Tile::Waste => waste += 1,
                cmap::Tile::TankUpgrade => upgrades += 1,
                _ => {}
            }
        }
    }
    assert!(stone > 0);
    assert!(silver > 0);
    assert!((1..=10).contains(&waste));
    assert!(upgrades <= 6);
}
