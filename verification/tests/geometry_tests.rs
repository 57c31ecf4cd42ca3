use tetris::geometry::Rotate90;
use tetris::geometry::Tetromino;
use tetris::geometry::Vec2;

fn all_kinds() -> Vec<Tetromino> {
    vec![
        Tetromino::IBlock,
        Tetromino::OBlock,
        Tetromino::TBlock,
        Tetromino::SBlock,
        Tetromino::ZBlock,
        Tetromino::JBlock,
        Tetromino::LBlock,
    ]
}

#[test]
fn rotate_90_quarter_turns() {
    let v = Vec2 { x: 1, y: 0 };
    assert_eq!(v.rotate_90(0), Vec2 { x: 1, y: 0 });
    assert_eq!(v.rotate_90(1), Vec2 { x: 0, y: 1 });
    assert_eq!(v.rotate_90(2), Vec2 { x: -1, y: 0 });
    assert_eq!(v.rotate_90(3), Vec2 { x: 0, y: -1 });
    let w = Vec2 { x: 2, y: -1 };
    assert_eq!(w.rotate_90(1), Vec2 { x: 1, y: 2 });
    assert_eq!(w.rotate_90(5), Vec2 { x: 1, y: 2 });
}

#[test]
fn rotate_four_times_is_identity() {
    for facing in 0u8..8 {
        for x in -3i32..4 {
            for y in -3i32..4 {
                let v = Vec2 { x, y };
                let r = v.rotate_90(facing).rotate_90(facing).rotate_90(facing).rotate_90(facing);
                assert_eq!(r, v);
            }
        }
    }
}

#[test]
fn blocks_are_four_distinct_offset_cells() {
    for kind in all_kinds() {
        let offsets = kind.block_offsets();
        assert_eq!(offsets.len(), 4);
        for facing in 0u8..4 {
            let origin = Vec2 { x: 7, y: 11 };
            let cells = kind.blocks(origin, facing);
            assert_eq!(cells.len(), 4);
            for i in 0..4 {
                let r = offsets[i].rotate_90(facing);
                assert_eq!(cells[i], Vec2 { x: origin.x + r.x, y: origin.y + r.y });
                for j in 0..i {
                    assert_ne!(cells[i], cells[j]);
                }
            }
        }
    }
}

#[test]
fn extents_of_i_piece() {
    let i = Tetromino::IBlock;
    assert_eq!(i.min_x(0), -1);
    assert_eq!(i.max_x(0), 2);
    assert_eq!(i.min_y(0), 0);
    assert_eq!(i.max_y(0), 0);
    assert_eq!(i.min_x(1), 0);
    assert_eq!(i.max_x(1), 0);
    assert_eq!(i.min_y(1), -1);
    assert_eq!(i.max_y(1), 2);
}

#[test]
fn extents_of_o_piece() {
    let o = Tetromino::OBlock;
    assert_eq!(o.min_x(0), 0);
    assert_eq!(o.max_x(0), 1);
    assert_eq!(o.min_y(0), 0);
    assert_eq!(o.max_y(0), 1);
}

#[test]
fn extents_stay_within_two_of_origin() {
    for kind in all_kinds() {
        for facing in 0u8..4 {
            assert!(kind.min_x(facing) >= -2 && kind.max_x(facing) <= 2);
            assert!(kind.min_y(facing) >= -2 && kind.max_y(facing) <= 2);
            assert!(kind.min_x(facing) <= kind.max_x(facing));
            assert!(kind.min_y(facing) <= kind.max_y(facing));
        }
    }
}

#[test]
fn block_rect_scales_by_cell_size() {
    assert_eq!(tetris::geometry::block_rect(Vec2 { x: 0, y: 0 }), (0, 0, 32, 32));
    assert_eq!(tetris::geometry::block_rect(Vec2 { x: 3, y: 7 }), (96, 224, 32, 32));
    assert_eq!(
        tetris::geometry::block_rect(Vec2 { x: 15, y: 31 }),
        (15 * 32, 31 * 32, 32, 32)
    );
}

#[test]
fn colors_are_the_fixed_palette() {
    assert_eq!(Tetromino::IBlock.color(), (66, 241, 244));
    assert_eq!(Tetromino::OBlock.color(), (233, 237, 42));
    assert_eq!(Tetromino::TBlock.color(), (182, 42, 237));
    assert_eq!(Tetromino::SBlock.color(), (88, 237, 42));
    assert_eq!(Tetromino::ZBlock.color(), (226, 50, 27));
    assert_eq!(Tetromino::JBlock.color(), (22, 75, 221));
    assert_eq!(Tetromino::LBlock.color(), (219, 108, 17));
}

#[test]
fn index_maps_to_each_kind() {
    let expected = all_kinds();
    let order = [
        Tetromino::IBlock,
        Tetromino::OBlock,
        Tetromino::TBlock,
        Tetromino::SBlock,
        Tetromino::ZBlock,
        Tetromino::JBlock,
        Tetromino::LBlock,
    ];
    assert_eq!(expected.len(), order.len());
    for i in 0..7 {
        assert_eq!(tetris::geometry::tetromino_from_index(i as i32), order[i]);
    }
}
