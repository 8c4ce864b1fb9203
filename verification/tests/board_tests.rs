use chessian_gui::geometry::{
    cell_is_light, cell_square, display, display_center, display_xy, hovered_square,
    square_to_xy, square_under, window_size,
};
use chessian_gui::square::Square;

#[test]
fn square_new_masks_indices() {
    let s = Square::new(9, 10);
    assert_eq!(s, Square::new(1, 2));
    assert_eq!(s.rank, 1);
    assert_eq!(s.file, 2);
}

#[test]
fn square_index_round_trip() {
    for i in 0u8..64 {
        let s = Square::from_index(i);
        assert_eq!(s.to_index(), i);
    }
    let e4 = Square::new(3, 4);
    assert_eq!(e4.to_index(), 28);
    assert_eq!(Square::from_index(28), e4);
}

#[test]
fn square_names() {
    assert_eq!(Square::new(0, 0).name_chars(), ('a', '1'));
    assert_eq!(Square::new(3, 4).name_chars(), ('e', '4'));
    assert_eq!(Square::new(7, 7).name_chars(), ('h', '8'));
}

#[test]
fn invert_is_involution() {
    for i in 0u8..64 {
        let s = Square::from_index(i);
        assert_eq!(s.inverted().inverted(), s);
    }
    assert_eq!(Square::new(0, 0).inverted(), Square::new(7, 7));
    assert_eq!(Square::new(1, 4).inverted(), Square::new(6, 3));
}

#[test]
fn up_and_down_at_edges() {
    assert_eq!(Square::new(7, 3).up(), None);
    assert_eq!(Square::new(0, 3).down(), None);
    assert_eq!(Square::new(3, 3).up(), Some(Square::new(4, 3)));
    assert_eq!(Square::new(3, 3).down(), Some(Square::new(2, 3)));
    for i in 0u8..64 {
        let s = Square::from_index(i);
        if let Some(t) = s.up() {
            assert_eq!(t.down(), Some(s));
        }
    }
}

#[test]
fn square_to_xy_values() {
    assert_eq!(square_to_xy(Square::new(0, 0)), (0, 700));
    assert_eq!(square_to_xy(Square::new(7, 0)), (0, 0));
    assert_eq!(square_to_xy(Square::new(3, 4)), (400, 400));
}

#[test]
fn square_under_values() {
    assert_eq!(square_under(0, 0), Square::new(7, 0));
    assert_eq!(square_under(4, 7), Square::new(0, 4));
    // columns right of the board wrap, as the board library's file index does
    assert_eq!(square_under(10, 3), Square::new(4, 2));
}

#[test]
fn hovered_square_orientation() {
    assert_eq!(hovered_square(0, 7, false), Square::new(0, 0));
    assert_eq!(hovered_square(0, 7, true), Square::new(7, 7));
    assert_eq!(hovered_square(4, 4, true), Square::new(4, 3));
}

#[test]
fn hover_matches_drawn_cell_everywhere() {
    for invert in [false, true] {
        for x in 0u32..8 {
            for y in 0u32..8 {
                assert_eq!(hovered_square(x, y, invert), cell_square(x, y, invert));
            }
        }
    }
}

#[test]
fn display_xy_points_at_drawn_cell() {
    for invert in [false, true] {
        for i in 0u8..64 {
            let s = Square::from_index(i);
            let (px, py) = display_xy(s, invert);
            assert_eq!(px % 100, 0);
            assert_eq!(py % 100, 0);
            assert_eq!(cell_square(px / 100, py / 100, invert), s);
            assert_eq!(display_center(s, invert), (px + 50, py + 50));
        }
    }
    assert_eq!(display(Square::new(0, 0), true), Square::new(7, 7));
    assert_eq!(display_xy(Square::new(0, 0), true), (700, 0));
}

#[test]
fn shades_follow_the_chess_board() {
    for invert in [false, true] {
        for x in 0u32..8 {
            for y in 0u32..8 {
                let sq = cell_square(x, y, invert);
                let light_square = (sq.rank + sq.file) % 2 == 1;
                assert_eq!(cell_is_light(x, y), light_square);
            }
        }
    }
    // a8 is light and sits top left of the unturned board
    assert!(cell_is_light(0, 0));
    assert_eq!(cell_square(0, 0, false), Square::new(7, 0));
}

#[test]
fn window_is_board_bar_and_panel() {
    assert_eq!(window_size(), (1035, 800));
}
