//! Cover art: which image is held and how it is drawn.

use ferrosonic::ui::cover_art::{
    blit_cells, cells_fit, chafa_paths, chafa_sonames, is_chafa_store_entry, query_cell_size, CellArea,
    CellColor, ChafaCache, CoverArtState, DrawPath, EncodedCell, GraphicsProtocol, WindowSize,
};
use ratatui::layout::Size;
use ratatui_image::picker::{Picker, ProtocolType};
use ratatui_image::Resize;

/// A PNG of the given size.
fn png(width: u32, height: u32) -> Vec<u8> {
    let mut out = std::io::Cursor::new(Vec::new());
    image::DynamicImage::new_rgb8(width, height)
        .write_to(&mut out, image::ImageFormat::Png)
        .unwrap();
    out.into_inner()
}

fn state() -> CoverArtState {
    CoverArtState::init(None, Some(Picker::halfblocks()))
}

fn cell(ch: char) -> EncodedCell {
    EncodedCell {
        ch,
        fg: CellColor::Reset,
        bg: CellColor::Rgb(1, 2, 3),
    }
}

#[test]
fn cell_size_comes_from_the_terminal_then_the_font() {
    assert_eq!(state().cell_size, (10, 20));
    let s = CoverArtState::init(Some((9, 18)), Some(Picker::halfblocks()));
    assert_eq!(s.cell_size, (9, 18));
    assert_eq!(CoverArtState::init(None, None).cell_size, (10, 20));
    let s = CoverArtState::on_terminal(None, None, None, Some((7, 15)));
    assert_eq!(s.cell_size, (7, 15));
    let mut picker = Picker::halfblocks();
    let font = picker.font_size();
    for (kind, named) in [
        (ProtocolType::Halfblocks, GraphicsProtocol::Halfblocks),
        (ProtocolType::Sixel, GraphicsProtocol::Sixel),
        (ProtocolType::Kitty, GraphicsProtocol::Kitty),
        (ProtocolType::Iterm2, GraphicsProtocol::Iterm2),
    ] {
        picker.set_protocol_type(kind);
        let s = CoverArtState::init(None, Some(picker.clone()));
        assert_eq!(s.protocol_type, Some(named));
        assert_eq!(s.cell_size, (font.width, font.height));
    }
    let window = |xpixel, ypixel, col, row| {
        Some(WindowSize {
            xpixel,
            ypixel,
            col,
            row,
        })
    };
    assert_eq!(query_cell_size(window(805, 480, 80, 24)), Some((10, 20)));
    for w in [
        window(0, 480, 80, 24),
        window(800, 0, 80, 24),
        window(800, 480, 0, 24),
        window(800, 480, 80, 0),
        None,
    ] {
        assert_eq!(query_cell_size(w), None);
    }
}

#[test]
fn awaited_bytes_are_decoded_and_held() {
    let mut s = state();
    s.set_pending("a".to_string());
    s.load("a".to_string(), &png(3, 2));
    assert_eq!(s.current_id.as_deref(), Some("a"));
    let image = s.image.as_ref().unwrap();
    assert_eq!((image.width(), image.height()), (3, 2));
    assert!(s.protocol.is_some());
    assert!(!s.wants("a"), "it is held already");
    s.load("a".to_string(), &png(9, 9));
    assert_eq!(s.image.as_ref().unwrap().width(), 3);
}

#[test]
fn the_newest_image_is_the_one_prepared() {
    let mut s = state();
    assert_eq!(s.cell_size, (10, 20));
    let cells = |s: &CoverArtState| {
        s.protocol
            .as_ref()
            .unwrap()
            .size_for(Resize::Fit(None), Size::new(50, 50))
    };
    s.load("a".to_string(), &png(30, 40));
    assert_eq!(cells(&s), Size::new(3, 2));
    s.set_pending("b".to_string());
    s.load("b".to_string(), &png(50, 60));
    assert_eq!(cells(&s), Size::new(5, 3));
    s.commit("c".to_string(), Some(image::DynamicImage::new_rgb8(70, 20)));
    assert_eq!(s.current_id.as_deref(), Some("c"));
    assert_eq!(cells(&s), Size::new(7, 1));
}

#[test]
fn superseded_bytes_are_ignored() {
    let mut s = state();
    s.set_pending("b".to_string());
    s.load("a".to_string(), &png(3, 2));
    assert_eq!(s.current_id.as_deref(), Some("b"));
    assert!(s.image.is_none());
    s.fail_pending("a");
    assert_eq!(s.current_id.as_deref(), Some("b"), "a newer fetch goes on");
    s.fail_pending("b");
    assert_eq!(s.current_id, None, "the next change tries again");
    assert!(s.wants("a"));
}

#[test]
fn bytes_that_do_not_decode_leave_nothing() {
    let mut s = state();
    s.set_pending("a".to_string());
    s.load("a".to_string(), b"no image");
    assert_eq!(s.current_id, None);
    assert!(s.image.is_none() && s.protocol.is_none());
    let mut plain = CoverArtState::init(None, None);
    plain.load("a".to_string(), &png(1, 1));
    assert_eq!(plain.current_id, None, "no graphics, no image");
    s.commit("z".to_string(), None);
    assert_eq!(s.current_id, None);
}

#[test]
fn cells_are_cached_for_one_size() {
    let mut s = state();
    assert_eq!(s.draw_path(true, 2, 1), DrawPath::Nothing);
    s.load("a".to_string(), &png(3, 2));
    assert_eq!(s.draw_path(false, 2, 1), DrawPath::Protocol);
    assert_eq!(s.draw_path(true, 2, 1), DrawPath::Encode);
    assert_eq!(s.ensure_chafa(2, 1, None), DrawPath::Protocol);
    assert_eq!(
        s.ensure_chafa(2, 1, Some(vec![cell('a'), cell('b')])),
        DrawPath::Cells
    );
    assert_eq!(s.draw_path(true, 2, 1), DrawPath::Cells);
    assert_eq!(s.draw_path(true, 3, 1), DrawPath::Encode);
    s.protocol_type = Some(GraphicsProtocol::Kitty);
    assert_eq!(s.draw_path(true, 2, 1), DrawPath::Protocol);
    s.clear();
    assert!(s.chafa_cache.is_none());
    assert_eq!(s.draw_path(true, 2, 1), DrawPath::Nothing);
}

#[test]
fn cells_are_placed_row_by_row_within_the_area() {
    let cache = ChafaCache {
        width: 3,
        height: 2,
        cells: vec![cell('a'), cell('b'), cell('c'), cell('d'), cell('e')],
    };
    let at = |width, height| -> Vec<(u16, u16, char)> {
        blit_cells(
            CellArea {
                x: 10,
                y: 20,
                width,
                height,
            },
            &cache,
        )
        .iter()
        .map(|p| (p.x, p.y, p.cell.ch))
        .collect()
    };
    assert_eq!(
        at(3, 2),
        vec![
            (10, 20, 'a'),
            (11, 20, 'b'),
            (12, 20, 'c'),
            (10, 21, 'd'),
            (11, 21, 'e'),
        ]
    );
    assert_eq!(at(2, 9), vec![(10, 20, 'a'), (11, 20, 'b'), (10, 21, 'd'), (11, 21, 'e')]);
    assert_eq!(at(9, 1).len(), 3);
    assert!(at(0, 5).is_empty());
}

#[test]
fn only_drawn_cells_need_a_place() {
    let cache = ChafaCache {
        width: 3,
        height: 2,
        cells: vec![cell('a'), cell('b'), cell('c'), cell('d')],
    };
    let at = |x, y, width, height| CellArea {
        x,
        y,
        width,
        height,
    };
    // The area goes past the edge, the cells do not.
    let wide = at(65_533, 65_534, 9, 9);
    assert!(cells_fit(wide, &cache));
    let placed: Vec<(u16, u16, char)> = blit_cells(wide, &cache)
        .into_iter()
        .map(|p| (p.x, p.y, p.cell.ch))
        .collect();
    assert_eq!(
        placed,
        [
            (65_533, 65_534, 'a'),
            (65_534, 65_534, 'b'),
            (65_535, 65_534, 'c'),
            (65_533, 65_535, 'd'),
        ]
    );
    assert!(!cells_fit(at(65_534, 0, 9, 9), &cache));
    assert!(cells_fit(at(65_534, 0, 2, 9), &cache));
    assert!(!cells_fit(at(0, 65_535, 9, 9), &cache));
    assert!(cells_fit(at(65_535, 65_535, 9, 0), &cache));
}

#[test]
fn chafa_is_looked_for_in_order() {
    assert_eq!(
        chafa_sonames(),
        vec!["libchafa.so.0", "libchafa.so", "libchafa.dylib"]
    );
    assert_eq!(chafa_paths().len(), 9);
    assert_eq!(chafa_paths()[0], "/usr/lib/libchafa.so.0");
    assert_eq!(chafa_paths()[8], "/usr/local/lib/libchafa.dylib");
    assert!(is_chafa_store_entry("abc-chafa-1.14.0"));
    for name in ["abc-chafa-1.14-bin", "abc-chafa-1.14-dev", "abc-chafa-1-man", "abc-chafb-1"] {
        assert!(!is_chafa_store_entry(name), "{name}");
    }
}
