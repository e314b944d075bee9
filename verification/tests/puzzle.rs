use image::DynamicImage;
use mltd::error::{ErrorKind, Repr};
use image::{GenericImageView, Rgba};
use mltd::extract::puzzle::{piece_map, solve_puzzle, PieceRect, PuzzleError};

fn rects(n: u32) -> Vec<PieceRect> {
    (0..n).map(|i| PieceRect { x: i, y: 0, width: 1, height: 1 }).collect()
}

#[test]
fn layouts() {
    let card = piece_map("card").unwrap();
    assert_eq!((card.width, card.height, card.img_count, card.pieces.len()), (640, 800, 2, 6));
    let big = piece_map("card_big").unwrap();
    assert_eq!(big.pieces[1].rotate, 270);
    assert!(piece_map("icon").is_none());
}

#[test]
fn card_puzzle_gives_two_pictures() {
    let img = DynamicImage::new_rgba8(16, 16);
    let pictures = solve_puzzle("001har0001_0", &img, &rects(12)).unwrap();
    assert_eq!(pictures.len(), 2);
    assert_eq!((pictures[0].width(), pictures[0].height()), (640, 800));
}

#[test]
fn unknown_and_unsolved_puzzles() {
    let img = DynamicImage::new_rgba8(4, 4);
    let err = solve_puzzle("nothing", &img, &rects(1)).unwrap_err();
    assert_eq!(err.kind(), ErrorKind::Puzzle);
    match err.repr() {
        Repr::Puzzle(PuzzleError::PuzzleNotFound(n)) => assert_eq!(n, "nothing"),
        _ => panic!("expected a missing puzzle"),
    }
    let err = solve_puzzle("icon_001har0001", &img, &rects(1)).unwrap_err();
    match err.repr() {
        Repr::Puzzle(PuzzleError::NotImplemented(n)) => assert_eq!(n, "icon"),
        _ => panic!("expected an unsolved puzzle"),
    }
}

#[test]
fn too_many_pieces_are_refused() {
    let img = DynamicImage::new_rgba8(4, 4);
    let err = solve_puzzle("001har0001_0_bg", &img, &rects(3)).unwrap_err();
    assert_eq!(err.kind(), ErrorKind::Puzzle);
    match err.repr() {
        Repr::Puzzle(PuzzleError::TooManyPieces(given, placed)) => assert_eq!((*given, *placed), (3, 2)),
        _ => panic!("expected too many pieces"),
    }
    assert_eq!(solve_puzzle("001har0001_0_bg", &img, &rects(2)).unwrap().len(), 1);
}

#[test]
fn pieces_are_flipped_turned_and_placed() {
    let mut img = DynamicImage::new_rgba8(4, 4);
    let red = Rgba([255, 0, 0, 255]);
    let green = Rgba([0, 255, 0, 255]);
    let blue = Rgba([0, 0, 255, 255]);
    if let DynamicImage::ImageRgba8(buf) = &mut img {
        buf.put_pixel(0, 0, red);
        buf.put_pixel(0, 1, green);
        buf.put_pixel(2, 0, blue);
    }
    let pieces = [
        PieceRect { x: 0, y: 0, width: 1, height: 2 },
        PieceRect { x: 2, y: 0, width: 2, height: 1 },
    ];
    let out = solve_puzzle("001har0001_0_bg", &img, &pieces).unwrap();
    assert_eq!(out.len(), 1);
    let pic = &out[0];
    assert_eq!(pic.dimensions(), (1280, 720));
    // the first piece is flipped upside down and put at (0, 0)
    assert_eq!(pic.get_pixel(0, 0), green);
    assert_eq!(pic.get_pixel(0, 1), red);
    // the second is turned by 270 degrees and put at (1022, 0)
    assert_eq!(pic.get_pixel(1022, 1), blue);
    assert_eq!(pic.get_pixel(1022, 0), Rgba([0, 0, 0, 0]));
    assert_eq!(pic.get_pixel(5, 5), Rgba([0, 0, 0, 0]));
}
