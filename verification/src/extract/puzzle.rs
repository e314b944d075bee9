//! Sprite-sheet puzzles: some textures hold the pieces of one or more
//! pictures, which are cut out, turned and laid out again.

use vstd::prelude::*;

use image::DynamicImage;

use crate::chars::push_chars;
use crate::error::{Error, Repr};

verus! {

/// An image, kept as the `image` crate holds it.
#[verifier::external_type_specification]
#[verifier::external_body]
pub struct ExDynamicImage(image::DynamicImage);

/// The puzzles by name, each with the pattern of the texture names it
/// applies to.
pub const NAME_PUZZLE_MAP: [(&'static str, &'static str); 15] = [
    ("bg", "^bg2d_[a-z0-9][0-9]{2,3}$"),
    ("bg_thumb", "^bg2d_[a-z0-9][0-9]{2,3}_thumb$"),
    ("card", "^[0-9]{3}[a-z]{3}[0-9]{4}_[0-9]$"),
    ("card_big", "^[0-9]{3}[a-z]{3}[0-9]{4}_[0-9]_bg$"),
    ("event_bg", "^mycard_bg_(?:event|other)_[0-9]{4}$"),
    ("event_logo", "^mycard_logo_event_[0-9]{4}$"),
    ("four_comic_thumb", "^ex4c[0-9]{5}_thumb$"),
    ("one_comic", "^hitokoma_[0-9]{2,6}$"),
    ("one_comic_thumb", "^hitokoma_[0-9]{2,6}_thumb$"),
    ("icon", "^icon_[0-9]{3}[a-z]{3}[0-9]{4}$"),
    ("jacket", "^jacket_[a-z0-9]{6}$"),
    ("jacket_small", "^jacket_[a-z0-9]{6}_small$"),
    ("live_skill", "^live_skill_[0-9]{3}$"),
    ("loading_character", "^loadingchara(?:_[0-9]{2}){1,2}?$"),
    ("whiteboard", "^exwb[0-9]{7}$"),
];

/// Where a piece goes in the solved picture, and how far it is turned
/// (0, 90, 180 or 270 degrees).
#[derive(Debug, Clone, Copy, PartialEq, Eq, Structural)]
pub struct Piece {
    pub x: i64,
    pub y: i64,
    pub rotate: u32,
}

/// A puzzle: the size of each solved picture, where its pieces go, and
/// how many pictures one texture holds.
#[derive(Debug, Clone)]
pub struct Puzzle {
    pub width: u32,
    pub height: u32,
    pub pieces: Vec<Piece>,
    pub img_count: usize,
}

/// The abstract value of a [`Puzzle`].
pub struct PuzzleView {
    pub width: u32,
    pub height: u32,
    pub pieces: Seq<Piece>,
    pub img_count: usize,
}

impl View for Puzzle {
    type V = PuzzleView;

    open spec fn view(&self) -> PuzzleView {
        PuzzleView { width: self.width, height: self.height, pieces: self.pieces@, img_count: self.img_count }
    }
}

/// The layout of the puzzles that are solved: cards (two 640x800
/// pictures of six pieces) and big cards (one 1280x720 picture of two
/// pieces, the second turned by 270 degrees).
pub open spec fn puzzle_of(name: Seq<char>) -> Option<PuzzleView> {
    if name == "card"@ {
        Some(PuzzleView {
            width: 640,
            height: 800,
            pieces: seq![
                Piece { x: 0, y: 0, rotate: 0 },
                Piece { x: 0, y: 510, rotate: 0 },
                Piece { x: 380, y: 510, rotate: 0 },
                Piece { x: 380, y: 728, rotate: 0 },
                Piece { x: 498, y: 728, rotate: 0 },
                Piece { x: 616, y: 728, rotate: 0 },
            ],
            img_count: 2,
        })
    } else if name == "card_big"@ {
        Some(PuzzleView {
            width: 1280,
            height: 720,
            pieces: seq![Piece { x: 0, y: 0, rotate: 0 }, Piece { x: 1022, y: 0, rotate: 270 }],
            img_count: 1,
        })
    } else {
        None
    }
}

/// The layout of the puzzle named `puzzle_name`, if it is solved.
pub fn piece_map(puzzle_name: &str) -> (r: Option<Puzzle>)
    ensures
        match r {
            Some(p) => puzzle_of(puzzle_name@) == Some(p@),
            None => puzzle_of(puzzle_name@) is None,
        },
{
    if crate::chars::same_text(puzzle_name, "card") {
        let pieces = vec![
            Piece { x: 0, y: 0, rotate: 0 },
            Piece { x: 0, y: 510, rotate: 0 },
            Piece { x: 380, y: 510, rotate: 0 },
            Piece { x: 380, y: 728, rotate: 0 },
            Piece { x: 498, y: 728, rotate: 0 },
            Piece { x: 616, y: 728, rotate: 0 },
        ];
        let p = Puzzle { width: 640, height: 800, pieces, img_count: 2 };
        assert(p@.pieces =~= puzzle_of(puzzle_name@).unwrap().pieces);
        Some(p)
    } else if crate::chars::same_text(puzzle_name, "card_big") {
        let pieces = vec![Piece { x: 0, y: 0, rotate: 0 }, Piece { x: 1022, y: 0, rotate: 270 }];
        let p = Puzzle { width: 1280, height: 720, pieces, img_count: 1 };
        assert(p@.pieces =~= puzzle_of(puzzle_name@).unwrap().pieces);
        Some(p)
    } else {
        None
    }
}

/// Whether the pattern `pattern` matches `text`, or `None` if the
/// pattern is not a valid regular expression.
pub uninterp spec fn regex_matches(pattern: Seq<char>, text: Seq<char>) -> Option<bool>;

/// Compiles `pattern` with `regex::Regex::new` and tests it on `text`
/// with `Regex::is_match`.
///
/// Trusted: the result is the regex crate's answer for these two
/// strings, `None` when the pattern does not compile.
#[verifier::external_body]
fn regex_is_match(pattern: &str, text: &str) -> (r: Option<bool>)
    ensures
        r == regex_matches(pattern@, text@),
{
    match regex::Regex::new(pattern) {
        Ok(re) => Some(re.is_match(text)),
        Err(_) => None,
    }
}

/// The first puzzle at or after `i` whose pattern matches `name`.
pub open spec fn first_puzzle_from(name: Seq<char>, i: int) -> Option<int>
    decreases 15 - i,
{
    if i >= 15 || i < 0 {
        None
    } else if regex_matches(NAME_PUZZLE_MAP[i].1@, name) == Some(true) {
        Some(i)
    } else {
        first_puzzle_from(name, i + 1)
    }
}

/// The first puzzle whose pattern matches the texture name `name`.
pub open spec fn first_puzzle(name: Seq<char>) -> Option<int> {
    first_puzzle_from(name, 0)
}

/// Finds the first puzzle whose pattern matches `name`.
fn find_puzzle(name: &str) -> (r: Option<usize>)
    ensures
        match r {
            Some(i) => first_puzzle(name@) == Some(i as int) && i < 15,
            None => first_puzzle(name@) is None,
        },
{
    let map = NAME_PUZZLE_MAP;
    let mut i: usize = 0;
    while i < 15
        invariant
            i <= 15,
            map == NAME_PUZZLE_MAP,
            first_puzzle(name@) == first_puzzle_from(name@, i as int),
        decreases 15 - i,
    {
        if regex_is_match(map[i].1, name) == Some(true) {
            return Some(i);
        }
        i += 1;
    }
    None
}

/// Why a puzzle could not be solved.
#[derive(Debug, Clone, PartialEq, Eq)]
pub enum PuzzleError {
    /// No puzzle applies to the texture of this name.
    PuzzleNotFound(String),
    /// The puzzle of this name is not solved yet.
    NotImplemented(String),
    /// Each picture would get this many pieces, more than the layout
    /// places (the second number).
    TooManyPieces(usize, usize),
}

/// The puzzle layout for the texture `name`, or why there is none.
pub open spec fn puzzle_for(name: Seq<char>) -> Result<PuzzleView, Seq<char>> {
    match first_puzzle(name) {
        None => Err(name),
        Some(i) => match puzzle_of(NAME_PUZZLE_MAP[i].0@) {
            None => Err(NAME_PUZZLE_MAP[i].0@),
            Some(p) => Ok(p),
        },
    }
}

/// Whether `n` pieces fit the puzzle of texture `name`: each picture takes
/// `n / img_count` of them, which its layout must place.
pub open spec fn pieces_fit(name: Seq<char>, n: nat) -> bool {
    match puzzle_for(name) {
        Ok(p) => n / (p.img_count as nat) <= p.pieces.len(),
        Err(_) => true,
    }
}

/// Finds the puzzle of texture `name`.
fn puzzle_for_texture(name: &str) -> (r: Result<Puzzle, PuzzleError>)
    ensures
        match r {
            Ok(p) => puzzle_for(name@) matches Ok(pv) && pv == p@,
            Err(PuzzleError::PuzzleNotFound(n)) => first_puzzle(name@) is None && n@ == name@,
            Err(PuzzleError::NotImplemented(n)) => first_puzzle(name@) matches Some(i)
                && puzzle_of(NAME_PUZZLE_MAP[i].0@) is None && n@ == NAME_PUZZLE_MAP[i].0@,
            Err(PuzzleError::TooManyPieces(..)) => false,
        },
{
    let map = NAME_PUZZLE_MAP;
    match find_puzzle(name) {
        None => {
            let mut n = String::new();
            push_chars(&mut n, name);
            Err(PuzzleError::PuzzleNotFound(n))
        },
        Some(i) => match piece_map(map[i].0) {
            None => {
                let mut n = String::new();
                push_chars(&mut n, map[i].0);
                Err(PuzzleError::NotImplemented(n))
            },
            Some(p) => Ok(p),
        },
    }
}

/// A piece of the texture: where it is and its size.
#[derive(Debug, Clone, Copy, PartialEq, Eq, Structural)]
pub struct PieceRect {
    pub x: u32,
    pub y: u32,
    pub width: u32,
    pub height: u32,
}

/// The width and height of an image, and whether it holds 8-bit RGBA
/// pixels (`DynamicImage::ImageRgba8`).
pub uninterp spec fn image_shape(img: DynamicImage) -> (u32, u32, bool);

/// The pixels of an image row by row, each as `get_pixel` gives it in
/// RGBA, packed as `0xRRGGBBAA`.
pub uninterp spec fn image_pixels(img: DynamicImage) -> Seq<u32>;

/// What `Rgba::<u8>::blend` makes of a `bottom` pixel when a partly
/// transparent `top` pixel is drawn over it (floating-point compositing).
pub uninterp spec fn rgba_blend(bottom: u32, top: u32) -> u32;

/// A picture: its size and its pixels row by row, packed as `0xRRGGBBAA`.
pub struct Picture {
    pub width: int,
    pub height: int,
    pub pixels: Seq<u32>,
}

/// The picture an image holds.
pub open spec fn picture_of(img: DynamicImage) -> Picture {
    Picture {
        width: image_shape(img).0 as int,
        height: image_shape(img).1 as int,
        pixels: image_pixels(img),
    }
}

/// The pixel at column `x` and row `y`.
pub open spec fn pixel(p: Picture, x: int, y: int) -> u32 {
    p.pixels[y * p.width + x]
}

/// A transparent picture of the given size.
pub open spec fn blank_picture(width: int, height: int) -> Picture {
    Picture { width, height, pixels: Seq::new((width * height) as nat, |k: int| 0u32) }
}

/// The part of `p` that starts at `(x, y)` and is `w` by `h` pixels,
/// cut short where it would pass the edges of `p`.
pub open spec fn crop_picture(p: Picture, x: int, y: int, w: int, h: int) -> Picture {
    let cx = if x < p.width { x } else { p.width };
    let cy = if y < p.height { y } else { p.height };
    let cw = if w < p.width - cx { w } else { p.width - cx };
    let ch = if h < p.height - cy { h } else { p.height - cy };
    Picture { width: cw, height: ch, pixels: Seq::new((cw * ch) as nat, |k: int| pixel(p, cx + k % cw, cy + k / cw)) }
}

/// `p` upside down.
pub open spec fn flipv_picture(p: Picture) -> Picture {
    Picture {
        width: p.width,
        height: p.height,
        pixels: Seq::new((p.width * p.height) as nat, |k: int| pixel(p, k % p.width, p.height - 1 - k / p.width)),
    }
}

/// `p` turned clockwise by 90 degrees.
pub open spec fn rotate90_picture(p: Picture) -> Picture {
    Picture {
        width: p.height,
        height: p.width,
        pixels: Seq::new((p.height * p.width) as nat, |k: int| pixel(p, k / p.height, p.height - 1 - k % p.height)),
    }
}

/// `p` turned by 180 degrees.
pub open spec fn rotate180_picture(p: Picture) -> Picture {
    Picture {
        width: p.width,
        height: p.height,
        pixels: Seq::new((p.width * p.height) as nat, |k: int| pixel(p, p.width - 1 - k % p.width, p.height - 1 - k / p.width)),
    }
}

/// `p` turned clockwise by 270 degrees.
pub open spec fn rotate270_picture(p: Picture) -> Picture {
    Picture {
        width: p.height,
        height: p.width,
        pixels: Seq::new((p.height * p.width) as nat, |k: int| pixel(p, p.width - 1 - k / p.height, k % p.height)),
    }
}

/// A pixel drawn over another: a transparent one leaves it, an opaque
/// one replaces it, others are mixed by `blend`.
pub open spec fn draw_pixel(bottom: u32, top: u32, blend: spec_fn(u32, u32) -> u32) -> u32 {
    if top % 256 == 0 {
        bottom
    } else if top % 256 == 255 {
        top
    } else {
        blend(bottom, top)
    }
}

/// How `image` blends two 8-bit RGBA pixels.
pub open spec fn image_blend() -> spec_fn(u32, u32) -> u32 {
    |bottom: u32, top: u32| rgba_blend(bottom, top)
}

/// `top` drawn over `bottom` with its corner at `(x, y)`, partly
/// transparent pixels mixed by `blend`; what falls outside `bottom` is
/// left out.
pub open spec fn overlay_picture(bottom: Picture, top: Picture, x: int, y: int, blend: spec_fn(u32, u32) -> u32) -> Picture {
    Picture {
        width: bottom.width,
        height: bottom.height,
        pixels: Seq::new((bottom.width * bottom.height) as nat, |k: int| {
            let (bx, by) = (k % bottom.width, k / bottom.width);
            let (tx, ty) = (bx - x, by - y);
            if 0 <= tx < top.width && 0 <= ty < top.height {
                draw_pixel(pixel(bottom, bx, by), pixel(top, tx, ty), blend)
            } else {
                pixel(bottom, bx, by)
            }
        }),
    }
}

/// A transparent RGBA image (`DynamicImage::new_rgba8`).
///
/// Trusted: the image is `width` by `height` 8-bit RGBA pixels, all
/// zero, as the crate's `ImageBuffer::new` makes them; its buffer must
/// fit in memory.
#[verifier::external_body]
fn new_rgba8(width: u32, height: u32) -> (r: DynamicImage)
    requires
        width * height * 4 <= usize::MAX,
    ensures
        image_shape(r) == (width, height, true),
        image_pixels(r) == blank_picture(width as int, height as int).pixels,
{
    DynamicImage::new_rgba8(width, height)
}

/// Copies a region of an image (`DynamicImage::crop_imm`).
///
/// Trusted: the crate clamps the region to the image, as `crop_dimms`
/// shows, and copies its pixels.
#[verifier::external_body]
fn crop_imm(img: &DynamicImage, x: u32, y: u32, width: u32, height: u32) -> (r: DynamicImage)
    ensures
        picture_of(r) == crop_picture(picture_of(*img), x as int, y as int, width as int, height as int),
{
    img.crop_imm(x, y, width, height)
}

/// Flips an image upside down (`DynamicImage::flipv`).
///
/// Trusted: pixel `(x, y)` of the result is pixel `(x, h - 1 - y)` of the
/// image, as `flip_vertical_in` copies them.
#[verifier::external_body]
fn flipv(img: &DynamicImage) -> (r: DynamicImage)
    ensures
        picture_of(r) == flipv_picture(picture_of(*img)),
{
    img.flipv()
}

/// Turns an image clockwise by 90 degrees (`DynamicImage::rotate90`).
///
/// Trusted: width and height swap, and pixel `(x, y)` of the image goes
/// to `(h - 1 - y, x)`, as `rotate90_in` copies them.
#[verifier::external_body]
fn rotate90(img: &DynamicImage) -> (r: DynamicImage)
    ensures
        picture_of(r) == rotate90_picture(picture_of(*img)),
{
    img.rotate90()
}

/// Turns an image by 180 degrees (`DynamicImage::rotate180`).
///
/// Trusted: pixel `(x, y)` goes to `(w - 1 - x, h - 1 - y)`, as
/// `rotate180_in` copies them.
#[verifier::external_body]
fn rotate180(img: &DynamicImage) -> (r: DynamicImage)
    ensures
        picture_of(r) == rotate180_picture(picture_of(*img)),
{
    img.rotate180()
}

/// Turns an image clockwise by 270 degrees (`DynamicImage::rotate270`).
///
/// Trusted: width and height swap, and pixel `(x, y)` of the image goes
/// to `(y, w - 1 - x)`, as `rotate270_in` copies them.
#[verifier::external_body]
fn rotate270(img: &DynamicImage) -> (r: DynamicImage)
    ensures
        picture_of(r) == rotate270_picture(picture_of(*img)),
{
    img.rotate270()
}

/// Draws `top` over `bottom` at `(x, y)` (`image::imageops::overlay`).
///
/// Trusted: over an 8-bit RGBA image, each pixel of `bottom` that `top`
/// covers gets `Rgba::blend` of the two (which leaves it for a
/// transparent top pixel and takes an opaque one), and the rest stay, as
/// `overlay` and `overlay_bounds_ext` show. Over images of other kinds,
/// where writing a pixel converts it, nothing is claimed.
#[verifier::external_body]
fn overlay(bottom: &mut DynamicImage, top: &DynamicImage, x: i64, y: i64)
    ensures
        image_shape(*old(bottom)).2 ==> image_shape(*final(bottom)) == image_shape(*old(bottom))
            && picture_of(*final(bottom)) == overlay_picture(picture_of(*old(bottom)), picture_of(*top), x as int, y as int,
                |b: u32, t: u32| rgba_blend(b, t)),
{
    image::imageops::overlay(bottom, top, x, y)
}

/// A layout's piece `rect` of `src`, cut out, flipped upside down, turned
/// as `place` says and drawn on `canvas` where it says.
pub open spec fn place_piece(canvas: Picture, src: Picture, rect: PieceRect, place: Piece) -> Picture {
    let cut = flipv_picture(crop_picture(src, rect.x as int, rect.y as int, rect.width as int, rect.height as int));
    let turned = if place.rotate == 90 {
        rotate90_picture(cut)
    } else if place.rotate == 180 {
        rotate180_picture(cut)
    } else if place.rotate == 270 {
        rotate270_picture(cut)
    } else {
        cut
    };
    overlay_picture(canvas, turned, place.x as int, place.y as int, image_blend())
}

/// Picture `i` of a puzzle after its first `j` pieces are placed; each
/// picture takes `count` pieces in order.
pub open spec fn partial_picture(p: PuzzleView, src: Picture, pieces: Seq<PieceRect>, count: nat, i: nat, j: nat) -> Picture
    decreases j,
{
    if j == 0 {
        blank_picture(p.width as int, p.height as int)
    } else {
        place_piece(
            partial_picture(p, src, pieces, count, i, (j - 1) as nat),
            src,
            pieces[i * count + j - 1],
            p.pieces[j - 1],
        )
    }
}

/// Picture `i` of the solved puzzle `p`: its share of the pieces, placed
/// in order on a transparent picture of the layout's size.
pub open spec fn solved_picture(p: PuzzleView, src: Picture, pieces: Seq<PieceRect>, i: nat) -> Picture {
    let count = pieces.len() / (p.img_count as nat);
    partial_picture(p, src, pieces, count, i, count)
}

/// Solves the puzzle of texture `texture_name`: for each of the puzzle's
/// pictures, its share of the pieces is cut from `img` in order, flipped
/// upside down, turned as the layout says and drawn where it says.
///
/// Fails if no puzzle applies to the name, if its puzzle is not solved
/// yet, or if each picture gets more pieces than its layout places.
pub fn solve_puzzle(texture_name: &str, img: &DynamicImage, pieces: &[PieceRect]) -> (r: Result<Vec<DynamicImage>, Error>)
    ensures
        match puzzle_for(texture_name@) {
            Ok(p) => if pieces_fit(texture_name@, pieces@.len()) {
                r matches Ok(images) && images@.len() == p.img_count
                    && forall|i: int| 0 <= i < images@.len() ==> (#[trigger] image_shape(images@[i])).2
                        && picture_of(images@[i]) == solved_picture(p, picture_of(*img), pieces@, i as nat)
            } else {
                r matches Err(err) && err.spec_repr() matches Repr::Puzzle(e)
                    && e matches PuzzleError::TooManyPieces(given, placed)
                    && given == pieces@.len() / (p.img_count as nat) && placed == p.pieces.len()
            },
            Err(n) => r matches Err(err) && err.spec_repr() matches Repr::Puzzle(e) && (match e {
                PuzzleError::PuzzleNotFound(m) => first_puzzle(texture_name@) is None && m@ == n,
                PuzzleError::NotImplemented(m) => first_puzzle(texture_name@) is Some && m@ == n,
                PuzzleError::TooManyPieces(..) => false,
            }),
        },
{
    let puzzle = match puzzle_for_texture(texture_name) {
        Ok(p) => p,
        Err(e) => return Err(Error::new(Repr::Puzzle(e))),
    };
    let total = pieces.len();
    let piece_count = total / puzzle.img_count;
    if piece_count > puzzle.pieces.len() {
        return Err(Error::new(Repr::Puzzle(PuzzleError::TooManyPieces(piece_count, puzzle.pieces.len()))));
    }
    let ghost p = puzzle@;
    let ghost src = picture_of(*img);
    let mut images: Vec<DynamicImage> = Vec::new();
    let mut i: usize = 0;
    while i < puzzle.img_count
        invariant
            p == puzzle@,
            src == picture_of(*img),
            i <= puzzle.img_count,
            puzzle.img_count > 0,
            images@.len() == i,
            piece_count == pieces@.len() / (puzzle.img_count as nat),
            piece_count <= puzzle.pieces@.len(),
            total == pieces@.len(),
            puzzle.width == 640 && puzzle.height == 800 || puzzle.width == 1280 && puzzle.height == 720,
            forall|k: int| 0 <= k < i ==> (#[trigger] image_shape(images@[k])).2
                && picture_of(images@[k]) == solved_picture(p, src, pieces@, k as nat),
        decreases puzzle.img_count - i,
    {
        let mut picture = new_rgba8(puzzle.width, puzzle.height);
        let mut j: usize = 0;
        while j < piece_count
            invariant
                p == puzzle@,
                src == picture_of(*img),
                i < puzzle.img_count,
                j <= piece_count,
                piece_count == pieces@.len() / (puzzle.img_count as nat),
                piece_count <= puzzle.pieces@.len(),
                total == pieces@.len(),
                image_shape(picture).2,
                picture_of(picture) == partial_picture(p, src, pieces@, piece_count as nat, i as nat, j as nat),
            decreases piece_count - j,
        {
            assert(i * piece_count + j < pieces@.len()) by (nonlinear_arith)
                requires
                    i < puzzle.img_count,
                    j < piece_count,
                    piece_count == pieces@.len() / (puzzle.img_count as nat),
                    puzzle.img_count > 0,
            {
                assert(i * piece_count + j < (i + 1) * piece_count);
                assert((i + 1) * piece_count <= puzzle.img_count * piece_count);
                assert(puzzle.img_count * piece_count <= pieces@.len());
            }
            assert(i * piece_count <= i * piece_count + j);
            let k: usize = i * piece_count + j;
            let rect = pieces[k];
            let cut = crop_imm(img, rect.x, rect.y, rect.width, rect.height);
            let cut = flipv(&cut);
            let place = puzzle.pieces[j];
            let cut = if place.rotate == 90 {
                rotate90(&cut)
            } else if place.rotate == 180 {
                rotate180(&cut)
            } else if place.rotate == 270 {
                rotate270(&cut)
            } else {
                cut
            };
            overlay(&mut picture, &cut, place.x, place.y);
            j += 1;
        }
        images.push(picture);
        i += 1;
    }
    Ok(images)
}

/// Whether piece `j` of layout `p` goes to `(x, y)` turned by `rotate`.
pub open spec fn placed_at(p: PuzzleView, j: int, x: i64, y: i64, rotate: u32) -> bool {
    p.pieces[j].x == x && p.pieces[j].y == y && p.pieces[j].rotate == rotate
}

/// The card layout puts each card picture's six pieces, in order, at
/// (0, 0), (0, 510), (380, 510), (380, 728), (498, 728) and (616, 728),
/// unturned, on a 640x800 picture, two pictures to a texture; the big
/// card layout puts its two pieces at (0, 0) and, turned by 270 degrees,
/// at (1022, 0) on one 1280x720 picture. No other puzzle is solved.
pub proof fn law_puzzle_layouts(name: Seq<char>)
    ensures
        name == "card"@ ==> (puzzle_of(name) is Some && {
            let p = puzzle_of(name)->0;
            &&& p.width == 640 && p.height == 800 && p.img_count == 2 && p.pieces.len() == 6
            &&& placed_at(p, 0, 0, 0, 0) && placed_at(p, 1, 0, 510, 0) && placed_at(p, 2, 380, 510, 0)
            &&& placed_at(p, 3, 380, 728, 0) && placed_at(p, 4, 498, 728, 0) && placed_at(p, 5, 616, 728, 0)
        }),
        name == "card_big"@ ==> (puzzle_of(name) is Some && {
            let p = puzzle_of(name)->0;
            &&& p.width == 1280 && p.height == 720 && p.img_count == 1 && p.pieces.len() == 2
            &&& placed_at(p, 0, 0, 0, 0) && placed_at(p, 1, 1022, 0, 270)
        }),
        name != "card"@ && name != "card_big"@ ==> puzzle_of(name) is None,
{
    reveal_strlit("card");
    reveal_strlit("card_big");
    assert("card"@.len() != "card_big"@.len());
}

} // verus!
