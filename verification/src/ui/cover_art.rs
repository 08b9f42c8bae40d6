//! Cover-art state: which image is held, and how it is drawn.

use crate::strings::{chars_of, contains_text, occurs, same_text, text_of};
use vstd::prelude::*;

verus! {

/// A decoded image of the `image` crate.
#[verifier::external_type_specification]
#[verifier::external_body]
pub struct ExDynamicImage(image::DynamicImage);

/// A terminal graphics picker of `ratatui-image`.
#[verifier::external_type_specification]
#[verifier::external_body]
pub struct ExPicker(ratatui_image::picker::Picker);

/// An image prepared for a terminal graphics protocol by `ratatui-image`.
#[verifier::external_type_specification]
#[verifier::external_body]
pub struct ExStatefulProtocol(ratatui_image::protocol::StatefulProtocol);

/// `image::load_from_memory` may answer the bytes with this: an image, or
/// nothing where it refuses them. The formats that it knows can be extended in
/// a running program, so the same bytes may have several answers.
pub uninterp spec fn decodes_to(bytes: Seq<u8>, decoded: Option<image::DynamicImage>) -> bool;

/// Calls `image::load_from_memory`. The result is an answer of that function to
/// these bytes; which formats it knows, and that it answers the same bytes alike
/// every time, is left unsaid. That no decoder panics on malformed bytes is
/// assumed.
#[verifier::external_body]
fn decode_image(bytes: &[u8]) -> (r: Option<image::DynamicImage>)
    ensures
        decodes_to(bytes@, r),
{
    image::load_from_memory(bytes).ok()
}

/// `Picker::new_resize_protocol` may make this of the image, for this picker.
/// It draws a random id for some protocols, and lays the image over the
/// picker's background where there is one, so neither does the picker with the
/// image give one result, nor does a result give its image back.
pub uninterp spec fn prepared_from(
    prepared: ratatui_image::protocol::StatefulProtocol,
    picker: ratatui_image::picker::Picker,
    image: image::DynamicImage,
) -> bool;

/// Calls `Picker::new_resize_protocol` on a copy of the image. The result is one
/// that this picker makes of this image; how it is drawn is left unsaid.
#[verifier::external_body]
fn prepare_image(
    picker: &ratatui_image::picker::Picker,
    image: &image::DynamicImage,
) -> (r: ratatui_image::protocol::StatefulProtocol)
    ensures
        prepared_from(r, *picker, *image),
{
    picker.new_resize_protocol(image.clone())
}

/// The graphics protocol that `Picker::protocol_type` reads from a picker.
pub uninterp spec fn protocol_in(picker: ratatui_image::picker::Picker) -> GraphicsProtocol;

/// Calls `Picker::protocol_type`. The result is the protocol that the picker
/// holds; how the picker came by it is left unsaid.
#[verifier::external_body]
fn picker_protocol(picker: &ratatui_image::picker::Picker) -> (r: GraphicsProtocol)
    ensures
        r == protocol_in(*picker),
{
    match picker.protocol_type() {
        ratatui_image::picker::ProtocolType::Halfblocks => GraphicsProtocol::Halfblocks,
        ratatui_image::picker::ProtocolType::Sixel => GraphicsProtocol::Sixel,
        ratatui_image::picker::ProtocolType::Kitty => GraphicsProtocol::Kitty,
        ratatui_image::picker::ProtocolType::Iterm2 => GraphicsProtocol::Iterm2,
    }
}

/// Width and height of a cell in pixels that `Picker::font_size` reads from a
/// picker.
pub uninterp spec fn font_in(picker: ratatui_image::picker::Picker) -> (u16, u16);

/// Calls `Picker::font_size`. The result is the font size that the picker holds;
/// how the picker came by it is left unsaid.
#[verifier::external_body]
fn picker_font(picker: &ratatui_image::picker::Picker) -> (r: (u16, u16))
    ensures
        r == font_in(*picker),
{
    let font = picker.font_size();
    (font.width, font.height)
}

/// A terminal graphics protocol.
#[derive(Debug, Clone, Copy, PartialEq, Eq, Structural)]
pub enum GraphicsProtocol {
    Halfblocks,
    Sixel,
    Kitty,
    Iterm2,
}

/// The color of a cell.
#[derive(Debug, Clone, Copy, PartialEq, Eq, Structural)]
pub enum CellColor {
    Reset,
    Indexed(u8),
    Rgb(u8, u8, u8),
}

/// One encoded cell.
#[derive(Debug, Clone, Copy, PartialEq, Eq, Structural)]
pub struct EncodedCell {
    pub ch: char,
    pub fg: CellColor,
    pub bg: CellColor,
}

/// Cached chafa-encoded cells for one rendered image size.
pub struct ChafaCache {
    /// Cached render width in cells.
    pub width: u16,
    /// Cached render height in cells.
    pub height: u16,
    /// Encoded cells, row-major.
    pub cells: Vec<EncodedCell>,
}

/// Cover art rendering state: protocol picker plus current image identity.
pub struct CoverArtState {
    /// Picker, when a graphics protocol is available.
    pub picker: Option<ratatui_image::picker::Picker>,
    /// Detected terminal graphics protocol.
    pub protocol_type: Option<GraphicsProtocol>,
    /// Terminal cell size in pixels, for image scaling.
    pub cell_size: (u16, u16),
    /// Cover art ID of the image currently held or awaited.
    pub current_id: Option<String>,
    /// Decoded image kept around so it can be re-encoded when the art area
    /// resizes.
    pub image: Option<image::DynamicImage>,
    /// The image prepared for the graphics protocol.
    pub protocol: Option<ratatui_image::protocol::StatefulProtocol>,
    /// Cached chafa encoding for the current (image, width, height).
    pub chafa_cache: Option<ChafaCache>,
}

/// Size of the terminal window, in pixels and in cells.
#[derive(Debug, Clone, Copy, PartialEq, Eq, Structural)]
pub struct WindowSize {
    pub xpixel: u16,
    pub ypixel: u16,
    pub col: u16,
    pub row: u16,
}

/// The size of one cell in pixels, where the terminal tells all of its sizes.
#[must_use]
pub fn query_cell_size(window: Option<WindowSize>) -> (r: Option<(u16, u16)>)
    ensures
        r == (match window {
            Some(w) => if w.xpixel == 0 || w.ypixel == 0 || w.col == 0 || w.row == 0 {
                None
            } else {
                Some(((w.xpixel / w.col) as u16, (w.ypixel / w.row) as u16))
            },
            None => None,
        }),
{
    match window {
        Some(w) => {
            if w.xpixel == 0 || w.ypixel == 0 || w.col == 0 || w.row == 0 {
                None
            } else {
                Some((w.xpixel / w.col, w.ypixel / w.row))
            }
        },
        None => None,
    }
}

/// What drawing the cover comes to.
#[derive(Debug, Clone, Copy, PartialEq, Eq, Structural)]
pub enum DrawPath {
    /// Draw the cached cells.
    Cells,
    /// Encode the image for the area first.
    Encode,
    /// Draw through the graphics protocol.
    Protocol,
    /// Draw nothing.
    Nothing,
}

impl CoverArtState {
    /// No image is held and none is awaited.
    pub open spec fn empty(self) -> bool {
        &&& self.current_id is None
        &&& self.image is None
        &&& self.protocol is None
        &&& self.chafa_cache is None
    }

    /// The terminal's properties are those of `other`.
    pub open spec fn same_terminal(self, other: CoverArtState) -> bool {
        &&& self.picker == other.picker
        &&& self.protocol_type == other.protocol_type
        &&& self.cell_size == other.cell_size
    }

    /// An image with this id is of no use any more: another one is held or
    /// awaited, or this one is held already.
    pub open spec fn unwanted(self, id: Seq<char>) -> bool {
        match self.current_id {
            Some(cur) => cur@ != id || self.image is Some,
            None => false,
        }
    }

    /// Build the state for a terminal. `queried` is the cell size that the
    /// terminal told; a picker brings its protocol and font size.
    pub fn init(
        queried: Option<(u16, u16)>,
        picker: Option<ratatui_image::picker::Picker>,
    ) -> (r: Self)
        ensures
            r.empty(),
            r.picker == picker,
            r.protocol_type == (match picker {
                Some(p) => Some(protocol_in(p)),
                None => None,
            }),
            r.cell_size == (match (queried, picker) {
                (Some(cell), _) => cell,
                (None, Some(p)) => font_in(p),
                (None, None) => (10u16, 20u16),
            }),
    {
        let (protocol_type, font_size) = match &picker {
            Some(p) => (Some(picker_protocol(p)), Some(picker_font(p))),
            None => (None, None),
        };
        Self::on_terminal(queried, picker, protocol_type, font_size)
    }

    /// Build the state, given what the picker tells of itself.
    pub fn on_terminal(
        queried: Option<(u16, u16)>,
        picker: Option<ratatui_image::picker::Picker>,
        protocol_type: Option<GraphicsProtocol>,
        font_size: Option<(u16, u16)>,
    ) -> (r: Self)
        ensures
            r.empty(),
            r.picker == picker,
            r.protocol_type == protocol_type,
            r.cell_size == (match (queried, font_size) {
                (Some(cell), _) => cell,
                (None, Some(font)) => font,
                (None, None) => (10u16, 20u16),
            }),
    {
        let cell_size: (u16, u16) = match queried {
            Some(cell) => cell,
            None => match font_size {
                Some(font) => font,
                None => (10, 20),
            },
        };
        CoverArtState {
            picker,
            protocol_type,
            cell_size,
            current_id: None,
            image: None,
            protocol: None,
            chafa_cache: None,
        }
    }

    /// Whether fetched bytes with this id are of any use.
    #[must_use]
    pub fn wants(&self, id: &str) -> (r: bool)
        ensures
            r == !self.unwanted(id@),
    {
        match &self.current_id {
            Some(cur) => same_text(cur.as_str(), id) && self.image.is_none(),
            None => true,
        }
    }

    /// Commit bytes only if `id` is awaited or nothing is; otherwise this
    /// fetch was superseded. Bytes that do not decode, and a terminal without
    /// graphics, leave nothing held, so the next change fetches again.
    pub fn load(&mut self, id: String, bytes: &[u8])
        ensures
            final(self).same_terminal(*old(self)),
            if old(self).unwanted(id@) {
                *final(self) == *old(self)
            } else if old(self).picker is Some {
                exists|decoded: Option<image::DynamicImage>| #[trigger]
                    decodes_to(bytes@, decoded) && final(self).committed(id@, decoded)
            } else {
                final(self).empty()
            },
    {
        if !self.wants(id.as_str()) {
            return;
        }
        if self.picker.is_none() {
            self.clear();
            return;
        }
        let decoded = decode_image(bytes);
        self.commit(id, decoded);
    }

    /// The image is held under this id and prepared by the picker; nothing of
    /// an older one is left.
    pub open spec fn holds(self, id: Seq<char>, image: image::DynamicImage) -> bool {
        &&& text_of(self.current_id) == Some(id)
        &&& self.image == Some(image)
        &&& self.picker is Some && self.protocol is Some
        &&& prepared_from(self.protocol->0, self.picker->0, image)
        &&& self.chafa_cache is None
    }

    /// What the bytes with this id decoded to is taken over: the image is held,
    /// or nothing is where they did not decode.
    pub open spec fn committed(self, id: Seq<char>, decoded: Option<image::DynamicImage>) -> bool {
        match decoded {
            Some(image) => self.holds(id, image),
            None => self.empty(),
        }
    }

    /// Takes over what the bytes of a wanted image decoded to.
    pub fn commit(&mut self, id: String, decoded: Option<image::DynamicImage>)
        ensures
            final(self).same_terminal(*old(self)),
            if old(self).picker is Some {
                final(self).committed(id@, decoded)
            } else {
                final(self).empty()
            },
    {
        match (&self.picker, decoded) {
            (Some(picker), Some(decoded)) => {
                let prepared = prepare_image(picker, &decoded);
                self.protocol = Some(prepared);
                self.image = Some(decoded);
                self.current_id = Some(id);
                self.chafa_cache = None;
            },
            _ => {
                self.clear();
            },
        }
    }

    /// Drop the current image so the next render refetches.
    pub fn clear(&mut self)
        ensures
            final(self).empty(),
            final(self).same_terminal(*old(self)),
    {
        self.current_id = None;
        self.image = None;
        self.protocol = None;
        self.chafa_cache = None;
    }

    /// Reserve `current_id` ahead of a fetch so concurrent changes for the
    /// same id don't double-fetch.
    pub fn set_pending(&mut self, id: String)
        ensures
            final(self).same_terminal(*old(self)),
            final(self).awaits(id@),
    {
        self.current_id = Some(id);
        self.image = None;
        self.protocol = None;
        self.chafa_cache = None;
    }

    /// The image with this id is awaited and none is held.
    pub open spec fn awaits(self, id: Seq<char>) -> bool {
        &&& text_of(self.current_id) == Some(id)
        &&& self.image is None
        &&& self.protocol is None
        &&& self.chafa_cache is None
    }

    /// Release a pending reservation after a failed fetch so the next change
    /// retries. No-op if a newer fetch already superseded `id`.
    pub fn fail_pending(&mut self, id: &str)
        ensures
            if text_of(old(self).current_id) == Some(id@) {
                final(self).empty() && final(self).same_terminal(*old(self))
            } else {
                *final(self) == *old(self)
            },
    {
        let current = match &self.current_id {
            Some(cur) => same_text(cur.as_str(), id),
            None => false,
        };
        if current {
            self.clear();
        }
    }

    /// The cache is made for an area of that size.
    pub open spec fn cached_for(self, width: u16, height: u16) -> bool {
        self.chafa_cache matches Some(c) && c.width == width && c.height == height
    }

    /// Decides how the cover is drawn into an area of that size. Cells are
    /// used for half-blocks where the encoder is there; the graphics protocol
    /// is the fallback.
    pub fn draw_path(&self, chafa_available: bool, width: u16, height: u16) -> (r: DrawPath)
        ensures
            r == (if self.protocol_type == Some(GraphicsProtocol::Halfblocks) && chafa_available
                && self.image is Some {
                if self.cached_for(width, height) {
                    DrawPath::Cells
                } else {
                    DrawPath::Encode
                }
            } else {
                self.fallback_path()
            }),
    {
        let halfblocks = matches!(self.protocol_type, Some(GraphicsProtocol::Halfblocks));
        if halfblocks && chafa_available && self.image.is_some() {
            match &self.chafa_cache {
                Some(c) if c.width == width && c.height == height => DrawPath::Cells,
                _ => DrawPath::Encode,
            }
        } else {
            self.without_cells()
        }
    }

    /// How the cover is drawn without cells.
    pub open spec fn fallback_path(self) -> DrawPath {
        if self.protocol is Some {
            DrawPath::Protocol
        } else {
            DrawPath::Nothing
        }
    }

    fn without_cells(&self) -> (r: DrawPath)
        ensures
            r == self.fallback_path(),
    {
        if self.protocol.is_some() {
            DrawPath::Protocol
        } else {
            DrawPath::Nothing
        }
    }

    /// Takes over what the encoder made for an area of that size: the cells to
    /// draw, or nothing where it failed.
    pub fn ensure_chafa(&mut self, width: u16, height: u16, encoded: Option<Vec<EncodedCell>>)
        -> (r: DrawPath)
        ensures
            final(self).same_terminal(*old(self)),
            final(self).current_id == old(self).current_id,
            final(self).image == old(self).image,
            final(self).protocol == old(self).protocol,
            match encoded {
                Some(cells) => r == DrawPath::Cells && final(self).chafa_cache == Some(
                    ChafaCache { width, height, cells },
                ),
                None => r == old(self).fallback_path() && final(self).chafa_cache
                    == old(self).chafa_cache,
            },
    {
        match encoded {
            Some(cells) => {
                self.chafa_cache = Some(ChafaCache { width, height, cells });
                DrawPath::Cells
            },
            None => self.without_cells(),
        }
    }
}

/// An area of the screen.
#[derive(Debug, Clone, Copy, PartialEq, Eq, Structural)]
pub struct CellArea {
    pub x: u16,
    pub y: u16,
    pub width: u16,
    pub height: u16,
}

/// A cell and where it goes.
#[derive(Debug, Clone, Copy, PartialEq, Eq, Structural)]
pub struct PlacedCell {
    pub x: u16,
    pub y: u16,
    pub cell: EncodedCell,
}

/// The lesser of two extents.
pub open spec fn lesser(a: u16, b: u16) -> nat {
    if a <= b {
        a as nat
    } else {
        b as nat
    }
}

/// The cells of the first `y` rows and the first `x` of the next one, each
/// where it goes in the area; places without a cell are left out.
pub open spec fn placed(area: CellArea, cache: ChafaCache, y: nat, x: nat) -> Seq<PlacedCell>
    decreases y, x,
{
    if x > 0 {
        let before = placed(area, cache, y, (x - 1) as nat);
        let idx = y * cache.width + x - 1;
        if idx < cache.cells@.len() {
            before.push(
                PlacedCell {
                    x: (area.x + x - 1) as u16,
                    y: (area.y + y) as u16,
                    cell: cache.cells@[idx],
                },
            )
        } else {
            before
        }
    } else if y > 0 {
        placed(area, cache, (y - 1) as nat, lesser(cache.width, area.width))
    } else {
        Seq::empty()
    }
}

/// The cache has a cell for column `x` of row `y`.
pub open spec fn has_cell(cache: ChafaCache, x: int, y: int) -> bool {
    y * cache.width + x < cache.cells@.len()
}

/// Every cell that is drawn into the area has coordinates.
pub open spec fn on_screen(area: CellArea, cache: ChafaCache) -> bool {
    forall|x: int, y: int|
        0 <= x < lesser(cache.width, area.width) && 0 <= y < lesser(cache.height, area.height)
            && #[trigger] has_cell(cache, x, y) ==> area.x + x <= u16::MAX && area.y + y
            <= u16::MAX
}

fn least(a: u16, b: u16) -> (r: u16)
    ensures
        r == lesser(a, b),
{
    if a <= b {
        a
    } else {
        b
    }
}

/// Where the cache has its cell for column `x` of row `y`, if it has one.
fn cell_at(cache: &ChafaCache, x: u16, y: u16) -> (r: Option<usize>)
    ensures
        match r {
            Some(idx) => idx == y * cache.width + x && idx < cache.cells@.len(),
            None => !has_cell(*cache, x as int, y as int),
        },
{
    proof {
        assert(0 <= y * cache.width <= 0xffff * 0xffff) by (nonlinear_arith)
            requires
                0 <= y <= 0xffff,
                0 <= cache.width <= 0xffff,
        ;
    }
    let idx: u64 = y as u64 * cache.width as u64 + x as u64;
    if idx < cache.cells.len() as u64 {
        Some(idx as usize)
    } else {
        None
    }
}

/// Whether every cell that is drawn into the area has coordinates.
#[must_use]
pub fn cells_fit(area: CellArea, cache: &ChafaCache) -> (r: bool)
    ensures
        r == on_screen(area, *cache),
{
    let w = least(cache.width, area.width);
    let h = least(cache.height, area.height);
    for y in 0..h
        invariant
            w == lesser(cache.width, area.width),
            h == lesser(cache.height, area.height),
            forall|i: int, j: int|
                0 <= i < w && 0 <= j < y && #[trigger] has_cell(*cache, i, j) ==> area.x + i
                    <= u16::MAX && area.y + j <= u16::MAX,
    {
        for x in 0..w
            invariant
                w == lesser(cache.width, area.width),
                h == lesser(cache.height, area.height),
                y < h,
                forall|i: int, j: int|
                    0 <= i < w && 0 <= j < y && #[trigger] has_cell(*cache, i, j) ==> area.x + i
                        <= u16::MAX && area.y + j <= u16::MAX,
                forall|i: int|
                    0 <= i < x && #[trigger] has_cell(*cache, i, y as int) ==> area.x + i
                        <= u16::MAX && area.y + y <= u16::MAX,
        {
            if cell_at(cache, x, y).is_some() && (x > u16::MAX - area.x || y > u16::MAX - area.y) {
                proof {
                    assert(has_cell(*cache, x as int, y as int));
                }
                return false;
            }
        }
    }
    true
}

/// The cells to draw: as much of the cache as fits the area, row by row.
pub fn blit_cells(area: CellArea, cache: &ChafaCache) -> (r: Vec<PlacedCell>)
    requires
        on_screen(area, *cache),
    ensures
        r@ == placed(area, *cache, lesser(cache.height, area.height), 0),
{
    let w = least(cache.width, area.width);
    let h = least(cache.height, area.height);
    let mut out: Vec<PlacedCell> = Vec::new();
    let mut y: u16 = 0;
    while y < h
        invariant
            y <= h,
            w == lesser(cache.width, area.width),
            h == lesser(cache.height, area.height),
            on_screen(area, *cache),
            out@ == placed(area, *cache, y as nat, 0),
        decreases h - y,
    {
        let mut x: u16 = 0;
        while x < w
            invariant
                x <= w,
                y < h,
                w == lesser(cache.width, area.width),
                h == lesser(cache.height, area.height),
                on_screen(area, *cache),
                out@ == placed(area, *cache, y as nat, x as nat),
            decreases w - x,
        {
            if let Some(idx) = cell_at(cache, x, y) {
                proof {
                    assert(has_cell(*cache, x as int, y as int));
                }
                out.push(PlacedCell { x: area.x + x, y: area.y + y, cell: cache.cells[idx] });
            }
            x = x + 1;
        }
        y = y + 1;
    }
    out
}

/// Library names that the system loader is asked for, in order.
#[must_use]
pub fn chafa_sonames() -> (r: Vec<&'static str>)
    ensures
        r@.len() == 3,
        r@[0]@ == "libchafa.so.0"@,
        r@[1]@ == "libchafa.so"@,
        r@[2]@ == "libchafa.dylib"@,
{
    vec!["libchafa.so.0", "libchafa.so", "libchafa.dylib"]
}

/// Places where the library is looked for next, in order.
#[must_use]
pub fn chafa_paths() -> (r: Vec<&'static str>)
    ensures
        r@.len() == 9,
        r@[0]@ == "/usr/lib/libchafa.so.0"@,
        r@[1]@ == "/usr/lib64/libchafa.so.0"@,
        r@[2]@ == "/usr/lib/x86_64-linux-gnu/libchafa.so.0"@,
        r@[3]@ == "/usr/local/lib/libchafa.so.0"@,
        r@[4]@ == "/lib/libchafa.so.0"@,
        r@[5]@ == "/lib64/libchafa.so.0"@,
        r@[6]@ == "/lib/x86_64-linux-gnu/libchafa.so.0"@,
        r@[7]@ == "/opt/homebrew/lib/libchafa.dylib"@,
        r@[8]@ == "/usr/local/lib/libchafa.dylib"@,
{
    vec![
        "/usr/lib/libchafa.so.0",
        "/usr/lib64/libchafa.so.0",
        "/usr/lib/x86_64-linux-gnu/libchafa.so.0",
        "/usr/local/lib/libchafa.so.0",
        "/lib/libchafa.so.0",
        "/lib64/libchafa.so.0",
        "/lib/x86_64-linux-gnu/libchafa.so.0",
        "/opt/homebrew/lib/libchafa.dylib",
        "/usr/local/lib/libchafa.dylib",
    ]
}

/// `s` ends with `tail`.
pub open spec fn ends_with(s: Seq<char>, tail: Seq<char>) -> bool {
    s.len() >= tail.len() && s.skip(s.len() - tail.len()) == tail
}

fn has_ending(s: &str, tail: &str) -> (r: bool)
    ensures
        r == ends_with(s@, tail@),
{
    let a = chars_of(s);
    let b = chars_of(tail);
    if a.len() < b.len() {
        return false;
    }
    let from: usize = a.len() - b.len();
    for k in 0..b.len()
        invariant
            a@ == s@,
            b@ == tail@,
            from + b@.len() == a@.len(),
            a@.len() <= usize::MAX,
            forall|j: int| 0 <= j < k ==> a@[from + j] == b@[j],
    {
        if a[from + k] != b[k] {
            proof {
                assert(a@.skip(from as int)[k as int] != b@[k as int]);
            }
            return false;
        }
    }
    proof {
        assert(a@.skip(from as int) =~= b@);
    }
    true
}

/// The Nix store entry holds the library: it is named after chafa and is not
/// one of the package's other outputs.
pub open spec fn is_chafa_entry(name: Seq<char>) -> bool {
    occurs(name, "-chafa-"@) && !ends_with(name, "-bin"@) && !ends_with(name, "-dev"@)
        && !ends_with(name, "-man"@)
}

/// Whether a Nix store entry may hold the library.
#[must_use]
pub fn is_chafa_store_entry(name: &str) -> (r: bool)
    ensures
        r == is_chafa_entry(name@),
{
    contains_text(name, "-chafa-") && !has_ending(name, "-bin") && !has_ending(name, "-dev")
        && !has_ending(name, "-man")
}

// ---------------------------------------------------------------------------
// Laws.
// ---------------------------------------------------------------------------

/// Once an image is awaited, a fetch for any other is of no use.
pub proof fn law_superseded_fetch_is_ignored(state: CoverArtState, id: Seq<char>, other: Seq<char>)
    requires
        state.awaits(id),
    ensures
        !state.unwanted(id),
        other != id ==> state.unwanted(other),
{
}

/// An image that is held is not loaded again, and no other takes its place
/// unless it is awaited first.
pub proof fn law_held_image_stays(
    state: CoverArtState,
    id: Seq<char>,
    image: image::DynamicImage,
    other: Seq<char>,
)
    requires
        state.holds(id, image),
    ensures
        state.unwanted(other),
{
}

/// After a failed fetch, or bytes that did not decode, any image is wanted.
pub proof fn law_empty_state_wants_anything(state: CoverArtState, id: Seq<char>)
    requires
        state.empty(),
    ensures
        !state.unwanted(id),
{
}

/// A cell is as large as the window is divided by its cells, where the terminal
/// tells all four sizes.
pub proof fn law_cell_size(window: Option<WindowSize>, r: Option<(u16, u16)>)
    requires
        call_ensures(query_cell_size, (window,), r),
    ensures
        r is Some <==> window is Some && window->0.xpixel > 0 && window->0.ypixel > 0
            && window->0.col > 0 && window->0.row > 0,
        r matches Some(cell) ==> cell.0 == window->0.xpixel / window->0.col && cell.1
            == window->0.ypixel / window->0.row,
{
}

/// A new state holds no image. The terminal's own word on its cells counts
/// before the picker's, and that before the usual size; the protocol is the
/// picker's.
pub proof fn law_new_state(
    queried: Option<(u16, u16)>,
    picker: Option<ratatui_image::picker::Picker>,
    protocol: Option<GraphicsProtocol>,
    font: Option<(u16, u16)>,
    r: CoverArtState,
    told: CoverArtState,
)
    requires
        call_ensures(CoverArtState::init, (queried, picker), r),
        call_ensures(CoverArtState::on_terminal, (queried, picker, protocol, font), told),
    ensures
        r.current_id is None && r.image is None && r.protocol is None && r.chafa_cache is None,
        told.current_id is None && told.image is None && told.protocol is None && told.chafa_cache
            is None,
        r.picker == picker && told.picker == picker,
        r.protocol_type is Some <==> picker is Some,
        picker matches Some(p) ==> r.protocol_type == Some(protocol_in(p)),
        told.protocol_type == protocol,
        queried matches Some(cell) ==> r.cell_size == cell && told.cell_size == cell,
        queried is None ==> (picker matches Some(p) ==> r.cell_size == font_in(p)),
        queried is None && picker is None ==> r.cell_size == (10u16, 20u16),
        queried is None ==> (font matches Some(f) ==> told.cell_size == f),
        queried is None && font is None ==> told.cell_size == (10u16, 20u16),
{
}

/// Bytes are wanted where nothing is held or awaited, and where they are for
/// the image that is awaited and not there yet.
pub proof fn law_wanted(state: CoverArtState, id: &str, r: bool)
    requires
        call_ensures(CoverArtState::wants, (&state, id), r),
    ensures
        r <==> state.current_id is None || (state.current_id->0@ == id@ && state.image is None),
{
}

/// Bytes that are not wanted change nothing. Wanted ones are decoded, and what
/// they give is held and prepared under their id; bytes that do not decode, and
/// a terminal without graphics, leave nothing held or awaited.
pub proof fn law_loading(state: &mut CoverArtState, id: String, bytes: &[u8])
    requires
        call_ensures(CoverArtState::load, (state, id, bytes), ()),
    ensures
        ({
            let before = *old(state);
            let after = *final(state);
            let wanted = before.current_id is None || (before.current_id->0@ == id@ && before.image
                is None);
            &&& !wanted ==> after == before
            &&& wanted && before.picker is None ==> after.current_id is None && after.image is None
                && after.protocol is None && after.chafa_cache is None
            &&& wanted && before.picker is Some ==> decodes_to(bytes@, after.image)
            &&& wanted ==> (after.image matches Some(image) ==> {
                &&& after.current_id is Some && after.current_id->0@ == id@
                &&& after.protocol is Some
                &&& prepared_from(after.protocol->0, before.picker->0, image)
                &&& after.chafa_cache is None
            })
            &&& wanted && after.image is None ==> after.current_id is None && after.protocol is None
                && after.chafa_cache is None
            &&& after.picker == before.picker
            &&& after.protocol_type == before.protocol_type
            &&& after.cell_size == before.cell_size
        }),
{
}

/// A decoded image is held under its id and prepared by the picker.
pub proof fn law_committing(
    state: &mut CoverArtState,
    id: String,
    decoded: Option<image::DynamicImage>,
)
    requires
        call_ensures(CoverArtState::commit, (state, id, decoded), ()),
    ensures
        ({
            let kept = decoded is Some && old(state).picker is Some;
            &&& kept ==> final(state).image == decoded
            &&& kept ==> final(state).current_id is Some && final(state).current_id->0@ == id@
            &&& kept ==> final(state).protocol is Some && prepared_from(
                final(state).protocol->0,
                old(state).picker->0,
                decoded->0,
            )
            &&& !kept ==> final(state).image is None && final(state).current_id is None && final(
                state).protocol is None
            &&& final(state).chafa_cache is None
            &&& final(state).picker == old(state).picker
        }),
{
}

/// An image that is awaited takes the place of the one held; a fetch that
/// failed gives up only its own; clearing gives up everything. The terminal
/// stays what it is.
pub proof fn law_awaiting(
    awaited: &mut CoverArtState,
    failed: &mut CoverArtState,
    cleared: &mut CoverArtState,
    id: String,
    gone: &str,
)
    requires
        call_ensures(CoverArtState::set_pending, (awaited, id), ()),
        call_ensures(CoverArtState::fail_pending, (failed, gone), ()),
        call_ensures(CoverArtState::clear, (cleared,), ()),
    ensures
        final(awaited).current_id is Some && final(awaited).current_id->0@ == id@,
        final(awaited).image is None && final(awaited).protocol is None && final(
            awaited).chafa_cache is None,
        final(awaited).picker == old(awaited).picker,
        old(failed).current_id is Some && old(failed).current_id->0@ == gone@ ==> final(
            failed).current_id is None && final(failed).image is None && final(failed).protocol
            is None && final(failed).chafa_cache is None,
        old(failed).current_id is None || old(failed).current_id->0@ != gone@ ==> *final(failed)
            == *old(failed),
        final(failed).picker == old(failed).picker,
        final(cleared).current_id is None && final(cleared).image is None && final(
            cleared).protocol is None && final(cleared).chafa_cache is None,
        final(cleared).picker == old(cleared).picker,
        final(cleared).cell_size == old(cleared).cell_size,
{
}

/// Cells are drawn for half-blocks where the encoder is there and an image is
/// held: the cached ones where they were made for this very size, new ones
/// otherwise. All else goes through the graphics protocol, where an image is
/// prepared for it.
pub proof fn law_drawing(state: CoverArtState, chafa: bool, width: u16, height: u16, r: DrawPath)
    requires
        call_ensures(CoverArtState::draw_path, (&state, chafa, width, height), r),
    ensures
        ({
            let cells = state.protocol_type == Some(GraphicsProtocol::Halfblocks) && chafa
                && state.image is Some;
            let fits = state.chafa_cache is Some && state.chafa_cache->0.width == width
                && state.chafa_cache->0.height == height;
            &&& r == DrawPath::Cells <==> cells && fits
            &&& r == DrawPath::Encode <==> cells && !fits
            &&& r == DrawPath::Protocol <==> !cells && state.protocol is Some
            &&& r == DrawPath::Nothing <==> !cells && state.protocol is None
        }),
{
}

/// Cells that were made are kept for their size and drawn; an encoder that
/// failed changes nothing, and the graphics protocol takes over.
pub proof fn law_encoding(
    state: &mut CoverArtState,
    width: u16,
    height: u16,
    encoded: Option<Vec<EncodedCell>>,
    r: DrawPath,
)
    requires
        call_ensures(CoverArtState::ensure_chafa, (state, width, height, encoded), r),
    ensures
        encoded matches Some(cells) ==> {
            &&& r == DrawPath::Cells
            &&& final(state).chafa_cache is Some
            &&& final(state).chafa_cache->0.width == width
            &&& final(state).chafa_cache->0.height == height
            &&& final(state).chafa_cache->0.cells@ == cells@
        },
        encoded is None ==> final(state).chafa_cache == old(state).chafa_cache,
        encoded is None && old(state).protocol is Some ==> r == DrawPath::Protocol,
        encoded is None && old(state).protocol is None ==> r == DrawPath::Nothing,
        final(state).image == old(state).image,
        final(state).protocol == old(state).protocol,
        final(state).current_id == old(state).current_id,
{
}

/// A cell of row `j` and column `i` that is drawn before place `x` of row `y`.
pub open spec fn drawn_before(
    area: CellArea,
    cache: ChafaCache,
    y: nat,
    x: nat,
    i: int,
    j: int,
) -> bool {
    &&& 0 <= i < lesser(cache.width, area.width)
    &&& 0 <= j
    &&& j < y || (j == y && i < x)
    &&& has_cell(cache, i, j)
}

/// The cell of row `j` and column `i`, where it goes.
pub open spec fn placed_cell(area: CellArea, cache: ChafaCache, i: int, j: int) -> PlacedCell {
    PlacedCell {
        x: (area.x + i) as u16,
        y: (area.y + j) as u16,
        cell: cache.cells@[j * cache.width + i],
    }
}

proof fn lemma_placed_members(area: CellArea, cache: ChafaCache, y: nat, x: nat)
    requires
        x <= lesser(cache.width, area.width),
    ensures
        forall|i: int, j: int| #[trigger]
            drawn_before(area, cache, y, x, i, j) ==> placed(area, cache, y, x).contains(
                placed_cell(area, cache, i, j),
            ),
        forall|n: int|
            0 <= n < placed(area, cache, y, x).len() ==> exists|i: int, j: int|
                drawn_before(area, cache, y, x, i, j) && #[trigger] placed(area, cache, y, x)[n]
                    == placed_cell(area, cache, i, j),
    decreases y, x,
{
    let all = placed(area, cache, y, x);
    let w = lesser(cache.width, area.width);
    if x > 0 {
        let before = placed(area, cache, y, (x - 1) as nat);
        let idx = y * cache.width + x - 1;
        lemma_placed_members(area, cache, y, (x - 1) as nat);
        assert forall|i: int, j: int| #[trigger]
            drawn_before(area, cache, y, x, i, j) implies all.contains(
            placed_cell(area, cache, i, j),
        ) by {
            if drawn_before(area, cache, y, (x - 1) as nat, i, j) {
                let n = choose|n: int|
                    0 <= n < before.len() && before[n] == placed_cell(area, cache, i, j);
                assert(all[n] == before[n]);
            } else {
                assert(i == x - 1 && j == y);
                assert(all[before.len() as int] == placed_cell(area, cache, i, j));
            }
        }
        assert forall|n: int| 0 <= n < all.len() implies exists|i: int, j: int|
            drawn_before(area, cache, y, x, i, j) && #[trigger] all[n] == placed_cell(
                area,
                cache,
                i,
                j,
            ) by {
            if n < before.len() {
                let (i, j) = choose|i: int, j: int|
                    drawn_before(area, cache, y, (x - 1) as nat, i, j) && before[n] == placed_cell(
                        area,
                        cache,
                        i,
                        j,
                    );
                assert(drawn_before(area, cache, y, x, i, j));
                assert(all[n] == placed_cell(area, cache, i, j));
            } else {
                assert(has_cell(cache, x - 1, y as int));
                assert(drawn_before(area, cache, y, x, x - 1, y as int));
                assert(all[n] == placed_cell(area, cache, x - 1, y as int));
            }
        }
    } else if y > 0 {
        lemma_placed_members(area, cache, (y - 1) as nat, w);
        let above = placed(area, cache, (y - 1) as nat, w);
        assert(all == above);
        assert forall|i: int, j: int| #[trigger]
            drawn_before(area, cache, y, x, i, j) implies all.contains(
            placed_cell(area, cache, i, j),
        ) by {
            assert(drawn_before(area, cache, (y - 1) as nat, w, i, j));
        }
        assert forall|n: int| 0 <= n < all.len() implies exists|i: int, j: int|
            drawn_before(area, cache, y, x, i, j) && #[trigger] all[n] == placed_cell(
                area,
                cache,
                i,
                j,
            ) by {
            let (i, j) = choose|i: int, j: int|
                drawn_before(area, cache, (y - 1) as nat, w, i, j) && above[n] == placed_cell(
                    area,
                    cache,
                    i,
                    j,
                );
            assert(above[n] == placed_cell(area, cache, i, j));
            assert(drawn_before(area, cache, y, x, i, j));
            assert(all[n] == placed_cell(area, cache, i, j));
        }
    }
}

/// Every cell of the cache that lies within the area is drawn where it belongs,
/// and nothing else is.
pub proof fn law_cells_are_drawn_in_place(area: CellArea, cache: ChafaCache, r: Vec<PlacedCell>)
    requires
        call_ensures(blit_cells, (area, &cache), r),
    ensures
        forall|i: int, j: int|
            0 <= i < cache.width && i < area.width && 0 <= j < cache.height && j < area.height
                && #[trigger] has_cell(cache, i, j) ==> r@.contains(
                (PlacedCell {
                    x: (area.x + i) as u16,
                    y: (area.y + j) as u16,
                    cell: cache.cells@[j * cache.width + i],
                }),
            ),
        forall|n: int|
            0 <= n < r@.len() ==> exists|i: int, j: int|
                0 <= i < cache.width && i < area.width && 0 <= j < cache.height && j < area.height
                    && has_cell(cache, i, j) && #[trigger] r@[n] == #[trigger] placed_cell(
                    area,
                    cache,
                    i,
                    j,
                ),
{
    let h = lesser(cache.height, area.height);
    lemma_placed_members(area, cache, h, 0);
    assert forall|i: int, j: int|
        0 <= i < cache.width && i < area.width && 0 <= j < cache.height && j < area.height
            && #[trigger] has_cell(cache, i, j) implies r@.contains(
        placed_cell(area, cache, i, j),
    ) by {
        assert(drawn_before(area, cache, h, 0, i, j));
    }
    assert forall|n: int| 0 <= n < r@.len() implies exists|i: int, j: int|
        0 <= i < cache.width && i < area.width && 0 <= j < cache.height && j < area.height
            && has_cell(cache, i, j) && #[trigger] r@[n] == #[trigger] placed_cell(
            area,
            cache,
            i,
            j,
        ) by {
        let (i, j) = choose|i: int, j: int|
            drawn_before(area, cache, h, 0, i, j) && placed(area, cache, h, 0)[n] == placed_cell(
                area,
                cache,
                i,
                j,
            );
        assert(r@[n] == placed_cell(area, cache, i, j));
    }
}

/// The library is looked for under its usual names, and in the Nix store only
/// in the package that holds it.
pub proof fn law_where_chafa_is(
    names: Vec<&'static str>,
    entry: &str,
    r: bool,
)
    requires
        call_ensures(chafa_sonames, (), names),
        call_ensures(is_chafa_store_entry, (entry,), r),
    ensures
        names@.len() == 3,
        names@[0]@ == "libchafa.so.0"@,
        r ==> occurs(entry@, "-chafa-"@),
        forall|front: Seq<char>| entry@ == #[trigger] (front + "-dev"@) ==> !r,
        forall|front: Seq<char>| entry@ == #[trigger] (front + "-bin"@) ==> !r,
        forall|front: Seq<char>| entry@ == #[trigger] (front + "-man"@) ==> !r,
{
    assert forall|front: Seq<char>| entry@ == #[trigger] (front + "-dev"@) implies !r by {
        assert(entry@.skip(front.len() as int) =~= "-dev"@);
    }
    assert forall|front: Seq<char>| entry@ == #[trigger] (front + "-bin"@) implies !r by {
        assert(entry@.skip(front.len() as int) =~= "-bin"@);
    }
    assert forall|front: Seq<char>| entry@ == #[trigger] (front + "-man"@) implies !r by {
        assert(entry@.skip(front.len() as int) =~= "-man"@);
    }
}

} // verus!
