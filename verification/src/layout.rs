//! The desktop grid: its configuration file, the automatic fill of a
//! container with uniform tiles, and the cells that result.

use crate::decimal::{i32_value, parse_i32};
use crate::text::{
    fields, has_prefix, lines, rows, same_chars, split_fields, split_lines, starts_with, to_chars,
    to_string, trim, trimmed,
};
use vstd::arithmetic::div_mod::lemma_fundamental_div_mod_converse;
use vstd::prelude::*;
use vstd::string::StringExecFns;

verus! {

/// Margin kept free on each side of the desktop grid.
pub const DESKTOP_MARGIN: u32 = 80;

/// Space between two neighbouring tiles of the desktop grid.
pub const DESKTOP_SPACING: u32 = 30;

/// Width and height of a tile of the desktop grid.
pub const DESKTOP_TILE: u32 = 200;

/// The measures from which a uniform grid is computed.
#[derive(Clone, Copy, Debug, PartialEq, Eq)]
pub struct GridGeometry {
    /// Kept free at both ends of each axis.
    pub margin: u32,
    /// Between two neighbouring tiles.
    pub spacing: u32,
    /// Width and height of a tile; at least 1.
    pub tile: u32,
}

impl GridGeometry {
    /// Well-formed: tiles have a size.
    pub open spec fn wf(self) -> bool {
        self.tile >= 1
    }

    /// What is left of `extent` once the margin is taken off at both ends.
    pub open spec fn usable(self, extent: u32) -> int {
        if extent >= 2 * self.margin {
            extent - 2 * self.margin
        } else {
            0
        }
    }

    /// How many tiles fit along an axis of length `extent`.
    pub open spec fn fit(self, extent: u32) -> int {
        let usable = self.usable(extent);
        if usable + self.spacing >= self.tile + self.spacing {
            (usable + self.spacing) / (self.tile + self.spacing)
        } else {
            0
        }
    }

    /// A geometry with the given measures; `None` where `tile` is zero.
    pub fn new(margin: u32, spacing: u32, tile: u32) -> (g: Option<Self>)
        ensures
            tile == 0 <==> g is None,
            g matches Some(x) ==> x == (GridGeometry { margin, spacing, tile }) && x.wf(),
    {
        if tile == 0 {
            None
        } else {
            Some(GridGeometry { margin, spacing, tile })
        }
    }

    /// The geometry of the desktop grid.
    pub open spec fn desktop_spec() -> GridGeometry {
        GridGeometry { margin: DESKTOP_MARGIN, spacing: DESKTOP_SPACING, tile: DESKTOP_TILE }
    }

    /// The geometry of the desktop grid.
    #[verifier::when_used_as_spec(desktop_spec)]
    pub fn desktop() -> (g: Self)
        ensures
            g == Self::desktop_spec(),
            g.wf(),
    {
        GridGeometry { margin: DESKTOP_MARGIN, spacing: DESKTOP_SPACING, tile: DESKTOP_TILE }
    }

    /// Computes [`GridGeometry::fit`].
    pub fn tiles_along(&self, extent: u32) -> (count: u32)
        requires
            self.wf(),
        ensures
            count == self.fit(extent),
    {
        let usable: u64 = if extent as u64 >= 2 * (self.margin as u64) {
            extent as u64 - 2 * (self.margin as u64)
        } else {
            0
        };
        let pitch: u64 = self.tile as u64 + self.spacing as u64;
        if usable + self.spacing as u64 >= pitch {
            let count: u64 = (usable + self.spacing as u64) / pitch;
            assert(count <= usable) by (nonlinear_arith)
                requires
                    count == (usable + self.spacing) / (pitch as int),
                    pitch == self.tile + self.spacing,
                    self.tile >= 1,
                    usable >= 0,
                    self.spacing >= 0,
            {
                let s = self.spacing as int;
                let t = self.tile as int;
                assert((usable + s) / (t + s) * (t + s) <= usable + s);
                assert(count * (t + s) <= usable + s);
                if count > usable {
                    assert(count * (t + s) >= (usable + 1) * (t + s));
                    assert((usable + 1) * (t + s) >= (usable + 1) * (1 + s));
                    assert((usable + 1) * (1 + s) == usable + 1 + usable * s + s);
                    assert(usable * s >= 0);
                }
            }
            count as u32
        } else {
            0
        }
    }
}

/// Rows and columns of the desktop grid in a container of the given size, in
/// this order.
pub fn cal_matrix(box_width: u32, box_height: u32) -> (matrix: (u32, u32))
    ensures
        matrix.0 == GridGeometry::desktop().fit(box_height),
        matrix.1 == GridGeometry::desktop().fit(box_width),
{
    let geometry = GridGeometry::desktop();
    (geometry.tiles_along(box_height), geometry.tiles_along(box_width))
}

/// A numbered placeholder tile of the automatic fill.
#[derive(Clone, Copy, Debug, PartialEq, Eq, Structural)]
pub struct Tile {
    /// Counted from 1, row by row.
    pub number: u64,
    pub row: u32,
    pub col: u32,
}

/// The tile with index `i`, counted from 0 row by row, in a grid of `cols`
/// columns.
pub open spec fn tile_at(i: int, cols: int) -> Tile {
    Tile { number: (i + 1) as u64, row: (i / cols) as u32, col: (i % cols) as u32 }
}

/// The tiles of a grid of `rows` rows and `cols` columns, row by row.
pub open spec fn grid_tiles(rows: u32, cols: u32) -> Seq<Tile> {
    Seq::new((rows * cols) as nat, |i: int| tile_at(i, cols as int))
}

/// Computes [`grid_tiles`].
pub fn autofill_tiles(rows: u32, cols: u32) -> (tiles: Vec<Tile>)
    ensures
        tiles@ == grid_tiles(rows, cols),
{
    let mut tiles: Vec<Tile> = Vec::new();
    let mut row: u32 = 0;
    while row < rows
        invariant
            row <= rows,
            tiles@.len() == row * cols,
            forall|i: int| 0 <= i < tiles@.len() ==> tiles@[i] == tile_at(i, cols as int),
        decreases rows - row,
    {
        let mut col: u32 = 0;
        while col < cols
            invariant
                row < rows,
                col <= cols,
                tiles@.len() == row * cols + col,
                forall|i: int| 0 <= i < tiles@.len() ==> tiles@[i] == tile_at(i, cols as int),
            decreases cols - col,
        {
            let ghost i = row * cols + col;
            proof {
                lemma_fundamental_div_mod_converse(i, cols as int, row as int, col as int);
                assert(row * cols + col < rows * cols) by (nonlinear_arith)
                    requires
                        row < rows,
                        col < cols,
                ;
                assert(rows * cols <= 0xffff_ffff * 0xffff_ffff) by (nonlinear_arith)
                    requires
                        rows <= 0xffff_ffff,
                        cols <= 0xffff_ffff,
                ;
            }
            let number: u64 = row as u64 * cols as u64 + col as u64 + 1;
            tiles.push(Tile { number, row, col });
            col += 1;
        }
        assert(row * cols + cols == (row + 1) * cols) by (nonlinear_arith);
        row += 1;
    }
    assert(tiles@ =~= grid_tiles(rows, cols));
    tiles
}

/// One folder tile of the desktop grid, as the configuration describes it.
#[derive(Clone, Debug, PartialEq, Eq)]
pub struct GridItem {
    pub width: i32,
    pub height: i32,
    pub colspan: i32,
    pub rowspan: i32,
    pub col: i32,
    pub row: i32,
    pub path: String,
}

/// The mathematical view of a [`GridItem`].
pub struct GridItemView {
    pub width: i32,
    pub height: i32,
    pub colspan: i32,
    pub rowspan: i32,
    pub col: i32,
    pub row: i32,
    pub path: Seq<char>,
}

impl View for GridItem {
    type V = GridItemView;

    open spec fn view(&self) -> GridItemView {
        GridItemView {
            width: self.width,
            height: self.height,
            colspan: self.colspan,
            rowspan: self.rowspan,
            col: self.col,
            row: self.row,
            path: self.path@,
        }
    }
}

/// How a folder tile shows itself.
#[derive(Clone, Copy, Debug, PartialEq, Eq, Structural)]
pub enum FolderFace {
    /// The icon alone: the tile is square.
    Icon,
    /// The icon with the path beside it: the tile is wider than high.
    IconBesideLabel,
    /// The icon with the path below it: the tile is higher than wide.
    IconAboveLabel,
}

/// What a click on a folder tile opens the folder with.
#[derive(Clone, Copy, Debug, PartialEq, Eq, Structural)]
pub enum Opener {
    /// The file manager.
    FileManager,
    /// The application that the desktop associates with folders.
    Associated,
}

impl Opener {
    /// The name of the program that opens the folder.
    pub open spec fn program_spec(self) -> Seq<char> {
        match self {
            Opener::FileManager => "nautilus"@,
            Opener::Associated => "xdg-open"@,
        }
    }

    /// The name of the program that opens the folder.
    pub fn program(&self) -> (name: &'static str)
        ensures
            name@ == self.program_spec(),
    {
        match self {
            Opener::FileManager => "nautilus",
            Opener::Associated => "xdg-open",
        }
    }
}

/// The opener for a click with the given mouse button: the file manager for
/// the first button, the associated application for the third, none for any
/// other.
pub fn opener_for_button(button: u32) -> (opener: Option<Opener>)
    ensures
        opener == (if button == 1 {
            Some(Opener::FileManager)
        } else if button == 3 {
            Some(Opener::Associated)
        } else {
            None
        }),
{
    if button == 1 {
        Some(Opener::FileManager)
    } else if button == 3 {
        Some(Opener::Associated)
    } else {
        None
    }
}

impl GridItem {
    /// A copy of this item.
    pub fn duplicate(&self) -> (item: Self)
        ensures
            item == *self,
    {
        GridItem {
            width: self.width,
            height: self.height,
            colspan: self.colspan,
            rowspan: self.rowspan,
            col: self.col,
            row: self.row,
            path: self.path.clone(),
        }
    }

    /// How the tile shows itself, by its proportions.
    pub fn face(&self) -> (face: FolderFace)
        ensures
            face == (if self.width == self.height {
                FolderFace::Icon
            } else if self.width > self.height {
                FolderFace::IconBesideLabel
            } else {
                FolderFace::IconAboveLabel
            }),
    {
        if self.width == self.height {
            FolderFace::Icon
        } else if self.width > self.height {
            FolderFace::IconBesideLabel
        } else {
            FolderFace::IconAboveLabel
        }
    }
}

/// The views of `items`.
pub open spec fn item_views(items: Seq<GridItem>) -> Seq<GridItemView> {
    items.map_values(|item: GridItem| item@)
}

/// The text `file|`, which begins the line of a folder tile.
pub open spec fn file_key() -> Seq<char> {
    seq!['f', 'i', 'l', 'e', '|']
}

/// The word `fill`, which asks for the automatic fill.
pub open spec fn fill_word() -> Seq<char> {
    seq!['f', 'i', 'l', 'l']
}

/// The number that `field` writes, or `default` where it writes none.
pub open spec fn number_or(field: Seq<char>, default: i32) -> i32 {
    match i32_value(field) {
        Some(v) => v,
        None => default,
    }
}

/// The folder tile that `line` describes, if it describes one: it begins
/// with `file|` and has eight fields at least, separated by `|`. Fields two
/// to seven are width, height, column span, row span, column and row; one
/// that is no number stands for 200, 200, 1, 1, 0 and 0 in this order. The
/// eighth, trimmed, is the path.
pub open spec fn item_of(line: Seq<char>) -> Option<GridItemView> {
    let parts = fields(line, '|');
    if starts_with(line, file_key()) && parts.len() >= 8 {
        Some(
            GridItemView {
                width: number_or(parts[1], 200),
                height: number_or(parts[2], 200),
                colspan: number_or(parts[3], 1),
                rowspan: number_or(parts[4], 1),
                col: number_or(parts[5], 0),
                row: number_or(parts[6], 0),
                path: trim(parts[7]),
            },
        )
    } else {
        None
    }
}

/// Whether `line` asks for the automatic fill: it holds the word `fill` and
/// nothing else but white space around it.
pub open spec fn is_fill(line: Seq<char>) -> bool {
    trim(line) == fill_word()
}

/// The folder tiles that `lines` describe, in order. Lines that describe
/// none are passed over.
pub open spec fn items_of(lines: Seq<Seq<char>>) -> Seq<GridItemView>
    decreases lines.len(),
{
    if lines.len() == 0 {
        Seq::empty()
    } else {
        match item_of(lines.last()) {
            Some(item) => items_of(lines.drop_last()).push(item),
            None => items_of(lines.drop_last()),
        }
    }
}

/// Whether one of `lines` asks for the automatic fill.
pub open spec fn asks_fill(lines: Seq<Seq<char>>) -> bool {
    exists|i: int| 0 <= i < lines.len() && is_fill(#[trigger] lines[i])
}

/// The layout configuration, parsed.
#[derive(Clone, Debug, PartialEq, Eq)]
pub struct Layout {
    /// Whether the automatic fill is asked for.
    pub fill: bool,
    /// The folder tiles, in file order.
    pub items: Vec<GridItem>,
}

fn number_field(field: &Vec<char>, default: i32) -> (n: i32)
    ensures
        n == number_or(field@, default),
{
    match parse_i32(field.as_slice()) {
        Some(v) => v,
        None => default,
    }
}

/// Computes [`item_of`].
pub fn parse_item(line: &[char]) -> (item: Option<GridItem>)
    ensures
        match item_of(line@) {
            Some(v) => item matches Some(x) && x@ == v,
            None => item is None,
        },
{
    let key: [char; 5] = ['f', 'i', 'l', 'e', '|'];
    assert(key@ == file_key());
    if !has_prefix(line, key.as_slice()) {
        return None;
    }
    let parts = split_fields(line, '|');
    if parts.len() < 8 {
        return None;
    }
    proof {
        assert forall|k: int| 0 <= k < parts@.len() implies (#[trigger] rows(parts@)[k])
            == parts@[k]@ by {}
    }
    let path = trimmed(parts[7].as_slice());
    Some(
        GridItem {
            width: number_field(&parts[1], 200),
            height: number_field(&parts[2], 200),
            colspan: number_field(&parts[3], 1),
            rowspan: number_field(&parts[4], 1),
            col: number_field(&parts[5], 0),
            row: number_field(&parts[6], 0),
            path: to_string(path.as_slice()),
        },
    )
}

/// Parses the layout configuration: whether a line asks for the automatic
/// fill, and the folder tiles in file order.
pub fn parse_layout(text: &str) -> (layout: Layout)
    ensures
        layout.fill == asks_fill(lines(text@)),
        item_views(layout.items@) == items_of(lines(text@)),
{
    let chars = to_chars(text);
    let all = split_lines(chars.as_slice());
    let word: [char; 4] = ['f', 'i', 'l', 'l'];
    assert(word@ == fill_word());
    let mut fill = false;
    let mut items: Vec<GridItem> = Vec::new();
    let mut i: usize = 0;
    assert(rows(all@).take(0) == Seq::<Seq<char>>::empty());
    assert(item_views(items@) == Seq::<GridItemView>::empty());
    while i < all.len()
        invariant
            i <= all.len(),
            word@ == fill_word(),
            fill == asks_fill(rows(all@).take(i as int)),
            item_views(items@) == items_of(rows(all@).take(i as int)),
        decreases all.len() - i,
    {
        let line = &all[i];
        let ghost seen = rows(all@).take(i as int);
        let ghost more = rows(all@).take(i + 1);
        let ghost before = item_views(items@);
        proof {
            assert(more.drop_last() == seen);
            assert(more.last() == line@);
        }
        let t = trimmed(line.as_slice());
        let here = same_chars(t.as_slice(), word.as_slice());
        proof {
            if fill || here {
                let k = if fill {
                    choose|k: int| 0 <= k < seen.len() && is_fill(#[trigger] seen[k])
                } else {
                    i as int
                };
                assert(is_fill(more[k]));
            } else {
                assert forall|k: int| 0 <= k < more.len() implies !is_fill(#[trigger] more[k]) by {
                    if k < seen.len() {
                        assert(seen[k] == more[k]);
                    }
                }
            }
        }
        fill = fill || here;
        match parse_item(line.as_slice()) {
            Some(item) => {
                assert(item_views(items@.push(item)) == before.push(item@));
                items.push(item);
            },
            None => {},
        }
        i += 1;
    }
    assert(rows(all@).take(all@.len() as int) == rows(all@));
    Layout { fill, items }
}

/// What the layout configuration holds when the file is created: the request
/// for the automatic fill.
pub const DEFAULT_LAYOUT: &'static str = "fill";

/// Decides what the layout configuration is, given what the file holds, or
/// `None` where there is no file: the text to use, and whether the file has
/// to be created with it.
pub fn config_control(existing: Option<String>) -> (r: (String, bool))
    ensures
        match existing {
            Some(text) => r.0 == text && !r.1,
            None => r.0@ == DEFAULT_LAYOUT@ && r.1,
        },
{
    match existing {
        Some(text) => (text, false),
        None => (String::from_str(DEFAULT_LAYOUT), true),
    }
}

/// One cell of the desktop grid.
#[derive(Clone, Debug, PartialEq, Eq)]
pub enum GridCell {
    /// A numbered placeholder of the automatic fill.
    Tile(Tile),
    /// A folder tile.
    Folder(GridItem),
}

impl GridCell {
    /// A copy of this cell.
    pub fn duplicate(&self) -> (cell: Self)
        ensures
            cell == *self,
    {
        match self {
            GridCell::Tile(tile) => GridCell::Tile(*tile),
            GridCell::Folder(item) => GridCell::Folder(item.duplicate()),
        }
    }
}

/// `tiles` as grid cells.
pub open spec fn tile_cells(tiles: Seq<Tile>) -> Seq<GridCell> {
    tiles.map_values(|t: Tile| GridCell::Tile(t))
}

/// `items` as grid cells.
pub open spec fn folder_cells(items: Seq<GridItem>) -> Seq<GridCell> {
    items.map_values(|item: GridItem| GridCell::Folder(item))
}

/// The cells of the desktop grid for `layout` in a container of the given
/// size: the numbered tiles of the automatic fill where it is asked for,
/// then the folder tiles.
pub open spec fn grid_cells(layout: Layout, width: u32, height: u32) -> Seq<GridCell> {
    let geometry = GridGeometry::desktop();
    let tiles = if layout.fill {
        tile_cells(grid_tiles(geometry.fit(height) as u32, geometry.fit(width) as u32))
    } else {
        Seq::empty()
    };
    tiles + folder_cells(layout.items@)
}

/// Builds the desktop grid: computes [`grid_cells`].
pub fn build(layout: &Layout, width: u32, height: u32) -> (cells: Vec<GridCell>)
    ensures
        cells@ == grid_cells(*layout, width, height),
{
    let mut cells: Vec<GridCell> = Vec::new();
    let ghost mut head: Seq<GridCell> = Seq::empty();
    if layout.fill {
        let (rows, cols) = cal_matrix(width, height);
        let tiles = autofill_tiles(rows, cols);
        let mut i: usize = 0;
        while i < tiles.len()
            invariant
                i <= tiles.len(),
                cells@ == tile_cells(tiles@.take(i as int)),
            decreases tiles.len() - i,
        {
            assert(tile_cells(tiles@.take(i + 1)) == tile_cells(tiles@.take(i as int)).push(
                GridCell::Tile(tiles@[i as int]),
            ));
            cells.push(GridCell::Tile(tiles[i]));
            i += 1;
        }
        assert(tiles@.take(tiles@.len() as int) == tiles@);
        proof {
            head = cells@;
        }
    }
    let mut j: usize = 0;
    while j < layout.items.len()
        invariant
            j <= layout.items.len(),
            cells@ == head + folder_cells(layout.items@.take(j as int)),
        decreases layout.items.len() - j,
    {
        assert(folder_cells(layout.items@.take(j + 1)) == folder_cells(
            layout.items@.take(j as int),
        ).push(GridCell::Folder(layout.items@[j as int])));
        cells.push(GridCell::Folder(layout.items[j].duplicate()));
        j += 1;
    }
    assert(layout.items@.take(layout.items@.len() as int) == layout.items@);
    cells
}

} // verus!
