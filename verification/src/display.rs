//! View-model helpers for the game board: the style classes a tile gets
//! from its position, value and label length, and the emoji rendering of a
//! board for sharing. Pure string computations, kept apart from any
//! rendering framework.

use vstd::prelude::*;
use vstd::string::StringSliceAdditionalSpecFns;

verus! {

/// The vertical position class for a row on a board of 4, 5 or 6 columns.
pub open spec fn row_class(row_start: usize, size: usize) -> Seq<char> {
    if row_start == 0 {
        "top-0"@
    } else if row_start == 1 && size == 4 {
        "top-1/4"@
    } else if row_start == 2 && size == 4 {
        "top-2/4"@
    } else if row_start == 3 && size == 4 {
        "top-3/4"@
    } else if row_start == 1 && size == 5 {
        "top-1/5"@
    } else if row_start == 2 && size == 5 {
        "top-2/5"@
    } else if row_start == 3 && size == 5 {
        "top-3/5"@
    } else if row_start == 4 && size == 5 {
        "top-4/5"@
    } else if row_start == 1 && size == 6 {
        "top-1/6"@
    } else if row_start == 2 && size == 6 {
        "top-2/6"@
    } else if row_start == 3 && size == 6 {
        "top-3/6"@
    } else if row_start == 4 && size == 6 {
        "top-4/6"@
    } else if row_start == 5 && size == 6 {
        "top-5/6"@
    } else {
        ""@
    }
}

/// The horizontal position class for a column, as for rows.
pub open spec fn col_class(col_start: usize, size: usize) -> Seq<char> {
    if col_start == 0 {
        "left-0"@
    } else if col_start == 1 && size == 4 {
        "left-1/4"@
    } else if col_start == 2 && size == 4 {
        "left-2/4"@
    } else if col_start == 3 && size == 4 {
        "left-3/4"@
    } else if col_start == 1 && size == 5 {
        "left-1/5"@
    } else if col_start == 2 && size == 5 {
        "left-2/5"@
    } else if col_start == 3 && size == 5 {
        "left-3/5"@
    } else if col_start == 4 && size == 5 {
        "left-4/5"@
    } else if col_start == 1 && size == 6 {
        "left-1/6"@
    } else if col_start == 2 && size == 6 {
        "left-2/6"@
    } else if col_start == 3 && size == 6 {
        "left-3/6"@
    } else if col_start == 4 && size == 6 {
        "left-4/6"@
    } else if col_start == 5 && size == 6 {
        "left-5/6"@
    } else {
        ""@
    }
}

fn row_class_str(row_start: usize, size: usize) -> (r: &'static str)
    ensures
        r@ == row_class(row_start, size),
{
    if row_start == 0 {
        "top-0"
    } else if row_start == 1 && size == 4 {
        "top-1/4"
    } else if row_start == 2 && size == 4 {
        "top-2/4"
    } else if row_start == 3 && size == 4 {
        "top-3/4"
    } else if row_start == 1 && size == 5 {
        "top-1/5"
    } else if row_start == 2 && size == 5 {
        "top-2/5"
    } else if row_start == 3 && size == 5 {
        "top-3/5"
    } else if row_start == 4 && size == 5 {
        "top-4/5"
    } else if row_start == 1 && size == 6 {
        "top-1/6"
    } else if row_start == 2 && size == 6 {
        "top-2/6"
    } else if row_start == 3 && size == 6 {
        "top-3/6"
    } else if row_start == 4 && size == 6 {
        "top-4/6"
    } else if row_start == 5 && size == 6 {
        "top-5/6"
    } else {
        ""
    }
}

fn col_class_str(col_start: usize, size: usize) -> (r: &'static str)
    ensures
        r@ == col_class(col_start, size),
{
    if col_start == 0 {
        "left-0"
    } else if col_start == 1 && size == 4 {
        "left-1/4"
    } else if col_start == 2 && size == 4 {
        "left-2/4"
    } else if col_start == 3 && size == 4 {
        "left-3/4"
    } else if col_start == 1 && size == 5 {
        "left-1/5"
    } else if col_start == 2 && size == 5 {
        "left-2/5"
    } else if col_start == 3 && size == 5 {
        "left-3/5"
    } else if col_start == 4 && size == 5 {
        "left-4/5"
    } else if col_start == 1 && size == 6 {
        "left-1/6"
    } else if col_start == 2 && size == 6 {
        "left-2/6"
    } else if col_start == 3 && size == 6 {
        "left-3/6"
    } else if col_start == 4 && size == 6 {
        "left-4/6"
    } else if col_start == 5 && size == 6 {
        "left-5/6"
    } else {
        ""
    }
}

/// The combined position classes for a tile at `(row_start, col_start)` on
/// a `size`-wide board.
pub fn get_position_class(row_start: usize, col_start: usize, size: usize) -> (r: String)
    ensures
        r@ == row_class(row_start, size) + " "@ + col_class(col_start, size),
{
    let mut out: String = row_class_str(row_start, size).to_owned();
    out.append(" ");
    out.append(col_class_str(col_start, size));
    out
}

/// The background and text color classes for a tile value; values above
/// 2048 keep the 2048 colors.
pub open spec fn tile_color_class(tile_size: usize) -> Seq<char> {
    if tile_size == 0 {
        "bg-light-grid-cell-0"@
    } else if tile_size == 2 {
        "bg-light-grid-cell-2 text-light-grid-cell-text-2"@
    } else if tile_size == 4 {
        "bg-light-grid-cell-4 text-light-grid-cell-text-4"@
    } else if tile_size == 8 {
        "bg-light-grid-cell-8 text-light-grid-cell-text-8"@
    } else if tile_size == 16 {
        "bg-light-grid-cell-16 text-light-grid-cell-text-16"@
    } else if tile_size == 32 {
        "bg-light-grid-cell-32 text-light-grid-cell-text-32"@
    } else if tile_size == 64 {
        "bg-light-grid-cell-64 text-light-grid-cell-text-64"@
    } else if tile_size == 128 {
        "bg-light-grid-cell-128 text-light-grid-cell-text-128"@
    } else if tile_size == 256 {
        "bg-light-grid-cell-256 text-light-grid-cell-text-256"@
    } else if tile_size == 512 {
        "bg-light-grid-cell-512 text-light-grid-cell-text-512"@
    } else if tile_size == 1024 {
        "bg-light-grid-cell-1024 text-light-grid-cell-text-1024"@
    } else {
        "bg-light-grid-cell-2048 text-light-grid-cell-text-2048"@
    }
}

pub fn get_bg_color_and_text_color<'a>(tile_size: usize) -> (r: &'a str)
    ensures
        r@ == tile_color_class(tile_size),
{
    if tile_size == 0 {
        "bg-light-grid-cell-0"
    } else if tile_size == 2 {
        "bg-light-grid-cell-2 text-light-grid-cell-text-2"
    } else if tile_size == 4 {
        "bg-light-grid-cell-4 text-light-grid-cell-text-4"
    } else if tile_size == 8 {
        "bg-light-grid-cell-8 text-light-grid-cell-text-8"
    } else if tile_size == 16 {
        "bg-light-grid-cell-16 text-light-grid-cell-text-16"
    } else if tile_size == 32 {
        "bg-light-grid-cell-32 text-light-grid-cell-text-32"
    } else if tile_size == 64 {
        "bg-light-grid-cell-64 text-light-grid-cell-text-64"
    } else if tile_size == 128 {
        "bg-light-grid-cell-128 text-light-grid-cell-text-128"
    } else if tile_size == 256 {
        "bg-light-grid-cell-256 text-light-grid-cell-text-256"
    } else if tile_size == 512 {
        "bg-light-grid-cell-512 text-light-grid-cell-text-512"
    } else if tile_size == 1024 {
        "bg-light-grid-cell-1024 text-light-grid-cell-text-1024"
    } else {
        "bg-light-grid-cell-2048 text-light-grid-cell-text-2048"
    }
}

/// The font size classes for a tile label of a given byte length; labels
/// over four bytes keep the four-byte size.
pub open spec fn font_size_class(len: int) -> Seq<char> {
    if len == 1 {
        "text-[4rem] md:text-[4rem]"@
    } else if len == 2 {
        "text-[3.2rem] md:text-[4rem] lg:text-[4rem]"@
    } else if len == 3 {
        "text-[2.5rem] md:text-[4rem] lg:text-[4rem]"@
    } else {
        "text-[1.5rem] md:text-[3.6rem] lg:text-[3.4rem]"@
    }
}

pub fn get_font_size(text: &str) -> (r: String)
    ensures
        r@ == font_size_class((text.spec_bytes().len() as usize) as int),
{
    let n = text.len();
    let class: &str = if n == 1 {
        "text-[4rem] md:text-[4rem]"
    } else if n == 2 {
        "text-[3.2rem] md:text-[4rem] lg:text-[4rem]"
    } else if n == 3 {
        "text-[2.5rem] md:text-[4rem] lg:text-[4rem]"
    } else {
        "text-[1.5rem] md:text-[3.6rem] lg:text-[3.4rem]"
    };
    class.to_owned()
}

/// The emoji standing for one tile value on a shared board.
pub open spec fn emoji_for(v: usize) -> char {
    if v == 2 || v == 4 {
        '\u{2b1c}'
    } else if v == 8 {
        '\u{1f7e7}'
    } else if v == 16 {
        '\u{1f7eb}'
    } else if v == 32 || v == 64 {
        '\u{1f7e5}'
    } else if v == 128 || v == 256 || v == 1024 {
        '\u{1f7e8}'
    } else if v == 2048 {
        '\u{2b50}'
    } else {
        '\u{1f92f}'
    }
}

/// A board's tile values as emoji, four to a line: each value's emoji, with
/// a newline after every fourth column.
pub open spec fn emoji_rows(vals: Seq<usize>, col: int) -> Seq<char>
    decreases vals.len(),
{
    if vals.len() == 0 {
        Seq::empty()
    } else {
        let sep: Seq<char> = if col == 3 {
            seq!['\n']
        } else {
            Seq::empty()
        };
        let next_col: int = if col == 3 {
            0
        } else {
            col + 1
        };
        seq![emoji_for(vals[0])] + sep + emoji_rows(vals.drop_first(), next_col)
    }
}

fn emoji_str(v: usize) -> (r: &'static str)
    ensures
        r@ == seq![emoji_for(v)],
{
    proof {
        reveal_strlit("\u{2b1c}");
        reveal_strlit("\u{1f7e7}");
        reveal_strlit("\u{1f7eb}");
        reveal_strlit("\u{1f7e5}");
        reveal_strlit("\u{1f7e8}");
        reveal_strlit("\u{2b50}");
        reveal_strlit("\u{1f92f}");
    }
    if v == 2 || v == 4 {
        "\u{2b1c}"
    } else if v == 8 {
        "\u{1f7e7}"
    } else if v == 16 {
        "\u{1f7eb}"
    } else if v == 32 || v == 64 {
        "\u{1f7e5}"
    } else if v == 128 || v == 256 || v == 1024 {
        "\u{1f7e8}"
    } else if v == 2048 {
        "\u{2b50}"
    } else {
        "\u{1f92f}"
    }
}

/// Render a board's tile values as an emoji board for sharing.
pub fn _emoji_board(tile_values: Vec<usize>) -> (r: String)
    ensures
        r@ == emoji_rows(tile_values@, 0),
{
    proof {
        reveal_strlit("\n");
    }
    let mut out = String::new();
    let mut column_count: usize = 0;
    let n = tile_values.len();
    proof {
        assert(tile_values@.skip(0) =~= tile_values@);
    }
    for i in 0..n
        invariant
            n == tile_values.len(),
            0 <= column_count <= 3,
            emoji_rows(tile_values@, 0) == out@ + emoji_rows(
                tile_values@.skip(i as int),
                column_count as int,
            ),
    {
        proof {
            reveal_strlit("\n");
            assert(tile_values@.skip(i as int)[0] == tile_values@[i as int]);
            assert(tile_values@.skip(i as int).drop_first() =~= tile_values@.skip(i as int + 1));
            assert(emoji_rows(tile_values@.skip(i as int), column_count as int) == seq![
                emoji_for(tile_values@[i as int]),
            ] + (if column_count as int == 3 {
                seq!['\n']
            } else {
                Seq::<char>::empty()
            }) + emoji_rows(
                tile_values@.skip(i as int + 1),
                if column_count as int == 3 {
                    0int
                } else {
                    column_count as int + 1
                },
            ));
        }
        let ghost out0 = out@;
        let ghost col0 = column_count as int;
        out.append(emoji_str(tile_values[i]));
        if column_count == 3 {
            out.append("\n");
            column_count = 0;
        } else {
            column_count += 1;
        }
        proof {
            assert(out0 + emoji_rows(tile_values@.skip(i as int), col0) =~= out@ + emoji_rows(
                tile_values@.skip(i as int + 1),
                column_count as int,
            ));
        }
    }
    proof {
        assert(emoji_rows(tile_values@.skip(n as int), column_count as int) =~= Seq::<
            char,
        >::empty());
        assert(out@ + Seq::<char>::empty() =~= out@);
    }
    out
}

/// What places one background grid cell: its linear position and the board
/// width.
#[derive(Debug, Clone, PartialEq, Eq)]
pub struct GridProps {
    pub position: usize,
    pub size: usize,
}

/// What places and labels one tile.
#[derive(Debug, Clone, PartialEq, Eq)]
pub struct TileProps {
    pub tile_value: usize,
    pub new_tile: bool,
    pub x: usize,
    pub y: usize,
    pub size: usize,
}

/// What the scoreboard can ask of the game.
#[derive(Debug, Clone, PartialEq, Eq)]
pub enum ScoreBoardAction {
    NewGame,
}

/// The seed a new game may be started from.
#[derive(Debug, Clone, PartialEq, Eq)]
pub struct SeedProps {
    pub starting_seed: Option<u32>,
}

/// The score the scoreboard highlights: the running score once it passes
/// the stored best.
pub fn hiscore_to_display(score: usize, hiscore: usize) -> (r: usize)
    ensures
        r == if score > hiscore {
            score
        } else {
            hiscore
        },
{
    if score > hiscore {
        score
    } else {
        hiscore
    }
}

} // verus!
