//! Types and pure helpers behind the share endpoints: the queries they
//! take, the server configuration they read, and the colors the board
//! renderer paints tiles with.

use vstd::prelude::*;

verus! {

/// The share server's configuration.
#[derive(Debug, Clone, PartialEq, Eq)]
pub struct Config {
    pub base_url: String,
    pub default_og_title: String,
    pub default_og_description: String,
}

/// What every request handler shares.
#[derive(Debug, Clone, PartialEq, Eq)]
pub struct ApiContext {
    pub config: Config,
}

/// The page metadata a shared game advertises.
#[derive(Debug, Clone, PartialEq, Eq)]
pub struct ServerConfigSchema {
    pub og_title: String,
    pub og_description: String,
}

/// The query of the board-image endpoint.
#[derive(Debug, Clone, PartialEq, Eq)]
pub struct GenerateImageQuery {
    pub seeded_recording: String,
}

/// The query of the share-page endpoint.
#[derive(Debug, Clone, PartialEq, Eq)]
pub struct ShareGameQuery {
    pub seeded_recording: String,
}

/// The fill color (red, green, blue, alpha) a tile of this value is painted
/// with; values outside the classic ladder share the empty-cell color.
pub open spec fn tile_color(value: usize) -> (u8, u8, u8, u8) {
    if value == 2 {
        (238u8, 228u8, 218u8, 255u8)
    } else if value == 4 {
        (237u8, 224u8, 200u8, 255u8)
    } else if value == 8 {
        (242u8, 177u8, 121u8, 255u8)
    } else if value == 16 {
        (245u8, 149u8, 99u8, 255u8)
    } else if value == 32 {
        (246u8, 124u8, 95u8, 255u8)
    } else if value == 64 {
        (246u8, 94u8, 59u8, 255u8)
    } else if value == 128 {
        (237u8, 207u8, 114u8, 255u8)
    } else if value == 256 {
        (237u8, 204u8, 97u8, 255u8)
    } else if value == 512 {
        (237u8, 200u8, 80u8, 255u8)
    } else if value == 1024 {
        (237u8, 197u8, 63u8, 255u8)
    } else if value == 2048 {
        (237u8, 194u8, 46u8, 255u8)
    } else {
        (205u8, 193u8, 180u8, 255u8)
    }
}

pub fn get_tile_color(value: usize) -> (r: (u8, u8, u8, u8))
    ensures
        r == tile_color(value),
{
    if value == 2 {
        (238, 228, 218, 255)
    } else if value == 4 {
        (237, 224, 200, 255)
    } else if value == 8 {
        (242, 177, 121, 255)
    } else if value == 16 {
        (245, 149, 99, 255)
    } else if value == 32 {
        (246, 124, 95, 255)
    } else if value == 64 {
        (246, 94, 59, 255)
    } else if value == 128 {
        (237, 207, 114, 255)
    } else if value == 256 {
        (237, 204, 97, 255)
    } else if value == 512 {
        (237, 200, 80, 255)
    } else if value == 1024 {
        (237, 197, 63, 255)
    } else if value == 2048 {
        (237, 194, 46, 255)
    } else {
        (205, 193, 180, 255)
    }
}

/// The label color for a tile of this value: dark on the two lightest
/// tiles, light everywhere else.
pub open spec fn text_color(value: usize) -> (u8, u8, u8, u8) {
    if value <= 4 {
        (119u8, 110u8, 101u8, 255u8)
    } else {
        (249u8, 246u8, 242u8, 255u8)
    }
}

pub fn get_text_color(value: usize) -> (r: (u8, u8, u8, u8))
    ensures
        r == text_color(value),
{
    if value <= 4 {
        (119, 110, 101, 255)
    } else {
        (249, 246, 242, 255)
    }
}

} // verus!
