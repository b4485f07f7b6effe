//! Renders a stylized ASCII/ANSI tree for a terminal: a star, rows of leaves
//! with randomly colored "lights", and a trunk, scaled by a level count.
//!
//! The geometry of the tree (row widths, centering padding) and the structure
//! of every rendered row are specified and verified; only the random choices
//! (which leaf positions are lit, which palette color each light gets) come
//! from the `rand` crate through trusted wrappers.

mod color;
mod geometry;
mod lights;
mod tree;

pub use color::TermColor;
pub use color::default_palette;
pub use color::reset_str;
pub use color::spec_color_escape;
pub use color::spec_reset;
pub use color::spec_trunk_escape;
pub use color::trunk_str;
pub use geometry::left_pad;
pub use geometry::lemma_geometry_idempotent;
pub use geometry::lemma_row_width_odd_increasing;
pub use geometry::lemma_row_within_bounds;
pub use geometry::nth_odd;
pub use geometry::spec_left_pad;
pub use geometry::spec_row_width;
pub use geometry::spec_total_padding;
pub use geometry::spec_trunk_count;
pub use geometry::total_padding;
pub use geometry::trunk_count;
pub use lights::cells_ok;
pub use lights::compose_row;
pub use lights::count_lit;
pub use lights::count_plain;
pub use lights::draw_cells;
pub use lights::is_lit_row;
pub use lights::leaves_with_lights;
pub use lights::lemma_full_lights_all_lit;
pub use lights::lemma_light_count_bounds;
pub use lights::lemma_light_count_extremes;
pub use lights::lemma_lit_plus_plain;
pub use lights::lemma_no_lights_all_plain;
pub use lights::light_count;
pub use lights::spec_cell;
pub use lights::spec_light_count;
pub use lights::spec_row_body;
pub use tree::leaf_row;
pub use tree::render_tree;
pub use tree::spaces;
pub use tree::spec_leaf_row_ok;
pub use tree::spec_spaces;
pub use tree::spec_star_row;
pub use tree::spec_trunk_row;
pub use tree::star_row;
pub use tree::trunk_row;
