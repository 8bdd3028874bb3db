//! Coordinate, identity, and orientation model for a two-block
//! falling-piece puzzle: grid and pixel coordinates, a four-valued
//! direction algebra, colored blocks with unique identities, and a
//! two-block piece that moves and rotates on the grid.

pub mod values;
