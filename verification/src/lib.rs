pub mod belt;
pub mod direction;
pub mod grid;

pub use belt::Belt;
pub use belt::Turn;
pub use direction::Direction;
pub use grid::Grid;
