pub mod constraint;
pub mod point;
pub mod shapes;
pub mod ui;
