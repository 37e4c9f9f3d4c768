pub mod camera;
pub mod vertex;
