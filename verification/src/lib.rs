pub mod camera;
pub mod canvas;
pub mod color;
pub mod material;
pub mod mathf;
pub mod phong_lighting;
pub mod point_light;
pub mod ppm;
pub mod transformations;
pub mod world;
