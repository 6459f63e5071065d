pub mod window;
