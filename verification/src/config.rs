pub mod json_loader;
