pub mod view_model;
