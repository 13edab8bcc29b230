pub mod view;
