pub mod fetch;
