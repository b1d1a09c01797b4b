pub mod cargo;
