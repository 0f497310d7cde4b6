pub mod collective;
