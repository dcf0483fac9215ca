pub mod tower;
