pub mod anniversary;
