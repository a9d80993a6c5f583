pub mod tx_sitter;
