pub mod prompt;
