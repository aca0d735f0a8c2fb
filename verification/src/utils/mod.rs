pub mod file_handler;
