pub mod module_parser;
