pub mod text;
pub mod regex_ops;
pub mod filename_parser;
pub mod domain;
pub mod media_analyzer;
pub mod codec_names;
pub mod stream_server;
pub mod stream_content;
pub mod paths;
pub mod local_fs;
pub mod scanner;
pub mod url_encoding;
pub mod metadata_provider;
pub mod tmdb;
pub mod playback;
pub mod metadata_resolver;
pub mod library;
pub mod probe;
pub mod player;
