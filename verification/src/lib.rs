//! A static site generator for blogs: Markdown with YAML front matter goes in,
//! templated HTML pages, redirect stubs and RSS feeds come out.

pub mod builder;
pub mod cli;
pub mod codeblock;
pub mod error;
pub mod escape;
pub mod feed;
pub mod heading;
pub mod laws;
pub mod listing;
pub mod markdown;
pub mod metadata;
pub mod output;
pub mod paths;
pub mod plan;
pub mod rewrite;
pub mod server;
pub mod site;
pub mod template;
pub mod text;
pub mod tree;
pub mod watch;
pub mod weburl;
