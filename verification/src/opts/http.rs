use vstd::prelude::*;

verus! {

/// The HTTP tool: serve a directory.
#[derive(Debug)]
pub enum HttpSubCommand {
    Serve(HttpServeOpts),
}

/// Arguments of the file server: directory to serve and port to listen on.
#[derive(Debug)]
pub struct HttpServeOpts {
    pub dir: String,
    pub port: u16,
}

} // verus!
