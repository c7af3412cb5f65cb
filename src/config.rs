use vstd::prelude::*;

verus! {

/// Application configuration: the window's title, its size in logical pixels,
/// and whether it can be resized.
#[derive(Debug)]
pub struct Config {
    pub title: String,
    pub width: u16,
    pub height: u16,
    pub resizable: bool,
}

impl Default for Config {
    /// A fixed window of 1024 by 768 titled "kaffee".
    fn default() -> (c: Config)
        ensures
            c.title@ == "kaffee"@,
            c.width == 1024,
            c.height == 768,
            !c.resizable,
    {
        Config { title: "kaffee".to_owned(), width: 1024, height: 768, resizable: false }
    }
}

} // verus!
