use vstd::prelude::*;

verus! {

/// What the surrounding program must supply before a parse can start:
/// the location of the font file to read.
pub struct Config {
    pub font_path: String,
}

impl Config {
    pub fn new(font_path: String) -> (c: Config)
        ensures
            c.font_path@ == font_path@,
    {
        Config { font_path }
    }
}

} // verus!
