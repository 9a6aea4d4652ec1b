use vstd::prelude::*;

verus! {

/// Options for rendering a game state as a map image: the output file and
/// whether to also print the image to the terminal. The rendering itself
/// is performed by tooling outside the engine; this type only carries the
/// request.
#[derive(Clone)]
pub struct DrawMapOptions {
    pub filename: String,
    pub should_print: bool,
}

impl Default for DrawMapOptions {
    fn default() -> (r: DrawMapOptions)
        ensures
            r.filename@ == "output-map.png"@,
            !r.should_print,
    {
        DrawMapOptions { filename: "output-map.png".to_owned(), should_print: false }
    }
}

impl DrawMapOptions {
    /// Renders to the given file instead of the default one.
    pub fn filename(self, filename: &str) -> (r: DrawMapOptions)
        ensures
            r.filename@ == filename@,
            r.should_print == self.should_print,
    {
        DrawMapOptions { filename: filename.to_owned(), should_print: self.should_print }
    }

    /// Also prints the rendered map to the terminal.
    pub fn should_print(self) -> (r: DrawMapOptions)
        ensures
            r.should_print,
            r.filename == self.filename,
    {
        DrawMapOptions { filename: self.filename, should_print: true }
    }
}

} // verus!
