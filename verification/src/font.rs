//! The fonts the program draws with.

use vstd::prelude::*;

verus! {

/// The message for an italic cut that a font does not have.
pub open spec fn no_italic_message() -> Seq<char> {
    "No italic font."@
}

/// The files of one font: the upright cut and, where there is one, the
/// italic cut.
pub struct Fonts {
    pub normal_path: &'static str,
    pub italic_path: Option<&'static str>,
}

/// The fonts of the program.
pub struct FontManager {
    pub monster_bites: Fonts,
}

impl FontManager {
    /// The fonts of the program, by the files they ship in.
    pub fn new() -> (r: Self)
        ensures
            r.monster_bites.normal_path@ == "assets/fonts/Monster Bites/Monster Bites.ttf"@,
            r.monster_bites.italic_path matches Some(path) && path@
                == "assets/fonts/Monster Bites/Monster Bites Italic.ttf"@,
    {
        FontManager {
            monster_bites: Fonts {
                normal_path: "assets/fonts/Monster Bites/Monster Bites.ttf",
                italic_path: Some("assets/fonts/Monster Bites/Monster Bites Italic.ttf"),
            },
        }
    }
}

impl Fonts {
    /// The file to load the upright cut from, with the size asked for.
    pub fn normal(&self, size: u16) -> (r: (&'static str, u16))
        ensures
            r == (self.normal_path, size),
    {
        (self.normal_path, size)
    }

    /// The file to load the italic cut from, with the size asked for; fails
    /// where the font has no italic cut.
    pub fn italic(&self, size: u16) -> (r: Result<(&'static str, u16), String>)
        ensures
            match r {
                Ok(request) => self.italic_path == Some(request.0) && request.1 == size,
                Err(message) => self.italic_path.is_none() && message@ == no_italic_message(),
            },
    {
        match self.italic_path {
            None => Err("No italic font.".to_owned()),
            Some(path) => Ok((path, size)),
        }
    }
}

} // verus!
