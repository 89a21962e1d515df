//! Choosing a font file and a size before the font is loaded.

use vstd::prelude::*;

verus! {

/// The message for a font that was asked for before a file was chosen.
pub open spec fn no_path_message() -> Seq<char> {
    "Font could not be loaded without path."@
}

/// The message for a font that was asked for before a size was chosen.
pub open spec fn no_size_message() -> Seq<char> {
    "Font could not be loaded without font_size."@
}

/// The choice of a font: a file and a size, each made separately and both
/// used up when the font is loaded.
pub struct FontManager {
    pub path: Option<String>,
    pub font_size: Option<u16>,
}

impl FontManager {
    /// A manager with nothing chosen.
    pub fn init() -> (r: Self)
        ensures
            r.path.is_none(),
            r.font_size.is_none(),
    {
        FontManager { path: None, font_size: None }
    }

    /// Chooses the size.
    pub fn size(&mut self, s: u16) -> (r: &mut Self)
        ensures
            r.font_size == Some(s),
            r.path == old(self).path,
            *final(self) == *final(r),
    {
        self.font_size = Some(s);
        self
    }

    /// Chooses the file.
    pub fn path(&mut self, p: String) -> (r: &mut Self)
        ensures
            r.path == Some(p),
            r.font_size == old(self).font_size,
            *final(self) == *final(r),
    {
        self.path = Some(p);
        self
    }

    /// Hands out the file and the size to load the font with, and forgets
    /// both. Where one of them is missing nothing is forgotten, and the
    /// missing file is reported before the missing size.
    pub fn load(&mut self) -> (r: Result<(String, u16), String>)
        ensures
            r.is_ok() <==> old(self).path.is_some() && old(self).font_size.is_some(),
            match r {
                Ok((path, size)) => {
                    &&& old(self).path == Some(path)
                    &&& old(self).font_size == Some(size)
                    &&& final(self).path.is_none()
                    &&& final(self).font_size.is_none()
                },
                Err(message) => {
                    &&& *final(self) == *old(self)
                    &&& message@ == if old(self).path.is_none() {
                        no_path_message()
                    } else {
                        no_size_message()
                    }
                },
            },
    {
        if self.path.is_none() {
            return Err("Font could not be loaded without path.".to_owned());
        }
        if self.font_size.is_none() {
            return Err("Font could not be loaded without font_size.".to_owned());
        }
        let path = self.path.take().unwrap();
        let size = self.font_size.take().unwrap();
        Ok((path, size))
    }
}

} // verus!
