//! Audio clips that battery warning levels can play.
use vstd::prelude::*;

verus! {

/// An audio clip, named by the path of its `.wav` file.
#[derive(Debug, PartialEq, Eq)]
pub struct AudioClip {
    path: String,
}

impl View for AudioClip {
    type V = Seq<char>;

    closed spec fn view(&self) -> Seq<char> {
        self.path@
    }
}

impl Clone for AudioClip {
    fn clone(&self) -> (clip: Self)
        ensures
            clip == *self,
    {
        AudioClip { path: self.path.clone() }
    }
}

impl AudioClip {
    pub fn file(path: &str) -> (clip: Self)
        ensures
            clip@ == path@,
    {
        AudioClip { path: String::from_str(path) }
    }

    pub fn path(&self) -> (path: &str)
        ensures
            path@ == self@,
    {
        self.path.as_str()
    }

    /// Whether two clips name the same file.
    pub fn same_clip(&self, other: &AudioClip) -> (same: bool)
        ensures
            same == (self@ == other@),
    {
        self.path == other.path
    }
}

} // verus!
