//! The file association of a buffer: an optional path, and the short name
//! shown for it in the status bar.

use vstd::prelude::*;

verus! {

/// The part of a path after its last slash; the whole path when it holds
/// no slash; empty when the path ends in a slash.
pub open spec fn after_last_slash(p: Seq<char>) -> Seq<char>
    decreases p.len(),
{
    if p.len() == 0 {
        Seq::empty()
    } else if p.last() == '/' {
        Seq::empty()
    } else {
        after_last_slash(p.drop_last()).push(p.last())
    }
}

/// The name the status bar shows for a file association: the path's last
/// component, or a placeholder when there is no path or no last component.
pub open spec fn display_name_spec(path: Option<Seq<char>>) -> Seq<char> {
    match path {
        Some(p) => if after_last_slash(p).len() > 0 {
            after_last_slash(p)
        } else {
            "[No Name]"@
        },
        None => "[No Name]"@,
    }
}

/// An optional file path, stored as the text it was given as.
#[derive(Clone)]
pub struct FileInfo {
    path: Option<String>,
}

impl FileInfo {
    /// The stored path, as a character sequence.
    pub closed spec fn path_spec(self) -> Option<Seq<char>> {
        match self.path {
            Some(p) => Some(p@),
            None => None,
        }
    }

    /// Associates with the file named `file_name`.
    pub fn from(file_name: &str) -> (r: FileInfo)
        ensures
            r.path_spec() == Some(file_name@),
    {
        FileInfo { path: Some(file_name.to_owned()) }
    }

    /// The stored path, if any.
    pub fn get_path(&self) -> (r: Option<&str>)
        ensures
            match r {
                Some(p) => self.path_spec() == Some(p@),
                None => self.path_spec() is None,
            },
    {
        match &self.path {
            Some(p) => Some(p.as_str()),
            None => None,
        }
    }

    /// Whether a file is associated.
    pub fn has_path(&self) -> (r: bool)
        ensures
            r == (self.path_spec() is Some),
    {
        self.path.is_some()
    }

    /// The name to display for this association.
    pub fn display_name(&self) -> (r: String)
        ensures
            r@ == display_name_spec(self.path_spec()),
    {
        let path = match &self.path {
            Some(p) => p,
            None => {
                return placeholder_name();
            },
        };
        let s = path.as_str();
        let n = s.unicode_len();
        let mut start: usize = 0;
        let mut i: usize = 0;
        while i < n
            invariant
                start <= i <= n,
                n == s@.len(),
                after_last_slash(s@.take(i as int)) =~= s@.subrange(start as int, i as int),
            decreases n - i,
        {
            proof {
                assert(s@.take(i as int + 1).drop_last() =~= s@.take(i as int));
            }
            if s.get_char(i) == '/' {
                start = i + 1;
            }
            proof {
                if s@[i as int] == '/' {
                    assert(after_last_slash(s@.take(i as int + 1)) =~= s@.subrange(
                        start as int,
                        i as int + 1,
                    ));
                } else {
                    assert(after_last_slash(s@.take(i as int + 1)) =~= s@.subrange(
                        start as int,
                        i as int + 1,
                    ));
                }
            }
            i = i + 1;
        }
        proof {
            assert(s@.take(n as int) =~= s@);
        }
        if start < n {
            s.substring_char(start, n).to_owned()
        } else {
            placeholder_name()
        }
    }
}

impl Default for FileInfo {
    /// No file association.
    fn default() -> (r: FileInfo)
        ensures
            r.path_spec() is None,
    {
        FileInfo { path: None }
    }
}

/// The placeholder shown when no file name is available.
fn placeholder_name() -> (r: String)
    ensures
        r@ == "[No Name]"@,
{
    let mut s = String::new();
    s.append("[No Name]");
    proof {
        assert(s@ =~= "[No Name]"@);
    }
    s
}

} // verus!
