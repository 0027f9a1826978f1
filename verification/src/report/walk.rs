//! The breadth-first walks over an image's directories that the listings
//! make, one directory at a time.

use vstd::prelude::*;
use std::collections::VecDeque;

verus! {

/// The depth beyond which an ISO 9660 image is taken to be damaged.
pub const ISO9660_DEPTH_LIMIT: usize = 512;

/// directory recursion too deep. ISO most probably damaged
#[derive(Clone, Copy, Debug, PartialEq, Eq)]
pub struct DepthLimitError;

/// The path of an entry named `name` in the directory at `dir`: the
/// directory's path, the name, and a slash.
pub open spec fn child_path(dir: Seq<char>, name: Seq<char>) -> Seq<char> {
    dir + name + "/"@
}

/// The path of an entry named `name` in the directory at `dir`.
pub fn child_path_text(dir: &str, name: &str) -> (r: String)
    ensures
        r@ == child_path(dir@, name@),
{
    let mut s = String::from_str(dir);
    s.append(name);
    s.append("/");
    s
}

/// Whether `name` is one of the entries `.` and `..` that every directory
/// has.
pub open spec fn is_dot_name(name: Seq<char>) -> bool {
    name == seq!['.'] || name == seq!['.', '.']
}

/// Whether `name` is `.` or `..`.
pub fn is_dot_entry(name: &str) -> (r: bool)
    ensures
        r == is_dot_name(name@),
{
    let n = name.unicode_len();
    if n == 1 {
        let c = name.get_char(0);
        assert(c == '.' ==> name@ =~= seq!['.']);
        c == '.'
    } else if n == 2 {
        let c0 = name.get_char(0);
        let c1 = name.get_char(1);
        assert(c0 == '.' && c1 == '.' ==> name@ =~= seq!['.', '.']);
        c0 == '.' && c1 == '.'
    } else {
        false
    }
}

/// The directories still to list, each with its path and depth.
pub open spec fn queue_view(q: Seq<(String, usize)>) -> Seq<(Seq<char>, usize)> {
    q.map_values(|d: (String, usize)| (d.0@, d.1))
}

/// The breadth-first walk over an ISO 9660 image's directories: a queue of
/// the directories still to list, starting with the root at depth 0.
pub struct IsoDirWalk {
    dirs: VecDeque<(String, usize)>,
}

impl IsoDirWalk {
    /// The directories still to list, in the order they will be listed.
    pub closed spec fn spec_queue(&self) -> Seq<(Seq<char>, usize)> {
        queue_view(self.dirs@)
    }

    /// A walk that starts at the root directory, `/`, at depth 0.
    pub fn new() -> (r: IsoDirWalk)
        ensures
            r.spec_queue() == seq![("/"@, 0usize)],
    {
        let mut dirs: VecDeque<(String, usize)> = VecDeque::new();
        dirs.push_back((String::from_str("/"), 0));
        let r = IsoDirWalk { dirs };
        assert(r.spec_queue() =~= seq![("/"@, 0usize)]);
        r
    }

    /// The next directory to list, with its depth: the first in the queue,
    /// which leaves it. An error where it lies at the depth limit; none
    /// when the walk is done.
    pub fn next_dir(&mut self) -> (r: Option<Result<(String, usize), DepthLimitError>>)
        ensures
            old(self).spec_queue().len() == 0 ==> r is None && final(self).spec_queue()
                == old(self).spec_queue(),
            old(self).spec_queue().len() > 0 ==> {
                &&& final(self).spec_queue() == old(self).spec_queue().drop_first()
                &&& match r {
                    Some(Ok((path, depth))) => (path@, depth) == old(self).spec_queue()[0]
                        && depth != ISO9660_DEPTH_LIMIT,
                    Some(Err(_)) => old(self).spec_queue()[0].1 == ISO9660_DEPTH_LIMIT,
                    None => false,
                }
            },
    {
        let ghost q0 = self.dirs@;
        match self.dirs.pop_front() {
            None => None,
            Some((path, depth)) => {
                assert(queue_view(self.dirs@) =~= queue_view(q0).drop_first());
                if depth == ISO9660_DEPTH_LIMIT {
                    Some(Err(DepthLimitError))
                } else {
                    Some(Ok((path, depth)))
                }
            },
        }
    }

    /// Takes note of an entry named `name` found in the directory at
    /// `dir_path`, of depth `depth`, and returns its path. A directory
    /// other than `.` and `..` joins the end of the queue, one level
    /// deeper.
    pub fn visit_entry(&mut self, dir_path: &str, depth: usize, name: &str, is_dir: bool) -> (r: String)
        requires
            depth < usize::MAX,
        ensures
            r@ == child_path(dir_path@, name@),
            final(self).spec_queue() == if is_dir && !is_dot_name(name@) {
                old(self).spec_queue().push((r@, (depth + 1) as usize))
            } else {
                old(self).spec_queue()
            },
    {
        let full_path = child_path_text(dir_path, name);
        if is_dir && !is_dot_entry(name) {
            let ghost q0 = self.dirs@;
            self.dirs.push_back((full_path.clone(), depth + 1));
            assert(queue_view(self.dirs@) =~= queue_view(q0).push((full_path@, (depth + 1) as usize)));
        }
        full_path
    }
}

/// The UDF directories still to list, each with its path.
pub open spec fn handle_queue_view<H>(q: Seq<(H, String)>) -> Seq<(H, Seq<char>)> {
    q.map_values(|d: (H, String)| (d.0, d.1@))
}

/// The breadth-first walk over a UDF image's directories: a queue of the
/// directories still to list, each an open directory handle `H` with its
/// path, starting with the root at `/`.
pub struct UdfDirWalk<H> {
    dirs: VecDeque<(H, String)>,
}

impl<H> UdfDirWalk<H> {
    /// The directories still to list, in the order they will be listed.
    pub closed spec fn spec_queue(&self) -> Seq<(H, Seq<char>)> {
        handle_queue_view(self.dirs@)
    }

    /// A walk that starts at `root`, the root directory `/`.
    pub fn new(root: H) -> (r: UdfDirWalk<H>)
        ensures
            r.spec_queue() == seq![(root, "/"@)],
    {
        let mut dirs: VecDeque<(H, String)> = VecDeque::new();
        let ghost g = root;
        dirs.push_back((root, String::from_str("/")));
        let r = UdfDirWalk { dirs };
        assert(r.spec_queue() =~= seq![(g, "/"@)]);
        r
    }

    /// The next directory to list, with its path: the first in the queue,
    /// which leaves it; none when the walk is done.
    pub fn next_dir(&mut self) -> (r: Option<(H, String)>)
        ensures
            old(self).spec_queue().len() == 0 ==> r is None && final(self).spec_queue()
                == old(self).spec_queue(),
            old(self).spec_queue().len() > 0 ==> {
                &&& final(self).spec_queue() == old(self).spec_queue().drop_first()
                &&& match r {
                    Some((dir, path)) => (dir, path@) == old(self).spec_queue()[0],
                    None => false,
                }
            },
    {
        let ghost q0 = self.dirs@;
        let r = self.dirs.pop_front();
        proof {
            if q0.len() > 0 {
                assert(handle_queue_view(self.dirs@) =~= handle_queue_view(q0).drop_first());
            }
        }
        r
    }

    /// Takes note of an entry named `name` found in the directory at
    /// `dir_path`, and returns its path. Where the entry is a directory,
    /// `subdir` holds it open, and it joins the end of the queue.
    pub fn visit_entry(&mut self, dir_path: &str, name: &str, subdir: Option<H>) -> (r: String)
        ensures
            r@ == child_path(dir_path@, name@),
            final(self).spec_queue() == match subdir {
                Some(dir) => old(self).spec_queue().push((dir, r@)),
                None => old(self).spec_queue(),
            },
    {
        let full_path = child_path_text(dir_path, name);
        match subdir {
            Some(dir) => {
                let ghost q0 = self.dirs@;
                let ghost g = dir;
                self.dirs.push_back((dir, full_path.clone()));
                assert(handle_queue_view(self.dirs@) =~= handle_queue_view(q0).push((g, full_path@)));
            },
            None => {},
        }
        full_path
    }
}

} // verus!
