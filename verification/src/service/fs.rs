//! The file-system service: the sandbox that maps a program's paths into a host
//! directory, the numbering of open files, seeking, and the directory records that a
//! listing returns.
use vstd::prelude::*;
use crate::error::KernelError;

verus! {

/// The sandbox: the host directory that a program sees as its root, and the number the
/// next opened file gets.
pub struct Sandbox {
    pub root: String,
    pub next_fd: usize,
}

/// A path without its leading slashes.
pub open spec fn trim_leading_slashes(s: Seq<char>) -> Seq<char>
    decreases s.len(),
{
    if s.len() > 0 && s[0] == '/' {
        trim_leading_slashes(s.drop_first())
    } else {
        s
    }
}

/// A relative path appended to a directory: with a separator between them unless the
/// directory is empty or already ends with one.
pub open spec fn join_path(dir: Seq<char>, rel: Seq<char>) -> Seq<char> {
    if dir.len() > 0 && dir.last() != '/' {
        dir + seq!['/'] + rel
    } else {
        dir + rel
    }
}

/// Where a seek starts from.
#[derive(Clone, Copy, Debug, PartialEq, Eq, Structural)]
pub enum Whence {
    Start,
    Cur,
    End,
    /// Any whence code that the protocol does not know.
    Other,
}

/// A seek target: from the start, the current position or the end.
#[derive(Clone, Copy, Debug, PartialEq, Eq, Structural)]
pub enum SeekPos {
    Start(u64),
    Current(i64),
    End(i64),
}

/// The seek target for `offset` from `whence`: from the start the offset is read as
/// unsigned; an unknown whence is refused with `InvalidArgs`.
pub fn seek_target(offset: i64, whence: Whence) -> (r: Result<SeekPos, KernelError>)
    ensures
        r == (match whence {
            Whence::Start => Ok(SeekPos::Start(offset as u64)),
            Whence::Cur => Ok(SeekPos::Current(offset)),
            Whence::End => Ok(SeekPos::End(offset)),
            Whence::Other => Err(KernelError::InvalidArgs),
        }),
{
    match whence {
        Whence::Start => Ok(SeekPos::Start(offset as u64)),
        Whence::Cur => Ok(SeekPos::Current(offset)),
        Whence::End => Ok(SeekPos::End(offset)),
        Whence::Other => Err(KernelError::InvalidArgs),
    }
}

/// How a file is opened.
#[derive(Clone, Copy, Debug, PartialEq, Eq, Structural)]
pub struct OpenMode {
    pub read: bool,
    pub write: bool,
    pub create: bool,
    pub truncate: bool,
    pub append: bool,
}

/// The host open mode of a program's open flags: read-write, write-only, or else
/// read-only; creating, truncating and appending as the flags say.
pub fn open_mode(rdwr: bool, wronly: bool, creat: bool, trunc: bool, append: bool) -> (m: OpenMode)
    ensures
        m.read == (rdwr || !wronly),
        m.write == (rdwr || wronly),
        m.create == creat,
        m.truncate == trunc,
        m.append == append,
{
    let (read, write) = if rdwr {
        (true, true)
    } else if wronly {
        (false, true)
    } else {
        (true, false)
    };
    OpenMode { read, write, create: creat, truncate: trunc, append }
}

/// The number that the first opened file gets.
pub const FIRST_FD: usize = 10;

impl Sandbox {
    /// A sandbox rooted at `root`; files are numbered from 10.
    pub fn new(root: &str) -> (s: Self)
        ensures
            s.root@ == root@,
            s.next_fd == FIRST_FD,
    {
        broadcast use vstd::string::group_string_axioms;

        Sandbox { root: root.to_string(), next_fd: FIRST_FD }
    }

    /// The host path of the program's path `glenda_path`: the path, without its
    /// leading slashes, under the sandbox root.
    pub fn map_path(&self, glenda_path: &str) -> (p: String)
        ensures
            p@ == join_path(self.root@, trim_leading_slashes(glenda_path@)),
    {
        let n = glenda_path.unicode_len();
        let mut i: usize = 0;
        assert(glenda_path@.subrange(0, n as int) =~= glenda_path@);
        while i < n && glenda_path.get_char(i) == '/'
            invariant
                0 <= i <= n,
                n == glenda_path@.len(),
                trim_leading_slashes(glenda_path@.subrange(i as int, n as int)) == trim_leading_slashes(
                    glenda_path@,
                ),
            decreases n - i,
        {
            assert(glenda_path@.subrange(i as int, n as int).drop_first() =~= glenda_path@.subrange(
                i + 1,
                n as int,
            ));
            i = i + 1;
        }
        let rel = glenda_path.substring_char(i, n);
        assert(trim_leading_slashes(glenda_path@.subrange(i as int, n as int)) == glenda_path@.subrange(
            i as int,
            n as int,
        ));
        let mut out = self.root.clone();
        let root_str = self.root.as_str();
        let rn = root_str.unicode_len();
        if rn > 0 && root_str.get_char(rn - 1) != '/' {
            out.append("/");
            proof {
                reveal_strlit("/");
            }
        }
        out.append(rel);
        assert(out@ =~= join_path(self.root@, trim_leading_slashes(glenda_path@)));
        out
    }

    /// Hands out the next file number.
    pub fn alloc_fd(&mut self) -> (fd: usize)
        requires
            old(self).next_fd < usize::MAX,
        ensures
            fd == old(self).next_fd,
            final(self).next_fd == old(self).next_fd + 1,
            final(self).root == old(self).root,
    {
        let fd = self.next_fd;
        self.next_fd = fd + 1;
        fd
    }
}

} // verus!
