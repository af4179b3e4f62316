use vstd::prelude::*;

verus! {

/// Where a search is anchored: either a concrete local filesystem path, or a
/// virtual location (an archive member, a remote mount) that no subprocess can
/// be pointed at.
#[derive(Debug, Clone, PartialEq, Eq)]
pub enum UrlBuf {
    Local { path: String },
    Virtual { path: String },
}

/// `base` with the relative path `rel` appended as a child component: a single
/// `/` separates them unless `base` already ends in one or is empty.
pub open spec fn joined(base: Seq<char>, rel: Seq<char>) -> Seq<char> {
    if base.len() == 0 {
        rel
    } else if base.last() == '/' {
        base + rel
    } else {
        base + seq!['/'] + rel
    }
}

impl UrlBuf {
    /// Whether this location is a concrete local path.
    pub open spec fn is_local_spec(&self) -> bool {
        self is Local
    }

    /// The textual path of the location, local or not.
    pub open spec fn path_spec(&self) -> Seq<char> {
        match self {
            UrlBuf::Local { path } => path@,
            UrlBuf::Virtual { path } => path@,
        }
    }

    pub fn is_local(&self) -> (b: bool)
        ensures
            b == self.is_local_spec(),
    {
        match self {
            UrlBuf::Local { .. } => true,
            UrlBuf::Virtual { .. } => false,
        }
    }

    /// The local path, if this location is one.
    pub fn as_path(&self) -> (r: Option<&String>)
        ensures
            match r {
                Some(p) => self.is_local_spec() && p@ == self.path_spec(),
                None => !self.is_local_spec(),
            },
    {
        match self {
            UrlBuf::Local { path } => Some(path),
            UrlBuf::Virtual { .. } => None,
        }
    }

    /// Join a relative path onto this location; the scheme is kept.
    pub fn join(&self, rel: &str) -> (r: UrlBuf)
        ensures
            r.is_local_spec() == self.is_local_spec(),
            r.path_spec() == joined(self.path_spec(), rel@),
    {
        match self {
            UrlBuf::Local { path } => UrlBuf::Local { path: join_path(path.as_str(), rel) },
            UrlBuf::Virtual { path } => UrlBuf::Virtual { path: join_path(path.as_str(), rel) },
        }
    }
}

/// A resolved filesystem entry: the location the inspection collaborator
/// confirmed. Produced once per successfully resolved line and handed to the
/// consumer unchanged.
#[derive(Debug, Clone, PartialEq, Eq)]
pub struct File {
    pub url: UrlBuf,
}

impl File {
    pub fn new(url: UrlBuf) -> (f: File)
        ensures
            f.url == url,
    {
        File { url }
    }
}

fn join_path(base: &str, rel: &str) -> (r: String)
    ensures
        r@ == joined(base@, rel@),
{
    let n = base.unicode_len();
    if n == 0 {
        return String::from_str(rel);
    }
    let mut out = String::from_str(base);
    if base.get_char(n - 1) != '/' {
        out.append("/");
        proof {
            reveal_strlit("/");
            assert(out@ =~= base@ + seq!['/']);
        }
    }
    out.append(rel);
    proof {
        assert(out@ =~= joined(base@, rel@));
    }
    out
}

} // verus!
