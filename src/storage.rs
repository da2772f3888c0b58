use vstd::prelude::*;

verus! {

/// Where the tokens of the slots are kept: one plain-text file per slot in a
/// directory of the user's home.
#[derive(Clone, Debug)]
pub struct LocalStorage {
    storage_dir: String,
}

/// The name of the storage directory.
pub open spec fn storage_dir_name() -> Seq<char> {
    ".spotify_sync"@
}

/// `name` placed under the directory `dir`: the two joined by a slash, with none
/// added when `dir` is empty or already ends in one.
pub open spec fn join_path(dir: Seq<char>, name: Seq<char>) -> Seq<char> {
    if dir.len() == 0 {
        name
    } else if dir.last() == '/' {
        dir + name
    } else {
        dir + "/"@ + name
    }
}

/// The storage directory for a home directory, or the relative one without it.
pub open spec fn storage_dir_for(home: Option<Seq<char>>) -> Seq<char> {
    match home {
        Some(h) => join_path(h, storage_dir_name()),
        None => storage_dir_name(),
    }
}

/// The characters of an optional text.
pub open spec fn opt_text(o: Option<String>) -> Option<Seq<char>> {
    match o {
        Some(t) => Some(t@),
        None => None,
    }
}

/// The file name of the token of the slot named `panel`.
pub open spec fn token_file_name(panel: Seq<char>) -> Seq<char> {
    panel + "_token.txt"@
}

/// Relies on dirs::home_dir: the user's home directory, when one is known. The
/// answer depends on the environment of the process.
#[verifier::external_body]
fn home_dir() -> (r: Option<String>) {
    match dirs::home_dir() {
        Some(p) => Some(p.to_string_lossy().into_owned()),
        None => None,
    }
}

fn join_path_exec(dir: &str, name: &str) -> (r: String)
    ensures
        r@ == join_path(dir@, name@),
{
    let n = dir.unicode_len();
    let mut r = String::from_str(dir);
    if n > 0 && dir.get_char(n - 1) != '/' {
        r.append("/");
    }
    r.append(name);
    r
}

impl LocalStorage {
    /// The storage under the user's home directory, or under the working
    /// directory when no home is known.
    pub fn new() -> (r: LocalStorage)
        ensures
            exists|h: Option<Seq<char>>| r.storage_dir() == storage_dir_for(h),
    {
        let home = home_dir();
        let ghost h = opt_text(home);
        let r = LocalStorage::in_home(home);
        assert(r.storage_dir() == storage_dir_for(h));
        r
    }

    /// The storage under the given home directory, or under the working
    /// directory for `None`.
    pub fn in_home(home: Option<String>) -> (r: LocalStorage)
        ensures
            r.storage_dir() == storage_dir_for(opt_text(home)),
    {
        proof {
            reveal_strlit(".spotify_sync");
        }
        let storage_dir = match home {
            Some(h) => join_path_exec(h.as_str(), ".spotify_sync"),
            None => String::from_str(".spotify_sync"),
        };
        LocalStorage { storage_dir }
    }

    /// The path of the storage directory.
    pub closed spec fn storage_dir(&self) -> Seq<char> {
        self.storage_dir@
    }

    /// The path of the storage directory.
    pub fn dir(&self) -> (r: &str)
        ensures
            r@ == self.storage_dir(),
    {
        self.storage_dir.as_str()
    }

    /// The path of the token file of the slot named `panel`.
    pub fn get_token_path(&self, panel: &str) -> (r: String)
        ensures
            r@ == join_path(self.storage_dir(), token_file_name(panel@)),
    {
        let mut name = String::from_str(panel);
        name.append("_token.txt");
        join_path_exec(self.storage_dir.as_str(), name.as_str())
    }

    /// The token that a read of a token file yields: what the file holds, or the
    /// empty token when there is no file to read.
    pub fn token_or_empty(read: Option<String>) -> (r: String)
        ensures
            r@ == match opt_text(read) {
                Some(t) => t,
                None => Seq::<char>::empty(),
            },
    {
        match read {
            Some(t) => t,
            None => String::new(),
        }
    }
}

} // verus!
