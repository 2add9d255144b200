//! The connector for Unix domain sockets, and the table that maps host
//! names to socket paths.

use vstd::prelude::*;
use crate::text::{
    chars_of, concat2, find, find_chars, lemma_find, opt_view, owned, slice_string, trim,
    trim_range,
};

verus! {

/// What `std::path::Path::join` makes of a directory and a file name, as
/// text.
pub uninterp spec fn joined_path(dir: Seq<char>, file: Seq<char>) -> Seq<char>;

/// Calls `std::path::Path::join` on `dir` with `file` and hands the
/// joined path back as text. The contract only gives the result its
/// name, [`joined_path`].
#[verifier::external_body]
fn join_path(dir: &str, file: &str) -> (r: String)
    ensures
        r@ == joined_path(dir@, file@),
{
    std::path::Path::new(dir).join(file).to_string_lossy().into_owned()
}

/// The name of the socket file that serves a host: `<host>.sock`.
pub open spec fn socket_file(host: Seq<char>) -> Seq<char> {
    host + ".sock"@
}

/// The socket that serves `host` in the directory `dir`.
pub open spec fn socket_in_dir(dir: Seq<char>, host: Seq<char>) -> Seq<char> {
    joined_path(dir, socket_file(host))
}

/// The path of the socket that serves `host` in the directory `dir`.
pub fn default_socket(dir: &str, host: &str) -> (r: String)
    ensures
        r@ == socket_in_dir(dir@, host@),
{
    let file = concat2(host, ".sock");
    join_path(dir, file.as_str())
}

/// The connector that dials one fixed socket path, whatever host and port
/// the caller names.
#[derive(Debug, Clone)]
pub struct UnixConnector {
    socket_path: String,
}

impl UnixConnector {
    /// The path that the connector dials.
    pub closed spec fn path(&self) -> Seq<char> {
        self.socket_path@
    }

    /// A connector for the socket at `socket_path`.
    pub fn new(socket_path: &str) -> (r: Self)
        ensures
            r.path() == socket_path@,
    {
        UnixConnector { socket_path: owned(socket_path) }
    }

    /// The path that the connector dials.
    pub fn socket_path(&self) -> (r: &str)
        ensures
            r@ == self.path(),
    {
        self.socket_path.as_str()
    }
}

/// The table that a list of entries stands for: a later entry for a host
/// replaces an earlier one.
pub open spec fn table_of(entries: Seq<(String, String)>) -> Map<Seq<char>, Seq<char>>
    decreases entries.len(),
{
    if entries.len() == 0 {
        Map::empty()
    } else {
        table_of(entries.drop_last()).insert(entries.last().0@, entries.last().1@)
    }
}

/// The entry that one `host:path` pair of a flat mapping text gives: host
/// and path are cut at the first `:` and trimmed. A pair without `:` gives
/// none.
pub open spec fn env_entry(pair: Seq<char>) -> Option<(Seq<char>, Seq<char>)> {
    match find(pair, ":"@) {
        Some(i) => Some((trim(pair.subrange(0, i)), trim(pair.subrange(i + 1, pair.len() as int)))),
        None => None,
    }
}

/// `table` with the entry of one pair added.
pub open spec fn with_pair(table: Map<Seq<char>, Seq<char>>, pair: Seq<char>) -> Map<
    Seq<char>,
    Seq<char>,
> {
    match env_entry(pair) {
        Some((host, path)) => table.insert(host, path),
        None => table,
    }
}

/// The table after the pairs of `s[start..]` are added to `table` in
/// order, where `i` has been scanned up to without meeting a `,`.
pub open spec fn env_table_from(
    s: Seq<char>,
    start: int,
    i: int,
    table: Map<Seq<char>, Seq<char>>,
) -> Map<Seq<char>, Seq<char>>
    decreases s.len() - i,
{
    if i >= s.len() {
        with_pair(table, s.subrange(start, s.len() as int))
    } else if s[i] == ',' {
        env_table_from(s, i + 1, i + 1, with_pair(table, s.subrange(start, i)))
    } else {
        env_table_from(s, start, i + 1, table)
    }
}

/// The table that a flat text `host1:/path1,host2:/path2` stands for.
pub open spec fn env_table(s: Seq<char>) -> Map<Seq<char>, Seq<char>> {
    env_table_from(s, 0, 0, Map::empty())
}

/// Where the socket of a host is found: in the table, else in the default
/// directory under the host's name, else nowhere.
pub open spec fn lookup(
    table: Map<Seq<char>, Seq<char>>,
    dir: Option<Seq<char>>,
    host: Seq<char>,
) -> Option<Seq<char>> {
    if table.contains_key(host) {
        Some(table[host])
    } else {
        match dir {
            Some(d) => Some(socket_in_dir(d, host)),
            None => None,
        }
    }
}

/// A table from host names to socket paths, with a default directory for
/// the hosts that it does not name.
#[derive(Debug, Clone)]
pub struct SocketMapping {
    /// The directory in which a host without an entry has its socket.
    pub socket_dir: Option<String>,
    /// The entries, host and path, in the order in which they were made.
    pub mappings: Vec<(String, String)>,
}

impl SocketMapping {
    /// The entries of the table: for each host the path that was entered
    /// for it last.
    pub open spec fn table(&self) -> Map<Seq<char>, Seq<char>> {
        table_of(self.mappings@)
    }

    /// The default directory.
    pub open spec fn dir(&self) -> Option<Seq<char>> {
        opt_view(self.socket_dir)
    }

    /// The empty table, without a default directory.
    pub fn new() -> (r: Self)
        ensures
            r.table() == Map::<Seq<char>, Seq<char>>::empty(),
            r.dir() is None,
    {
        SocketMapping { socket_dir: None, mappings: Vec::new() }
    }

    /// The same table with `dir` as its default directory.
    pub fn with_socket_dir(self, dir: &str) -> (r: Self)
        ensures
            r.table() == self.table(),
            r.dir() == Some(dir@),
    {
        let mut r = self;
        r.socket_dir = Some(owned(dir));
        r
    }

    /// Enters `path` for `host`, in place of any earlier entry for it.
    pub fn add_mapping(&mut self, host: &str, path: &str)
        ensures
            final(self).table() == old(self).table().insert(host@, path@),
            final(self).dir() == old(self).dir(),
    {
        self.mappings.push((owned(host), owned(path)));
        assert(self.mappings@.drop_last() =~= old(self).mappings@);
    }

    /// The socket path of a host: its entry, else `<host>.sock` in the
    /// default directory, else none.
    pub fn get_socket_path(&self, host: &str) -> (r: Option<String>)
        ensures
            opt_view(r) == lookup(self.table(), self.dir(), host@),
    {
        let wanted = owned(host);
        let mut i: usize = self.mappings.len();
        assert(self.mappings@.subrange(0, i as int) =~= self.mappings@);
        while i > 0
            invariant
                i <= self.mappings.len(),
                wanted@ == host@,
                table_of(self.mappings@).contains_key(host@) == table_of(
                    self.mappings@.subrange(0, i as int),
                ).contains_key(host@),
                table_of(self.mappings@).contains_key(host@) ==> table_of(self.mappings@)[host@]
                    == table_of(self.mappings@.subrange(0, i as int))[host@],
            decreases i,
        {
            let ghost part = self.mappings@.subrange(0, i as int);
            assert(part.drop_last() =~= self.mappings@.subrange(0, i - 1));
            assert(part.last() == self.mappings@[i - 1]);
            if self.mappings[i - 1].0 == wanted {
                return Some(self.mappings[i - 1].1.clone());
            }
            i -= 1;
        }
        match &self.socket_dir {
            Some(dir) => Some(default_socket(dir.as_str(), host)),
            None => None,
        }
    }

    /// Reads a table from a flat text `host1:/path1,host2:/path2`. The
    /// text is split at each `,`; each pair is cut at its first `:` into
    /// host and path, both trimmed; a pair without `:` is passed over.
    pub fn from_env_string(s: &str) -> (r: Self)
        ensures
            r.table() == env_table(s@),
            r.dir() is None,
    {
        let v = chars_of(s);
        let mut mapping = SocketMapping::new();
        let mut start: usize = 0;
        let mut i: usize = 0;
        while i < v.len()
            invariant
                start <= i <= v.len(),
                v@ == s@,
                mapping.dir() is None,
                env_table(s@) == env_table_from(s@, start as int, i as int, mapping.table()),
            decreases v.len() - i,
        {
            if v[i] == ',' {
                mapping.add_pair(s, &v, start, i);
                start = i + 1;
            }
            i += 1;
        }
        mapping.add_pair(s, &v, start, v.len());
        mapping
    }

    /// Enters the pair `s[start..end]` of a flat mapping text.
    fn add_pair(&mut self, s: &str, v: &Vec<char>, start: usize, end: usize)
        requires
            v@ == s@,
            start <= end <= v@.len(),
        ensures
            final(self).table() == with_pair(
                old(self).table(),
                s@.subrange(start as int, end as int),
            ),
            final(self).dir() == old(self).dir(),
    {
        let ghost pair = s@.subrange(start as int, end as int);
        let part = crate::text::sub_chars(v, start, end);
        let colon = chars_of(":");
        proof {
            lemma_find(pair, ":"@);
            reveal_strlit(":");
        }
        match find_chars(&part, &colon) {
            Some(k) => {
                let (a, b) = trim_range(v, start, start + k);
                let (c, d) = trim_range(v, start + k + 1, end);
                assert(s@.subrange(start as int, start + k) =~= pair.subrange(0, k as int));
                assert(s@.subrange(start + k + 1, end as int) =~= pair.subrange(
                    k + 1,
                    pair.len() as int,
                ));
                let host = slice_string(s, a, b);
                let path = slice_string(s, c, d);
                self.add_mapping(host.as_str(), path.as_str());
            },
            None => {},
        }
    }
}

impl Default for SocketMapping {
    fn default() -> (r: Self)
        ensures
            r.table() == Map::<Seq<char>, Seq<char>>::empty(),
            r.dir() is None,
    {
        SocketMapping::new()
    }
}

/// The entry made last for a host is the one that is found.
pub proof fn lemma_last_entry_wins(
    table: Map<Seq<char>, Seq<char>>,
    dir: Option<Seq<char>>,
    host: Seq<char>,
    path: Seq<char>,
)
    ensures
        lookup(table.insert(host, path), dir, host) == Some(path),
{
}

/// An entry for one host leaves the lookup of every other host as it was.
pub proof fn lemma_entry_is_local(
    table: Map<Seq<char>, Seq<char>>,
    dir: Option<Seq<char>>,
    host: Seq<char>,
    path: Seq<char>,
    other: Seq<char>,
)
    requires
        other != host,
    ensures
        lookup(table.insert(host, path), dir, other) == lookup(table, dir, other),
{
}

} // verus!
