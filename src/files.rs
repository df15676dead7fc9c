use vstd::prelude::*;

verus! {

/// The contents that a list of (path, contents) entries gives each path;
/// a later entry for a path replaces an earlier one.
pub open spec fn entries_map(s: Seq<(String, String)>) -> Map<Seq<char>, Seq<char>>
    decreases s.len(),
{
    if s.len() == 0 {
        Map::empty()
    } else {
        entries_map(s.drop_last()).insert(s.last().0@, s.last().1@)
    }
}

/// Static files held in memory, by path.
pub struct FileCache {
    files: Vec<(String, String)>,
}

/// What `read` answers for a path that the cache does not hold.
pub open spec fn missing_file_text() -> Seq<char> {
    "internal error"@
}

impl View for FileCache {
    type V = Map<Seq<char>, Seq<char>>;

    closed spec fn view(&self) -> Map<Seq<char>, Seq<char>> {
        entries_map(self.files@)
    }
}

impl FileCache {
    pub fn new() -> (r: FileCache)
        ensures
            r@ == Map::<Seq<char>, Seq<char>>::empty(),
    {
        FileCache { files: Vec::new() }
    }

    /// The cache with `data` held for `path`.
    pub fn file(self, path: String, data: String) -> (r: FileCache)
        ensures
            r@ == self@.insert(path@, data@),
    {
        let mut files = self.files;
        let ghost before = files@;
        files.push((path, data));
        assert(files@.drop_last() =~= before);
        FileCache { files }
    }

    /// The contents held for `path`, if any.
    pub fn get(&self, path: &str) -> (r: Option<&String>)
        ensures
            match r {
                Some(d) => self@.contains_key(path@) && self@[path@] == d@,
                None => !self@.contains_key(path@),
            },
    {
        let key = String::from_str(path);
        let mut found: Option<&String> = None;
        let mut i: usize = 0;
        while i < self.files.len()
            invariant
                i <= self.files@.len(),
                key@ == path@,
                match found {
                    Some(d) => entries_map(self.files@.take(i as int)).contains_key(path@)
                        && entries_map(self.files@.take(i as int))[path@] == d@,
                    None => !entries_map(self.files@.take(i as int)).contains_key(path@),
                },
            decreases self.files@.len() - i,
        {
            let ghost prefix = self.files@.take(i as int);
            assert(self.files@.take(i + 1).drop_last() =~= prefix);
            if self.files[i].0 == key {
                found = Some(&self.files[i].1);
            }
            i = i + 1;
        }
        assert(self.files@.take(i as int) =~= self.files@);
        found
    }
}

/// The contents of a cached static file, or a fixed error text where the
/// cache holds none for `path`.
pub fn read(cache: &FileCache, path: &str) -> (r: String)
    ensures
        r@ == (if cache@.contains_key(path@) {
            cache@[path@]
        } else {
            missing_file_text()
        }),
{
    match cache.get(path) {
        Some(data) => data.clone(),
        None => String::from_str("internal error"),
    }
}

} // verus!
