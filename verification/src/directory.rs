//! Directory listings as the file picker shows them.

use vstd::prelude::*;

verus! {

pub struct DirectorySearch {}

/// One entry of a directory.
#[derive(Debug, PartialEq, Eq)]
pub struct FileEntry {
    pub name: String,
    /// When the entry was created, in seconds since 1970, if known.
    pub ctime: Option<i64>,
    pub path: String,
    pub size: u64,
    pub is_dir: bool,
}

impl Default for FileEntry {
    fn default() -> (entry: FileEntry)
        ensures
            entry.name@ == Seq::<char>::empty(),
            entry.ctime.is_none(),
            entry.path@ == Seq::<char>::empty(),
            entry.size == 0,
            !entry.is_dir,
    {
        FileEntry { name: String::new(), ctime: None, path: String::new(), size: 0, is_dir: false }
    }
}

impl Clone for FileEntry {
    fn clone(&self) -> (copy: FileEntry)
        ensures
            copy == *self,
    {
        FileEntry {
            name: self.name.clone(),
            ctime: self.ctime,
            path: self.path.clone(),
            size: self.size,
            is_dir: self.is_dir,
        }
    }
}

/// The name marks the entry as hidden: it begins with a dot.
pub open spec fn dotted(name: Seq<char>) -> bool {
    name.len() > 0 && name[0] == '.'
}

/// The entries of `entries` that a listing shows and that are
/// directories, or that are not, in the order they came in.
pub open spec fn picked(entries: Seq<FileEntry>, hidden: bool, dirs: bool) -> Seq<FileEntry>
    decreases entries.len(),
{
    if entries.len() == 0 {
        Seq::<FileEntry>::empty()
    } else {
        let rest = picked(entries.drop_last(), hidden, dirs);
        let last = entries.last();
        if (hidden || !dotted(last.name@)) && last.is_dir == dirs {
            rest.push(last)
        } else {
            rest
        }
    }
}

/// What a listing shows of `entries`: hidden entries only on demand,
/// directories first, and else the order they came in.
pub open spec fn listed(entries: Seq<FileEntry>, hidden: bool) -> Seq<FileEntry> {
    picked(entries, hidden, true) + picked(entries, hidden, false)
}

/// The sizes of `files` added up.
pub open spec fn total_size(files: Seq<FileEntry>) -> nat
    decreases files.len(),
{
    if files.len() == 0 {
        0
    } else {
        total_size(files.drop_last()) + files.last().size as nat
    }
}

/// The entry that leads to the directory above: it is a directory named
/// `..`, lies at `parent`, and weighs what the listing weighs.
pub open spec fn is_parent_entry(entry: FileEntry, parent: String, files: Seq<FileEntry>) -> bool {
    &&& entry.name@ == ".."@
    &&& entry.path == parent
    &&& entry.ctime.is_none()
    &&& entry.size == total_size(files)
    &&& entry.is_dir
}

/// The total size of a listing with one more file.
pub proof fn lemma_total_size_concat(a: Seq<FileEntry>, b: Seq<FileEntry>)
    ensures
        total_size(a + b) == total_size(a) + total_size(b),
    decreases b.len(),
{
    if b.len() == 0 {
        assert(a + b =~= a);
    } else {
        assert((a + b).drop_last() =~= a + b.drop_last());
        lemma_total_size_concat(a, b.drop_last());
    }
}

fn pick(entries: &Vec<FileEntry>, hidden: bool, dirs: bool, out: &mut Vec<FileEntry>)
    ensures
        final(out)@ == old(out)@ + picked(entries@, hidden, dirs),
{
    let mut i: usize = 0;
    assert(old(out)@ + picked(entries@.subrange(0, 0), hidden, dirs) =~= old(out)@);
    while i < entries.len()
        invariant
            i <= entries@.len(),
            out@ == old(out)@ + picked(entries@.subrange(0, i as int), hidden, dirs),
        decreases entries@.len() - i,
    {
        let entry = &entries[i];
        let chars = crate::text::chars_of(entry.name.as_str());
        let is_dotted = chars.len() > 0 && chars[0] == '.';
        proof {
            assert(entries@.subrange(0, i + 1).drop_last() =~= entries@.subrange(0, i as int));
            assert(entries@.subrange(0, i + 1).last() == entries@[i as int]);
        }
        if (hidden || !is_dotted) && entry.is_dir == dirs {
            out.push(entry.clone());
            assert(out@ =~= old(out)@ + picked(entries@.subrange(0, i + 1), hidden, dirs));
        }
        i += 1;
    }
    assert(entries@.subrange(0, i as int) =~= entries@);
}

fn sum_sizes(files: &Vec<FileEntry>) -> (total: u64)
    requires
        total_size(files@) <= u64::MAX,
    ensures
        total == total_size(files@),
{
    let mut total: u64 = 0;
    let mut i: usize = 0;
    while i < files.len()
        invariant
            i <= files@.len(),
            total == total_size(files@.subrange(0, i as int)),
            total_size(files@) <= u64::MAX,
        decreases files@.len() - i,
    {
        proof {
            assert(files@.subrange(0, i + 1).drop_last() =~= files@.subrange(0, i as int));
            assert(files@ =~= files@.subrange(0, i + 1) + files@.subrange(
                i + 1,
                files@.len() as int,
            ));
            lemma_total_size_concat(
                files@.subrange(0, i + 1),
                files@.subrange(i + 1, files@.len() as int),
            );
        }
        total = total + files[i].size;
        i += 1;
    }
    assert(files@.subrange(0, i as int) =~= files@);
    total
}

/// What was read of a directory: where it lies, where the directory
/// above it lies, and its entries in the order they were read, of which
/// there are none where the directory could not be read.
#[derive(Debug, PartialEq, Eq)]
pub struct DirectoryRead {
    pub path: String,
    pub parent: String,
    pub entries: Vec<FileEntry>,
}

impl DirectoryRead {
    /// The sizes of the entries can be added up.
    pub open spec fn wf(&self) -> bool {
        total_size(self.entries@) <= u64::MAX
    }

    /// Whether the sizes of the entries can be added up.
    pub fn check(&self) -> (ok: bool)
        ensures
            ok == self.wf(),
    {
        DirectorySearch::fits(&self.entries)
    }
}

impl DirectorySearch {
    pub fn new() -> (search: DirectorySearch) {
        DirectorySearch {  }
    }

    /// Makes the listing of a directory from its `entries` as they were
    /// read, of which there are none where the directory could not be
    /// read. The listing starts with the way up to `parent`, whose size
    /// is that of everything listed; then come the directories, then
    /// the files. Entries whose name begins with a dot are left out
    /// unless `hidden` asks for them.
    pub fn open_directory(parent: String, entries: &Vec<FileEntry>, hidden: bool) -> (files: Vec<
        FileEntry,
    >)
        requires
            total_size(listed(entries@, hidden)) <= u64::MAX,
        ensures
            files@.len() == listed(entries@, hidden).len() + 1,
            is_parent_entry(files@[0], parent, listed(entries@, hidden)),
            files@.subrange(1, files@.len() as int) == listed(entries@, hidden),
    {
        let mut shown: Vec<FileEntry> = Vec::new();
        pick(entries, hidden, true, &mut shown);
        pick(entries, hidden, false, &mut shown);
        assert(shown@ =~= listed(entries@, hidden));
        let size = sum_sizes(&shown);
        let mut files: Vec<FileEntry> = Vec::new();
        files.push(
            FileEntry { name: String::from_str(".."), path: parent, ctime: None, size, is_dir: true },
        );
        files.append(&mut shown);
        assert(files@.subrange(1, files@.len() as int) =~= listed(entries@, hidden));
        files
    }

    /// Whether every listing of `entries` has a size that can be told.
    pub fn fits(entries: &Vec<FileEntry>) -> (yes: bool)
        ensures
            yes ==> total_size(listed(entries@, true)) <= u64::MAX && total_size(
                listed(entries@, false),
            ) <= u64::MAX,
            yes == (total_size(entries@) <= u64::MAX),
    {
        let mut total: u64 = 0;
        let mut i: usize = 0;
        let mut yes = true;
        while i < entries.len()
            invariant
                i <= entries@.len(),
                yes ==> total == total_size(entries@.subrange(0, i as int)),
                !yes ==> total_size(entries@.subrange(0, i as int)) > u64::MAX,
            decreases entries@.len() - i,
        {
            proof {
                assert(entries@.subrange(0, i + 1).drop_last() =~= entries@.subrange(0, i as int));
            }
            if yes {
                match total.checked_add(entries[i].size) {
                    Some(sum) => {
                        total = sum;
                    },
                    None => {
                        yes = false;
                    },
                }
            }
            i += 1;
        }
        proof {
            assert(entries@.subrange(0, i as int) =~= entries@);
            lemma_listed_weighs_less(entries@, true);
            lemma_listed_weighs_less(entries@, false);
        }
        yes
    }
}

/// A listing weighs no more than the entries it was made from.
pub proof fn lemma_listed_weighs_less(entries: Seq<FileEntry>, hidden: bool)
    ensures
        total_size(listed(entries, hidden)) <= total_size(entries),
{
    lemma_total_size_concat(picked(entries, hidden, true), picked(entries, hidden, false));
    lemma_picked_sizes(entries, hidden);
}

/// Directories and files of a listing together weigh no more than the
/// entries it was made from.
pub proof fn lemma_picked_sizes(entries: Seq<FileEntry>, hidden: bool)
    ensures
        total_size(picked(entries, hidden, true)) + total_size(picked(entries, hidden, false))
            <= total_size(entries),
    decreases entries.len(),
{
    if entries.len() > 0 {
        lemma_picked_sizes(entries.drop_last(), hidden);
        let last = entries.last();
        let dirs = picked(entries.drop_last(), hidden, true);
        let files = picked(entries.drop_last(), hidden, false);
        assert(dirs.push(last).drop_last() =~= dirs);
        assert(files.push(last).drop_last() =~= files);
    }
}

} // verus!
