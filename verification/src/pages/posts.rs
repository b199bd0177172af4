//! What the pages that show files have in common: which files count as
//! posts, and how a file is opened in the content pane.

use vstd::prelude::*;
use crate::components::filestats::Filestats;
use crate::conf::AppConfiguration;
use crate::directory::FileEntry;
use crate::error::Error;
use crate::scroll::{content_scroll, reserved_lines, ScrollState};
use crate::text::{chars_of, count_lines, line_count, push_str, remove_all, removed, spells, string_from};

verus! {

/// The name is that of a markdown file: it ends in `.md` and has more
/// to it.
pub open spec fn is_markdown_name(name: Seq<char>) -> bool {
    name.len() > 3 && name.subrange(name.len() - 3, name.len() as int) == ".md"@
}

/// Whether `name` is the name of a markdown file.
pub fn markdown_name(name: &str) -> (yes: bool)
    ensures
        yes == is_markdown_name(name@),
{
    let chars = chars_of(name);
    let n = chars.len();
    n > 3 && spells(&chars, n - 3, n, ".md")
}

/// The posts among `entries`: the markdown files, in the order they
/// came in, each as a file.
pub open spec fn posts_of(entries: Seq<FileEntry>) -> Seq<FileEntry>
    decreases entries.len(),
{
    if entries.len() == 0 {
        Seq::<FileEntry>::empty()
    } else {
        let rest = posts_of(entries.drop_last());
        if is_markdown_name(entries.last().name@) {
            rest.push(FileEntry { is_dir: false, ..entries.last() })
        } else {
            rest
        }
    }
}

/// Picks the posts out of the entries of a directory.
pub fn markdown_posts(entries: &Vec<FileEntry>) -> (posts: Vec<FileEntry>)
    ensures
        posts@ == posts_of(entries@),
{
    let mut posts: Vec<FileEntry> = Vec::new();
    let mut i: usize = 0;
    while i < entries.len()
        invariant
            i <= entries@.len(),
            posts@ == posts_of(entries@.subrange(0, i as int)),
        decreases entries@.len() - i,
    {
        proof {
            assert(entries@.subrange(0, i + 1).drop_last() =~= entries@.subrange(0, i as int));
        }
        if markdown_name(entries[i].name.as_str()) {
            let entry = entries[i].clone();
            posts.push(FileEntry { is_dir: false, ..entry });
        }
        i += 1;
    }
    assert(entries@.subrange(0, i as int) =~= entries@);
    posts
}

/// `e` is the configuration error with the text `what` followed by
/// `why`.
pub open spec fn is_configuration_error(e: Error, what: Seq<char>, why: Seq<char>) -> bool {
    e matches Error::Configuration(text) && text@ == what + why
}

/// The configuration error that says `what` and `why`.
pub fn configuration_error(what: &str, why: &str) -> (e: Error)
    ensures
        is_configuration_error(e, what@, why@),
{
    let mut text: Vec<char> = Vec::new();
    push_str(&mut text, what);
    push_str(&mut text, why);
    Error::Configuration(string_from(&text))
}

/// Where the posts lie under the data directory `data_path`.
pub open spec fn posts_under(data_path: Seq<char>) -> Seq<char> {
    data_path + "/posts/"@
}

/// Where the posts lie, by the configuration. Without a configuration
/// there is no such place.
pub fn posts_directory(config: &Option<AppConfiguration>) -> (r: Result<String, Error>)
    ensures
        match r {
            Ok(path) => match *config {
                Some(c) => path@ == posts_under(c.config.app_data_path@),
                None => false,
            },
            Err(e) => config.is_none() && is_configuration_error(
                e,
                "Configuration not set"@,
                Seq::<char>::empty(),
            ),
        },
{
    match config {
        Some(c) => {
            let mut path = chars_of(c.config.app_data_path.as_str());
            push_str(&mut path, "/posts/");
            Ok(string_from(&path))
        },
        None => {
            proof {
                reveal_strlit("");
            }
            let e = configuration_error("Configuration not set", "");
            assert("Configuration not set"@ + ""@ =~= "Configuration not set"@ + Seq::<char>::empty());
            Err(e)
        },
    }
}

/// The file `name` in the directory `directory`.
pub fn file_in(directory: &str, name: &str) -> (path: String)
    ensures
        path@ == directory@ + "/"@ + name@,
{
    let mut path = chars_of(directory);
    push_str(&mut path, "/");
    push_str(&mut path, name);
    string_from(&path)
}

/// The pane shows the file `entry` with the text `markdown`, opened in
/// `height` rows: under the name without its `.md`, with the time of
/// the file or the start of 1970, at the top.
pub open spec fn shows_file(pane: Filestats, entry: FileEntry, markdown: String, height: nat) -> bool {
    let lines = line_count(markdown@);
    &&& pane.markdown == markdown
    &&& pane.title@ == removed(entry.name@, ".md"@)
    &&& pane.ctime == match entry.ctime {
        Some(t) => t,
        None => 0,
    }
    &&& pane.state == (ScrollState {
        position: 0,
        view_size: 1,
        max: (lines - reserved_lines(lines, height)) as usize,
    })
    &&& !pane.scrollable
    &&& pane.action_tx.is_none()
}

/// Opens the file `entry` with the text `markdown` in a pane of
/// `height` rows.
pub fn open_file(entry: &FileEntry, markdown: String, height: u16) -> (pane: Filestats)
    ensures
        shows_file(pane, *entry, markdown, height as nat),
{
    proof {
        reveal_strlit(".md");
    }
    let title = remove_all(entry.name.as_str(), ".md");
    let ctime = match entry.ctime {
        Some(t) => t,
        None => 0,
    };
    let max = count_lines(markdown.as_str());
    let state = content_scroll(max, height as usize);
    Filestats::new(markdown, title, ctime, state)
}

} // verus!
