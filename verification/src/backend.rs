//! Which rendering backend the application runs on.

use vstd::prelude::*;
use crate::text::{begins_with, chars_of, lowered, push_str, spells, string_from, string_of};

verus! {

/// The rendering backends there are.
#[derive(Debug, Clone, Copy, PartialEq, Eq, Structural)]
pub enum BackendType {
    Dom,
    Canvas,
    WebGl2,
}

impl Default for BackendType {
    fn default() -> (backend: BackendType)
        ensures
            backend == BackendType::Dom,
    {
        BackendType::Dom
    }
}

/// The backend that `name` names, whatever its letter case.
pub open spec fn backend_named(name: Seq<char>) -> Option<BackendType> {
    if lowered(name) == "dom"@ {
        Some(BackendType::Dom)
    } else if lowered(name) == "canvas"@ {
        Some(BackendType::Canvas)
    } else if lowered(name) == "webgl2"@ {
        Some(BackendType::WebGl2)
    } else {
        None
    }
}

/// What is said of a name that names no backend.
pub open spec fn invalid_backend_message(name: Seq<char>) -> Seq<char> {
    "Invalid backend type: '"@ + name + "'. Valid options are: dom, canvas, webgl2"@
}

impl BackendType {
    /// The name of the backend.
    pub open spec fn name(self) -> Seq<char> {
        match self {
            BackendType::Dom => "dom"@,
            BackendType::Canvas => "canvas"@,
            BackendType::WebGl2 => "webgl2"@,
        }
    }

    /// Get the string representation
    pub fn as_str(&self) -> (name: &'static str)
        ensures
            name@ == self.name(),
    {
        match self {
            BackendType::Dom => "dom",
            BackendType::Canvas => "canvas",
            BackendType::WebGl2 => "webgl2",
        }
    }

    /// Reads the name of a backend, in any letter case.
    pub fn try_from(s: String) -> (r: Result<BackendType, String>)
        ensures
            match r {
                Ok(backend) => backend_named(s@) == Some(backend),
                Err(message) => backend_named(s@).is_none() && message@
                    == invalid_backend_message(s@),
            },
    {
        let chars = chars_of(s.as_str());
        let mut lower: Vec<char> = Vec::new();
        let mut i: usize = 0;
        while i < chars.len()
            invariant
                i <= chars@.len(),
                lower@ == lowered(chars@.subrange(0, i as int)),
            decreases chars@.len() - i,
        {
            lower.push(chars[i].to_ascii_lowercase());
            assert(lower@ =~= lowered(chars@.subrange(0, i + 1)));
            i += 1;
        }
        assert(chars@.subrange(0, i as int) =~= s@);
        let n = lower.len();
        assert(lower@.subrange(0, n as int) =~= lower@);
        if spells(&lower, 0, n, "dom") {
            Ok(BackendType::Dom)
        } else if spells(&lower, 0, n, "canvas") {
            Ok(BackendType::Canvas)
        } else if spells(&lower, 0, n, "webgl2") {
            Ok(BackendType::WebGl2)
        } else {
            let mut message: Vec<char> = Vec::new();
            push_str(&mut message, "Invalid backend type: '");
            push_str(&mut message, s.as_str());
            push_str(&mut message, "'. Valid options are: dom, canvas, webgl2");
            Err(string_from(&message))
        }
    }

    /// The backend to run on: the one that the page address asks for
    /// with its `backend` parameter, if it names one, and else `default`.
    pub fn select(requested: Option<String>, default: BackendType) -> (backend: BackendType)
        ensures
            backend == match requested {
                Some(name) => match backend_named(name@) {
                    Some(chosen) => chosen,
                    None => default,
                },
                None => default,
            },
    {
        match requested {
            Some(name) => match BackendType::try_from(name) {
                Ok(chosen) => chosen,
                Err(_) => default,
            },
            None => default,
        }
    }
}

/// The link of the footer that leads to `backend`, on a page that runs
/// on `current` and lies at `base_url`: the backend that runs is only
/// marked, and the other one is linked with the parameter that selects
/// it.
pub open spec fn footer_link(backend: BackendType, current: BackendType, base_url: Seq<char>) -> Seq<
    char,
> {
    if backend == current {
        "<span style=\""@ + "color: #4ade80; font-weight: bold; text-decoration: none;"@
            + "\">● "@ + backend.name() + "</span>"@
    } else {
        "<a href=\""@ + base_url + "?backend="@ + backend.name() + "\" style=\""@
            + "color: #94a3b8; text-decoration: none; cursor: pointer;"@ + "\">"@ + backend.name()
            + "</a>"@
    }
}

/// The footer of the page: the links to the two backends that can be
/// switched between, and the place where the frame rate shows.
pub open spec fn footer_text(current: BackendType, base_url: Seq<char>) -> Seq<char> {
    "<span style=\"color: #64748b;\">Backend:</span> "@ + footer_link(
        BackendType::Dom,
        current,
        base_url,
    ) + " | "@ + footer_link(BackendType::Canvas, current, base_url)
        + " | <span style=\"color: #64748b;\">FPS:</span> <span id=\"ratzilla-fps\" style=\"color: #4ade80; font-weight: bold;\">--</span>"@
}

fn push_footer_link(out: &mut Vec<char>, backend: BackendType, current: BackendType, base_url: &str)
    ensures
        final(out)@ == old(out)@ + footer_link(backend, current, base_url@),
{
    if backend == current {
        push_str(out, "<span style=\"");
        push_str(out, "color: #4ade80; font-weight: bold; text-decoration: none;");
        push_str(out, "\">● ");
        push_str(out, backend.as_str());
        push_str(out, "</span>");
    } else {
        push_str(out, "<a href=\"");
        push_str(out, base_url);
        push_str(out, "?backend=");
        push_str(out, backend.as_str());
        push_str(out, "\" style=\"");
        push_str(out, "color: #94a3b8; text-decoration: none; cursor: pointer;");
        push_str(out, "\">");
        push_str(out, backend.as_str());
        push_str(out, "</a>");
    }
    assert(out@ =~= old(out)@ + footer_link(backend, current, base_url@));
}

/// The markup of the footer with the links that switch the backend,
/// for a page that runs on `current_backend` and lies at `base_url`.
pub fn inject_backend_footer(current_backend: BackendType, base_url: &str) -> (html: String)
    ensures
        html@ == footer_text(current_backend, base_url@),
{
    let mut out: Vec<char> = Vec::new();
    push_str(&mut out, "<span style=\"color: #64748b;\">Backend:</span> ");
    push_footer_link(&mut out, BackendType::Dom, current_backend, base_url);
    push_str(&mut out, " | ");
    push_footer_link(&mut out, BackendType::Canvas, current_backend, base_url);
    push_str(
        &mut out,
        " | <span style=\"color: #64748b;\">FPS:</span> <span id=\"ratzilla-fps\" style=\"color: #4ade80; font-weight: bold;\">--</span>",
    );
    assert(out@ =~= footer_text(current_backend, base_url@));
    string_from(&out)
}

/// `piece` gives `name` a value: it begins with the name and an equals
/// sign.
pub open spec fn gives(piece: Seq<char>, name: Seq<char>) -> bool {
    piece.len() > name.len() && piece.subrange(0, name.len() as int) == name && piece[name.len() as int]
        == '='
}

/// The value that the first piece of `s[start..]` which gives `name` a
/// value gives it, where the pieces are cut at every `&` and the search
/// for the end of the piece at `start` stands at `i`.
pub open spec fn value_from(s: Seq<char>, name: Seq<char>, start: int, i: int) -> Option<Seq<char>>
    decreases s.len() - i,
{
    if !(0 <= start <= i) || i >= s.len() {
        let piece = s.subrange(start, s.len() as int);
        if gives(piece, name) {
            Some(piece.skip(name.len() as int + 1))
        } else {
            None
        }
    } else if s[i] == '&' {
        let piece = s.subrange(start, i);
        if gives(piece, name) {
            Some(piece.skip(name.len() as int + 1))
        } else {
            value_from(s, name, i + 1, i + 1)
        }
    } else {
        value_from(s, name, start, i + 1)
    }
}

/// The value of the parameter `name` in the query `search` of an
/// address, as it stands there: the query may begin with a question
/// mark, its parameters are parted by `&`, and the first one of the
/// name counts.
pub open spec fn query_value_of(search: Seq<char>, name: Seq<char>) -> Option<Seq<char>> {
    if search.len() > 0 && search[0] == '?' {
        value_from(search, name, 1, 1)
    } else {
        value_from(search, name, 0, 0)
    }
}

/// The value of the parameter `name` in the query `search`.
pub fn query_value(search: &str, name: &str) -> (value: Option<String>)
    ensures
        match value {
            Some(v) => query_value_of(search@, name@) == Some(v@),
            None => query_value_of(search@, name@).is_none(),
        },
{
    let chars = chars_of(search);
    let key = chars_of(name);
    let n = chars.len();
    let m = key.len();
    let mut start: usize = if n > 0 && chars[0] == '?' {
        1
    } else {
        0
    };
    let mut i: usize = start;
    loop
        invariant
            start <= i <= n,
            n == chars@.len(),
            m == key@.len(),
            chars@ == search@,
            key@ == name@,
            query_value_of(search@, name@) == value_from(chars@, key@, start as int, i as int),
        decreases n - i,
    {
        if i >= n || chars[i] == '&' {
            let ghost piece = chars@.subrange(start as int, i as int);
            let fits = i - start > m && begins_with(&chars, start, name) && chars[start + m] == '=';
            proof {
                if i - start > m {
                    assert(piece.subrange(0, m as int) =~= chars@.subrange(
                        start as int,
                        start + m,
                    ));
                    assert(piece[m as int] == chars@[start + m]);
                }
                assert(fits == gives(piece, key@));
            }
            if fits {
                assert(piece.skip(m + 1) =~= chars@.subrange(start + m + 1, i as int));
                return Some(string_of(&chars, start + m + 1, i));
            }
            if i >= n {
                return None;
            }
            start = i + 1;
            i = i + 1;
        } else {
            i = i + 1;
        }
    }
}

} // verus!
