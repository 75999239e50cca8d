//! Checkpoints: where each source's resume cursor is kept, and how its
//! stored text is read back.
//!
//! A checkpoint is a plain-text file `{cursor_dir}/{sanitized name}.cursor`
//! that holds the raw cursor. It is written to a sibling `.tmp` file and
//! renamed over the target, so a reader sees the old or the new value.

use vstd::prelude::*;
use crate::text::{chars_of, owned, trim, trimmed, trim_end, trim_start, unicode_white_space};

verus! {

#[verifier::external_type_specification]
#[verifier::external_body]
pub struct ExIoError(std::io::Error);

/// Why a checkpoint could not be stored or removed.
#[derive(Debug)]
pub enum CursorError {
    CreateDir(std::io::Error),
    Write(std::io::Error),
    Rename(std::io::Error),
}

/// Whether a character is alphabetic or numeric in Unicode's terms.
pub uninterp spec fn alphanumeric(c: char) -> bool;

/// Relies on `char::is_alphanumeric`: Unicode `Alphabetic` or `Numeric`.
pub assume_specification[ char::is_alphanumeric ](c: char) -> (r: bool)
    ensures
        r == alphanumeric(c),
;

/// Characters that may stand in a checkpoint file name as they are.
pub open spec fn is_safe_char(c: char) -> bool {
    alphanumeric(c) || c == '-' || c == '_'
}

/// A source name with every character that is not safe replaced by `_`.
pub open spec fn sanitized(name: Seq<char>) -> Seq<char> {
    name.map_values(|c: char| if is_safe_char(c) { c } else { '_' })
}

/// The file name of a source's checkpoint.
pub open spec fn checkpoint_file_name_of(name: Seq<char>) -> Seq<char> {
    sanitized(name) + ".cursor"@
}

/// A file name inside a directory.
pub open spec fn path_in(dir: Seq<char>, file: Seq<char>) -> Seq<char> {
    if dir.len() == 0 || dir.last() == '/' {
        dir + file
    } else {
        dir + seq!['/'] + file
    }
}

/// Replaces each character of a source name that is not a letter, a digit,
/// `-` or `_` by `_`, so that the name is safe as a file name.
pub fn sanitize_source_name(name: &str) -> (r: String)
    ensures
        r@ == sanitized(name@),
{
    let cs = chars_of(name);
    let mut out = String::new();
    let mut i: usize = 0;
    while i < cs.len()
        invariant
            i <= cs@.len(),
            cs@ == name@,
            out@ == sanitized(cs@.take(i as int)),
        decreases cs.len() - i,
    {
        let c = cs[i];
        let safe = if c.is_alphanumeric() || c == '-' || c == '_' {
            c
        } else {
            '_'
        };
        out.push(safe);
        assert(sanitized(cs@.take(i + 1)) =~= sanitized(cs@.take(i as int)).push(safe));
        i = i + 1;
    }
    assert(cs@.take(cs@.len() as int) =~= cs@);
    out
}

/// The file name of a source's checkpoint: the sanitized name and `.cursor`.
pub fn checkpoint_file_name(source_name: &str) -> (r: String)
    ensures
        r@ == checkpoint_file_name_of(source_name@),
{
    let mut f = sanitize_source_name(source_name);
    f.push_str(".cursor");
    f
}

/// The checkpoint that a stored text holds: the text without surrounding
/// white space, or none where nothing else is left.
pub open spec fn checkpoint_of_text(contents: Seq<char>) -> Option<Seq<char>> {
    if trimmed(contents).len() == 0 {
        None
    } else {
        Some(trimmed(contents))
    }
}

/// Reads a checkpoint back from the text of its file.
pub fn checkpoint_from_contents(contents: &str) -> (r: Option<String>)
    ensures
        match checkpoint_of_text(contents@) {
            Some(c) => r matches Some(s) && s@ == c,
            None => r is None,
        },
{
    let t = trim(contents);
    if t.is_empty() {
        None
    } else {
        Some(owned(t))
    }
}

/// The checkpoint store of one source.
#[derive(Debug, Clone)]
pub struct CursorManager {
    cursor_path: String,
    source_name: String,
}

impl CursorManager {
    pub closed spec fn path_spec(&self) -> Seq<char> {
        self.cursor_path@
    }

    pub closed spec fn source_spec(&self) -> Seq<char> {
        self.source_name@
    }

    /// The checkpoint store of `source_name` in directory `cursor_dir`.
    pub fn new(cursor_dir: &str, source_name: &str) -> (r: CursorManager)
        ensures
            r.path_spec() == path_in(cursor_dir@, checkpoint_file_name_of(source_name@)),
            r.source_spec() == source_name@,
    {
        let file = checkpoint_file_name(source_name);
        let dir = chars_of(cursor_dir);
        let mut path = owned(cursor_dir);
        if dir.len() > 0 && dir[dir.len() - 1] != '/' {
            path.push('/');
        }
        path.push_str(file.as_str());
        CursorManager { cursor_path: path, source_name: owned(source_name) }
    }

    /// The checkpoint file.
    pub fn cursor_path(&self) -> (r: &str)
        ensures
            r@ == self.path_spec(),
    {
        self.cursor_path.as_str()
    }

    /// The sibling file that a new value is written to before it is renamed
    /// over the checkpoint file.
    pub fn temp_path(&self) -> (r: String)
        ensures
            r@ == self.path_spec() + ".tmp"@,
    {
        let mut t = self.cursor_path.clone();
        t.push_str(".tmp");
        t
    }

    /// The source whose checkpoint this is.
    pub fn source_name(&self) -> (r: &str)
        ensures
            r@ == self.source_spec(),
    {
        self.source_name.as_str()
    }
}

/// A checkpoint file name consists of letters, digits, `-` and `_`,
/// followed by the `.cursor` suffix, whatever the source name.
pub proof fn lemma_checkpoint_file_name_is_safe(name: Seq<char>)
    ensures
        checkpoint_file_name_of(name) == sanitized(name) + ".cursor"@,
        sanitized(name).len() == name.len(),
        forall|i: int| 0 <= i < sanitized(name).len() ==> is_safe_char(#[trigger] sanitized(name)[i]),
{
    assert forall|i: int| 0 <= i < sanitized(name).len() implies is_safe_char(
        #[trigger] sanitized(name)[i],
    ) by {
        if !is_safe_char(name[i]) {
            assert(sanitized(name)[i] == '_');
        }
    }
}

/// A cursor stored verbatim reads back unchanged, provided it is not empty
/// and neither starts nor ends with white space (which reading trims).
pub proof fn lemma_checkpoint_round_trip(cursor: Seq<char>)
    requires
        cursor.len() > 0,
        !unicode_white_space(cursor[0]),
        !unicode_white_space(cursor.last()),
    ensures
        checkpoint_of_text(cursor) == Some(cursor),
{
    assert(trim_start(cursor) == cursor);
    assert(trim_end(cursor) == cursor);
}

} // verus!
