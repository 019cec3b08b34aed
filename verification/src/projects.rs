//! Names of projects and sessions as they appear in directories of logs
//! and of exports.

use crate::text::{push_char, replace_char, replaced};
use vstd::prelude::*;
use vstd::string::StringExecFns;

verus! {

/// The text without the dashes at its start.
pub open spec fn without_leading_dashes(text: Seq<char>) -> Seq<char>
    decreases text.len(),
{
    if text.len() > 0 && text[0] == '-' {
        without_leading_dashes(text.drop_first())
    } else {
        text
    }
}

/// The name under which a project is exported: the name without the dashes
/// at its start, or `root` where nothing is left of it.
pub open spec fn export_name(project_name: Seq<char>) -> Seq<char> {
    let cleaned = without_leading_dashes(project_name);
    if cleaned.len() == 0 {
        "root"@
    } else {
        cleaned
    }
}

/// A text of dashes only has nothing left without them; any other text with
/// one more character at its end has that character at its end without them.
proof fn lemma_dashes_push(text: Seq<char>, c: char)
    ensures
        without_leading_dashes(text).len() == 0 ==> without_leading_dashes(text.push(c)) == (if c
            == '-' {
            Seq::<char>::empty()
        } else {
            seq![c]
        }),
        without_leading_dashes(text).len() > 0 ==> without_leading_dashes(text.push(c))
            == without_leading_dashes(text).push(c),
    decreases text.len(),
{
    if text.len() == 0 {
        let one = text.push(c);
        assert(one.drop_first() =~= Seq::<char>::empty());
        assert(one =~= seq![c]);
        assert(without_leading_dashes(one.drop_first()) =~= Seq::<char>::empty());
        if c == '-' {
            assert(without_leading_dashes(one) == without_leading_dashes(one.drop_first()));
        } else {
            assert(without_leading_dashes(one) == one);
        }
    } else if text[0] == '-' {
        assert(text.push(c).drop_first() =~= text.drop_first().push(c));
        lemma_dashes_push(text.drop_first(), c);
    }
}

/// The name under which a project is exported: without the dashes at its
/// start, which a command line would take for options, and `root` where
/// nothing is left.
pub fn clean_project_name_for_export(project_name: &str) -> (cleaned: String)
    ensures
        cleaned@ == export_name(project_name@),
{
    let mut cleaned = String::new();
    for c in it: project_name.chars()
        invariant
            it.seq() == project_name@,
            cleaned@ == without_leading_dashes(project_name@.take(it.index() as int)),
    {
        proof {
            let seen = project_name@.take(it.index() as int);
            assert(project_name@.take(it.index() + 1) =~= seen.push(c));
            lemma_dashes_push(seen, c);
        }
        if !(cleaned.as_str().is_empty() && c == '-') {
            push_char(&mut cleaned, c);
        }
    }
    proof {
        assert(project_name@.take(project_name@.len() as int) =~= project_name@);
    }
    if cleaned.as_str().is_empty() {
        "root".to_owned()
    } else {
        cleaned
    }
}

/// The name of the project that belongs to a working directory: its path
/// with a dash for every slash.
pub fn project_name_of_directory(directory: &str) -> (name: String)
    ensures
        name@ == replaced(directory@, '/', "-"@),
{
    replace_char(directory, '/', "-")
}

/// Whether the text ends with the suffix.
pub open spec fn has_suffix(text: Seq<char>, suffix: Seq<char>) -> bool {
    text.len() >= suffix.len() && text.skip(text.len() - suffix.len()) == suffix
}

/// The text without the suffix at its end, however often it stands there.
pub open spec fn without_suffix(text: Seq<char>, suffix: Seq<char>) -> Seq<char>
    decreases text.len(),
{
    if suffix.len() > 0 && has_suffix(text, suffix) {
        without_suffix(text.take(text.len() - suffix.len()), suffix)
    } else {
        text
    }
}

/// The session that a file of a project directory holds: none unless the
/// name of the file ends in `.jsonl`, else the name without that ending.
pub open spec fn session_of_file(file_name: Seq<char>) -> Option<Seq<char>> {
    if has_suffix(file_name, ".jsonl"@) {
        Some(without_suffix(file_name, ".jsonl"@))
    } else {
        None
    }
}

/// The characters of the text.
fn characters(text: &str) -> (all: Vec<char>)
    ensures
        all@ == text@,
{
    let mut all: Vec<char> = Vec::new();
    for c in it: text.chars()
        invariant
            it.seq() == text@,
            all@ == text@.take(it.index() as int),
    {
        proof {
            assert(text@.take(it.index() + 1) =~= text@.take(it.index() as int).push(c));
        }
        all.push(c);
    }
    proof {
        assert(text@.take(text@.len() as int) =~= text@);
    }
    all
}

/// Whether the first `len` characters end with the suffix.
fn ends_with(text: &Vec<char>, len: usize, suffix: &Vec<char>) -> (r: bool)
    requires
        len <= text@.len(),
    ensures
        r == has_suffix(text@.take(len as int), suffix@),
{
    if len < suffix.len() {
        return false;
    }
    let start: usize = len - suffix.len();
    let ghost tail = text@.take(len as int).skip(start as int);
    let mut i: usize = 0;
    while i < suffix.len()
        invariant
            i <= suffix@.len(),
            start + suffix@.len() == len <= text@.len(),
            tail == text@.take(len as int).skip(start as int),
            forall|j: int| 0 <= j < i ==> tail[j] == suffix@[j],
        decreases suffix@.len() - i,
    {
        if text[start + i] != suffix[i] {
            proof {
                assert(tail[i as int] != suffix@[i as int]);
            }
            return false;
        }
        i = i + 1;
    }
    proof {
        assert(tail =~= suffix@);
    }
    true
}

/// The session that a file of a project directory holds.
pub fn session_id_of(file_name: &str) -> (session: Option<String>)
    ensures
        session is Some <==> session_of_file(file_name@) is Some,
        session matches Some(id) ==> session_of_file(file_name@) == Some(id@),
{
    let name = characters(file_name);
    let suffix = characters(".jsonl");
    proof {
        reveal_strlit(".jsonl");
        assert(name@.take(name@.len() as int) =~= name@);
    }
    if !ends_with(&name, name.len(), &suffix) {
        return None;
    }
    let mut len: usize = name.len();
    while ends_with(&name, len, &suffix)
        invariant
            len <= name@.len(),
            suffix@.len() == 6,
            without_suffix(name@, suffix@) == without_suffix(name@.take(len as int), suffix@),
        decreases len,
    {
        proof {
            assert(name@.take(len as int).take(len - 6) =~= name@.take(len - 6));
        }
        len = len - 6;
    }
    let mut id = String::new();
    let mut i: usize = 0;
    while i < len
        invariant
            i <= len <= name@.len(),
            id@ == name@.take(i as int),
        decreases len - i,
    {
        proof {
            assert(name@.take(i + 1) =~= name@.take(i as int).push(name@[i as int]));
        }
        push_char(&mut id, name[i]);
        i = i + 1;
    }
    Some(id)
}

/// The name of the file that a session is exported to for download.
pub fn export_file_name(project_name: &str, session_id: &str) -> (name: String)
    ensures
        name@ == project_name@ + "-"@ + session_id@ + ".md"@,
{
    let mut name = String::from_str(project_name);
    name.append("-");
    name.append(session_id);
    name.append(".md");
    name
}

/// Whether a session is exported again: when there is no export of it yet,
/// or when the session has been modified after its export.
pub fn should_export(export_exists: bool, session_is_newer: bool) -> (export: bool)
    ensures
        export == (!export_exists || session_is_newer),
{
    if export_exists {
        session_is_newer
    } else {
        true
    }
}

} // verus!
