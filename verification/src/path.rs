//! File names, and where a converted document goes.
//!
//! A file is named by the directory that holds it and by its file name, the last component of
//! its path. The rules below read file names only; a directory is carried as it is.

use vstd::prelude::*;
use vstd::string::{StrSliceExecFns, StringExecFns};

verus! {

/// The index of the last dot of a file name, or -1 where it has none.
pub open spec fn last_dot(name: Seq<char>) -> int
    decreases name.len(),
{
    if name.len() == 0 {
        -1
    } else if name.last() == '.' {
        name.len() - 1
    } else {
        last_dot(name.drop_last())
    }
}

/// The extension of a file name: what follows its last dot. A name without a dot has none,
/// and neither has a name whose only dot is its first character.
pub open spec fn extension_of(name: Seq<char>) -> Option<Seq<char>> {
    if last_dot(name) > 0 {
        Some(name.skip(last_dot(name) + 1))
    } else {
        None
    }
}

/// The stem of a file name: what precedes the dot of its extension, or the whole name where
/// it has no extension.
pub open spec fn stem_of(name: Seq<char>) -> Seq<char> {
    if last_dot(name) > 0 {
        name.take(last_dot(name))
    } else {
        name
    }
}

/// A file name with its extension replaced, or added where it has none. An empty extension
/// leaves the stem alone.
pub open spec fn name_with_extension(name: Seq<char>, extension: Seq<char>) -> Seq<char> {
    if extension.len() == 0 {
        stem_of(name)
    } else {
        stem_of(name) + "."@ + extension
    }
}

/// Whether a file name is that of a Markdown document: its extension is `md`.
pub open spec fn is_markdown_name(name: Seq<char>) -> bool {
    extension_of(name) == Some("md"@)
}

/// The file name of the PDF that a document becomes in a batch: the stem of the document's
/// name, with `pdf` set as its extension.
pub open spec fn pdf_name_of(name: Seq<char>) -> Seq<char> {
    name_with_extension(stem_of(name), "pdf"@)
}

/// The last dot lies inside the name, and no dot follows it.
pub proof fn last_dot_is_last(name: Seq<char>)
    ensures
        -1 <= last_dot(name) < name.len(),
        last_dot(name) >= 0 ==> name[last_dot(name)] == '.',
        forall|i: int| last_dot(name) < i < name.len() ==> name[i] != '.',
    decreases name.len(),
{
    if name.len() > 0 && name.last() != '.' {
        last_dot_is_last(name.drop_last());
        assert forall|i: int| last_dot(name) < i < name.len() implies name[i] != '.' by {
            if i < name.len() - 1 {
                assert(name.drop_last()[i] == name[i]);
            }
        }
    }
}

/// A file name that has an extension is its stem, a dot, and its extension.
pub proof fn name_is_stem_dot_extension(name: Seq<char>)
    requires
        extension_of(name) is Some,
    ensures
        name == stem_of(name) + "."@ + extension_of(name).unwrap(),
        stem_of(name).len() > 0,
{
    reveal_strlit(".");
    last_dot_is_last(name);
    assert(name =~= stem_of(name) + "."@ + extension_of(name).unwrap());
}

/// Where an extension without a dot is set on a stem, the last dot of the name is the one
/// before the extension.
proof fn last_dot_before_extension(stem: Seq<char>, extension: Seq<char>)
    requires
        forall|i: int| 0 <= i < extension.len() ==> extension[i] != '.',
    ensures
        last_dot(stem + "."@ + extension) == stem.len(),
    decreases extension.len(),
{
    reveal_strlit(".");
    let name = stem + "."@ + extension;
    if extension.len() == 0 {
        assert(name.last() == '.');
    } else {
        assert(name.last() == extension.last());
        assert(name.drop_last() =~= stem + "."@ + extension.drop_last());
        last_dot_before_extension(stem, extension.drop_last());
    }
}

/// The PDF of a Markdown document has the extension `pdf`: it is never taken for a document
/// itself.
pub proof fn pdf_is_no_document(name: Seq<char>)
    requires
        is_markdown_name(name),
    ensures
        extension_of(pdf_name_of(name)) == Some("pdf"@),
        !is_markdown_name(pdf_name_of(name)),
{
    reveal_strlit("pdf");
    reveal_strlit("md");
    name_is_stem_dot_extension(name);
    let stem = stem_of(name);
    last_dot_is_last(stem);
    let base = stem_of(stem);
    assert(base.len() > 0);
    last_dot_before_extension(base, "pdf"@);
    reveal_strlit(".");
    assert(pdf_name_of(name) == base + "."@ + "pdf"@);
    assert(pdf_name_of(name).skip(base.len() as int + 1) =~= "pdf"@);
    assert("pdf"@[0] != "md"@[0]);
}

/// The index of the last dot of `name`.
fn find_last_dot(name: &str) -> (dot: Option<usize>)
    ensures
        match dot {
            Some(i) => last_dot(name@) == i,
            None => last_dot(name@) == -1,
        },
{
    let length = name.unicode_len();
    let mut i: usize = length;
    assert(name@.take(length as int) =~= name@);
    while i > 0
        invariant
            i <= length,
            length == name@.len(),
            last_dot(name@) == last_dot(name@.take(i as int)),
        decreases i,
    {
        if name.get_char(i - 1) == '.' {
            return Some(i - 1);
        }
        assert(name@.take(i as int).drop_last() =~= name@.take(i - 1));
        i -= 1;
    }
    None
}

/// The stem of a file name.
pub fn file_stem(name: &str) -> (stem: String)
    ensures
        stem@ == stem_of(name@),
{
    match find_last_dot(name) {
        Some(dot) => if dot > 0 {
            proof {
                last_dot_is_last(name@);
            }
            String::from_str(name.substring_char(0, dot))
        } else {
            String::from_str(name)
        },
        None => String::from_str(name),
    }
}

/// The extension of a file name, where it has one.
pub fn file_extension(name: &str) -> (extension: Option<String>)
    ensures
        match extension {
            Some(text) => extension_of(name@) == Some(text@),
            None => extension_of(name@) is None,
        },
{
    match find_last_dot(name) {
        Some(dot) => if dot > 0 {
            proof {
                last_dot_is_last(name@);
            }
            let length = name.unicode_len();
            Some(String::from_str(name.substring_char(dot + 1, length)))
        } else {
            None
        },
        None => None,
    }
}

/// A file name with its extension replaced, or added where it has none.
pub fn with_extension(name: &str, extension: &str) -> (renamed: String)
    ensures
        renamed@ == name_with_extension(name@, extension@),
{
    let mut renamed = file_stem(name);
    if extension.unicode_len() > 0 {
        renamed.append(".");
        renamed.append(extension);
    }
    renamed
}

/// Whether a file name is that of a Markdown document.
pub fn is_markdown(name: &str) -> (markdown: bool)
    ensures
        markdown == is_markdown_name(name@),
{
    proof {
        reveal_strlit("md");
        last_dot_is_last(name@);
    }
    match find_last_dot(name) {
        Some(dot) => {
            let length = name.unicode_len();
            if dot > 0 && length - dot == 3 {
                let found = name.get_char(dot + 1) == 'm' && name.get_char(dot + 2) == 'd';
                assert(found ==> name@.skip(dot + 1) =~= "md"@);
                assert(!found ==> name@.skip(dot + 1) != "md"@) by {
                    if !found && name@.skip(dot + 1) == "md"@ {
                        assert(name@.skip(dot + 1)[0] == 'm');
                        assert(name@.skip(dot + 1)[1] == 'd');
                    }
                }
                found
            } else {
                assert(dot > 0 ==> name@.skip(dot + 1).len() != "md"@.len());
                false
            }
        },
        None => false,
    }
}

/// The file name of the PDF that a document becomes in a batch.
pub fn pdf_name(name: &str) -> (renamed: String)
    ensures
        renamed@ == pdf_name_of(name@),
{
    let stem = file_stem(name);
    with_extension(stem.as_str(), "pdf")
}

/// A file: the directory that holds it, and its file name.
#[derive(Clone, Debug, PartialEq, Eq)]
pub struct FilePath {
    pub dir: String,
    pub name: String,
}

/// What a [`FilePath`] holds, as sequences of characters.
pub struct FilePathModel {
    pub dir: Seq<char>,
    pub name: Seq<char>,
}

impl View for FilePath {
    type V = FilePathModel;

    open spec fn view(&self) -> FilePathModel {
        FilePathModel { dir: self.dir@, name: self.name@ }
    }
}

/// A path as text: the directory, a `/` unless the directory is empty or ends in one, and the
/// file name.
pub open spec fn path_text(path: FilePathModel) -> Seq<char> {
    if path.dir.len() == 0 || path.dir.last() == '/' {
        path.dir + path.name
    } else {
        path.dir + "/"@ + path.name
    }
}

impl FilePath {
    /// This path as text.
    pub fn text(&self) -> (text: String)
        ensures
            text@ == path_text(self@),
    {
        let mut text = self.dir.clone();
        let length = self.dir.as_str().unicode_len();
        if length > 0 && self.dir.as_str().get_char(length - 1) != '/' {
            text.append("/");
        }
        text.append(self.name.as_str());
        text
    }

    /// The file `name` in the directory `dir`.
    pub fn new(dir: &str, name: &str) -> (path: FilePath)
        ensures
            path@ == (FilePathModel { dir: dir@, name: name@ }),
    {
        FilePath { dir: String::from_str(dir), name: String::from_str(name) }
    }

    /// A copy of this path.
    pub fn duplicate(&self) -> (copy: FilePath)
        ensures
            copy@ == self@,
    {
        FilePath { dir: self.dir.clone(), name: self.name.clone() }
    }
}

/// Where the PDF of a document goes in a batch: into the output directory where one is given,
/// else beside the document; under the document's stem, with `pdf` as its extension.
pub open spec fn batch_output_of(input: FilePathModel, output_dir: Option<Seq<char>>)
    -> FilePathModel {
    FilePathModel {
        dir: match output_dir {
            Some(dir) => dir,
            None => input.dir,
        },
        name: pdf_name_of(input.name),
    }
}

/// Where the PDF of a single document goes: to the output path where one is given, else
/// beside the document, under the document's name with `pdf` as its extension.
pub open spec fn single_output_of(input: FilePathModel, output: Option<FilePathModel>)
    -> FilePathModel {
    match output {
        Some(path) => path,
        None => FilePathModel { dir: input.dir, name: name_with_extension(input.name, "pdf"@) },
    }
}

/// Where the PDF of a document goes in a batch.
pub fn batch_output(input: &FilePath, output_dir: &Option<String>) -> (output: FilePath)
    ensures
        output@ == batch_output_of(
            input@,
            match *output_dir {
                Some(dir) => Some(dir@),
                None => None,
            },
        ),
{
    let dir = match output_dir {
        Some(dir) => dir.clone(),
        None => input.dir.clone(),
    };
    FilePath { dir, name: pdf_name(input.name.as_str()) }
}

/// Where the PDF of a single document goes.
pub fn single_output(input: &FilePath, output: &Option<FilePath>) -> (resolved: FilePath)
    ensures
        resolved@ == single_output_of(
            input@,
            match *output {
                Some(path) => Some(path@),
                None => None,
            },
        ),
{
    match output {
        Some(path) => path.duplicate(),
        None => FilePath {
            dir: input.dir.clone(),
            name: with_extension(input.name.as_str(), "pdf"),
        },
    }
}

} // verus!
