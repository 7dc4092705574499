//! The Unix resolver: from a device id and an inode number to a path, by way
//! of the system's path-lookup utility.
//!
//! The resolver never starts the utility. [`path_from_id`] names the lookup to
//! run, a driver runs it, and [`path_from_output`] reads the path off what the
//! utility printed.

use crate::id::FileId;
use crate::kind::ErrorKind;
use crate::text::{
    chars_of, decimal, find, in_margin, index_of, lemma_index_of_bound, lemma_stripped_back,
    lemma_stripped_front,
    push_decimal, spells, strip, strip_front, strip_span, text_from_utf8, Margin,
};
use vstd::prelude::*;
use vstd::string::*;
use vstd::utf8::*;

verus! {

/// Why a resolution failed.
#[derive(Clone, Copy, Debug, PartialEq, Eq, Structural)]
pub enum Error {
    /// The identifier is not of the Unix family.
    InvalidFileId,
    /// The utility could not be started; the operating system's error code,
    /// where it gave one.
    Command(Option<i32>),
    /// The utility's output is not valid UTF-8.
    Decode,
    /// The output names neither a file nor a directory: the identifier no
    /// longer maps to a live file.
    NoFileInfo,
}

impl Error {
    /// The class of this failure.
    pub open spec fn spec_kind(self) -> ErrorKind {
        match self {
            Error::InvalidFileId => ErrorKind::UnsupportedIdentifier,
            Error::Command(_) => ErrorKind::TransientOsFailure,
            Error::Decode => ErrorKind::DecodeFailure,
            Error::NoFileInfo => ErrorKind::NotFound,
        }
    }

    /// The class of this failure.
    #[verifier::when_used_as_spec(spec_kind)]
    pub fn kind(self) -> (kind: ErrorKind)
        ensures
            kind == self.spec_kind(),
    {
        match self {
            Error::InvalidFileId => ErrorKind::UnsupportedIdentifier,
            Error::Command(_) => ErrorKind::TransientOsFailure,
            Error::Decode => ErrorKind::DecodeFailure,
            Error::NoFileInfo => ErrorKind::NotFound,
        }
    }
}

/// A lookup for a driver to run: `program`, given `option` and then `script`
/// as its two arguments, with its standard output captured.
#[derive(Debug)]
pub struct Lookup {
    pub program: String,
    pub option: String,
    pub script: String,
}

/// A lookup as plain text.
pub struct LookupView {
    pub program: Seq<char>,
    pub option: Seq<char>,
    pub script: Seq<char>,
}

impl View for Lookup {
    type V = LookupView;

    open spec fn view(&self) -> LookupView {
        LookupView { program: self.program@, option: self.option@, script: self.script@ }
    }
}

/// The synthetic path under which the system presents the file with inode
/// `inode_number` on device `device_id`.
pub open spec fn volume_path(device_id: u64, inode_number: u64) -> Seq<char> {
    "/.vol/"@ + decimal(device_id as nat) + "/"@ + decimal(inode_number as nat)
}

/// The lookup of the file with inode `inode_number` on device `device_id`:
/// the shell, told to run the utility on the file's synthetic path.
pub open spec fn lookup_of(device_id: u64, inode_number: u64) -> LookupView {
    LookupView {
        program: "sh"@,
        option: "-c"@,
        script: "getfileinfo "@ + volume_path(device_id, inode_number),
    }
}

/// The lookup that `id` asks for, or the rejection of an identifier that is
/// not of the Unix family.
pub open spec fn lookup_for(id: FileId) -> Result<LookupView, Error> {
    match id {
        FileId::Inode { device_id, inode_number } => Ok(lookup_of(device_id, inode_number)),
        _ => Err(Error::InvalidFileId),
    }
}

/// A lookup or its refusal, as plain values.
pub open spec fn lookup_view(lookup: Result<Lookup, Error>) -> Result<LookupView, Error> {
    match lookup {
        Ok(l) => Ok(l@),
        Err(e) => Err(e),
    }
}

/// A path or the failure to find one, as plain values.
pub open spec fn path_view(path: Result<String, Error>) -> Result<Seq<char>, Error> {
    match path {
        Ok(p) => Ok(p@),
        Err(e) => Err(e),
    }
}

/// The lookup of the file with inode `inode_number` on device `device_id`.
pub fn get_path_from_id(device_id: u64, inode_number: u64) -> (lookup: Lookup)
    ensures
        lookup@ == lookup_of(device_id, inode_number),
{
    let mut script = String::from_str("getfileinfo ");
    script.append("/.vol/");
    push_decimal(&mut script, device_id);
    script.append("/");
    push_decimal(&mut script, inode_number);
    assert(script@ =~= "getfileinfo "@ + volume_path(device_id, inode_number));
    Lookup { program: String::from_str("sh"), option: String::from_str("-c"), script }
}

/// Begins the resolution of `id`: names the lookup to run for an identifier
/// of the Unix family, and rejects any other before anything is run.
pub fn path_from_id(id: &FileId) -> (lookup: Result<Lookup, Error>)
    ensures
        lookup_view(lookup) == lookup_for(*id),
{
    match id {
        FileId::Inode { device_id, inode_number } => Ok(
            get_path_from_id(*device_id, *inode_number),
        ),
        _ => Err(Error::InvalidFileId),
    }
}

/// Whether `key` is one of the two keys whose value is a path.
pub open spec fn is_path_key(key: Seq<char>) -> bool {
    key == "directory"@ || key == "file"@
}

/// The path that `line` gives: the line is `key: value`, split at its first
/// colon, the trimmed key is `directory` or `file`, and the path is the value
/// without surrounding white space and then without surrounding quotes.
pub open spec fn path_of_line(line: Seq<char>) -> Option<Seq<char>> {
    let colon = index_of(line, ':');
    if colon < line.len() && is_path_key(strip(line.take(colon as int), Margin::Space)) {
        Some(strip(strip(line.skip(colon as int + 1), Margin::Space), Margin::Quote))
    } else {
        None
    }
}

/// The path that the first line of `text` to give one gives; lines end at
/// each line feed.
pub open spec fn path_in(text: Seq<char>) -> Option<Seq<char>>
    decreases text.len(),
{
    let end = index_of(text, '\n');
    match path_of_line(text.take(end as int)) {
        Some(path) => Some(path),
        None => if end < text.len() {
            path_in(text.skip(end as int + 1))
        } else {
            None
        },
    }
}

/// What the utility's output, once decoded, resolves to.
pub open spec fn text_path(text: Seq<char>) -> Result<Seq<char>, Error> {
    match path_in(text) {
        Some(path) => Ok(path),
        None => Err(Error::NoFileInfo),
    }
}

/// What the utility's standard output resolves to.
pub open spec fn output_path(stdout: Seq<u8>) -> Result<Seq<char>, Error> {
    if valid_utf8(stdout) {
        text_path(decode_utf8(stdout))
    } else {
        Err(Error::Decode)
    }
}

/// The bounds in `chars` of the path that the line `chars[lo..hi]` gives.
fn line_span(chars: &Vec<char>, lo: usize, hi: usize) -> (span: Option<(usize, usize)>)
    requires
        lo <= hi <= chars.len(),
    ensures
        match span {
            Some((a, b)) => lo <= a <= b <= hi && path_of_line(
                chars@.subrange(lo as int, hi as int),
            ) == Some(chars@.subrange(a as int, b as int)),
            None => path_of_line(chars@.subrange(lo as int, hi as int)) is None,
        },
{
    let ghost line = chars@.subrange(lo as int, hi as int);
    let colon = find(chars, lo, hi, ':');
    if colon == hi {
        return None;
    }
    assert(line.take(colon - lo) == chars@.subrange(lo as int, colon as int));
    assert(line.skip(colon - lo + 1) == chars@.subrange(colon + 1, hi as int));
    let (k0, k1) = strip_span(chars, lo, colon, Margin::Space);
    let directory = chars_of("directory");
    let file = chars_of("file");
    if spells(chars, k0, k1, &directory) || spells(chars, k0, k1, &file) {
        let (v0, v1) = strip_span(chars, colon + 1, hi, Margin::Space);
        let (a, b) = strip_span(chars, v0, v1, Margin::Quote);
        Some((a, b))
    } else {
        None
    }
}

/// Reads the path off the utility's decoded output.
pub fn path_from_text(text: &str) -> (path: Result<String, Error>)
    ensures
        path_view(path) == text_path(text@),
{
    let chars = chars_of(text);
    let n = chars.len();
    let mut start: usize = 0;
    assert(chars@.skip(0) == chars@);
    loop
        invariant
            start <= n == chars.len(),
            chars@ == text@,
            path_in(chars@) == path_in(chars@.skip(start as int)),
        decreases n - start,
    {
        let ghost rest = chars@.skip(start as int);
        let end = find(&chars, start, n, '\n');
        assert(rest.take(end - start) == chars@.subrange(start as int, end as int));
        match line_span(&chars, start, end) {
            Some((a, b)) => {
                return Ok(text.substring_char(a, b).to_owned());
            },
            None => {
                if end == n {
                    return Err(Error::NoFileInfo);
                }
                assert(rest.skip(end - start + 1) == chars@.skip(end + 1));
                start = end + 1;
            },
        }
    }
}

/// Reads the path off the utility's standard output: the value of the first
/// line whose key is `directory` or `file`.
pub fn path_from_output(stdout: Vec<u8>) -> (path: Result<String, Error>)
    ensures
        path_view(path) == output_path(stdout@),
{
    match text_from_utf8(stdout) {
        Some(text) => path_from_text(text.as_str()),
        None => Err(Error::Decode),
    }
}

/// What a run of the lookup resolves to: the reading of its standard
/// output, or the failure to start it with the system's error code.
pub open spec fn run_path(run: Result<Seq<u8>, Option<i32>>) -> Result<Seq<char>, Error> {
    match run {
        Ok(stdout) => output_path(stdout),
        Err(code) => Err(Error::Command(code)),
    }
}

/// A run's outcome, as plain values.
pub open spec fn run_view(run: Result<Vec<u8>, Option<i32>>) -> Result<Seq<u8>, Option<i32>> {
    match run {
        Ok(stdout) => Ok(stdout@),
        Err(code) => Err(code),
    }
}

/// Ends the resolution on the outcome of the lookup's run: the standard
/// output that was captured, or the error code, if any, with which the
/// system refused to start the lookup.
pub fn path_from_run(run: Result<Vec<u8>, Option<i32>>) -> (path: Result<String, Error>)
    ensures
        path_view(path) == run_path(run_view(run)),
{
    match run {
        Ok(stdout) => path_from_output(stdout),
        Err(code) => Err(Error::Command(code)),
    }
}

/// An identifier that is not of the Unix family is rejected as a caller's
/// error, and no lookup is named for it.
pub proof fn lemma_rejection_names_no_lookup(id: FileId)
    requires
        !(id is Inode),
    ensures
        lookup_for(id) == Err::<LookupView, Error>(Error::InvalidFileId),
        Error::InvalidFileId.spec_kind() == ErrorKind::UnsupportedIdentifier,
{
}

/// Output in which no line gives a path, as that for an identifier that no
/// longer maps to a live file, resolves to `NoFileInfo`, which is of the
/// not-found class; and output resolves to a path only where a line gives it.
pub proof fn lemma_no_file_info_is_not_found(stdout: Seq<u8>)
    requires
        valid_utf8(stdout),
    ensures
        path_in(decode_utf8(stdout)) is None ==> output_path(stdout) == Err::<Seq<char>, Error>(
            Error::NoFileInfo,
        ),
        output_path(stdout) is Ok ==> path_in(decode_utf8(stdout)) == Some(
            output_path(stdout)->Ok_0,
        ),
        Error::NoFileInfo.spec_kind() == ErrorKind::NotFound,
{
}

/// The lines of `text`: what stands between its line feeds.
pub open spec fn lines(text: Seq<char>) -> Seq<Seq<char>>
    decreases text.len(),
{
    let end = index_of(text, '\n');
    if end < text.len() {
        seq![text.take(end as int)] + lines(text.skip(end as int + 1))
    } else {
        seq![text]
    }
}

/// The path that the first of `lines` to give one gives.
pub open spec fn first_given(lines: Seq<Seq<char>>) -> Option<Seq<char>>
    decreases lines.len(),
{
    if lines.len() == 0 {
        None
    } else {
        match path_of_line(lines[0]) {
            Some(path) => Some(path),
            None => first_given(lines.drop_first()),
        }
    }
}

/// The output is read line by line, and the first line that gives a path
/// decides: later lines are not looked at.
pub proof fn lemma_first_line_decides(text: Seq<char>)
    ensures
        path_in(text) == first_given(lines(text)),
    decreases text.len(),
{
    reveal_with_fuel(first_given, 2);
    lemma_index_of_bound(text, '\n');
    let end = index_of(text, '\n') as int;
    if end < text.len() {
        let rest = text.skip(end + 1);
        lemma_first_line_decides(rest);
        assert(lines(text).drop_first() == lines(rest));
    } else {
        assert(text.take(end) == text);
        assert(lines(text).drop_first() == Seq::<Seq<char>>::empty());
    }
}

/// The path that a line gives has no quote at either end. White space
/// that stood within the quotes stays.
pub proof fn lemma_path_is_bare(line: Seq<char>)
    requires
        path_of_line(line) is Some,
    ensures
        ({
            let path = path_of_line(line)->0;
            path.len() > 0 ==> !in_margin(Margin::Quote, path[0]) && !in_margin(
                Margin::Quote,
                path.last(),
            )
        }),
{
    let value = strip(line.skip(index_of(line, ':') as int + 1), Margin::Space);
    lemma_stripped_front(value, Margin::Quote);
    lemma_stripped_back(strip_front(value, Margin::Quote), Margin::Quote);
}

} // verus!
