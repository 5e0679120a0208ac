//! Static files: which file a request names, whether it may see it, and how much of
//! it to send.
//!
//! Looking at the file system is left to the caller: it hands in whether the file
//! exists and is a directory, and the size and names it finds.

use vstd::prelude::*;
use vstd::string::StringSliceAdditionalSpecFns;

use crate::config::server::virtual_host::path::static_files::{StaticPathConfig, StaticPathSettings};
use crate::errors::{FileError, VetisError, VirtualHostError};
use crate::server::virtual_host::path::auth::basic_auth::{basic_auth_outcome, header_view};
use crate::server::virtual_host::path::auth::{Auth, AuthSettings};
use crate::text::{
    has_char, header_value_ok, is_header_value, join, join_path, parse_u64, parse_u64_spec,
    split_once_char, split_once_spec, strip_leading_slash, strip_slash,
};

verus! {

#[verifier::external_type_specification]
#[verifier::external_body]
pub struct ExRegex(regex::Regex);

/// Whether `pattern` is a regular expression that the `regex` crate compiles.
pub uninterp spec fn regex_compiles(pattern: Seq<char>) -> bool;

/// Whether the compiled `pattern` matches somewhere in `text`.
pub uninterp spec fn regex_finds(pattern: Seq<char>, text: Seq<char>) -> bool;

/// The MIME type that the `minimime` database gives for a file name, by its extension.
pub uninterp spec fn mime_type_of(file_name: Seq<char>) -> Option<Seq<char>>;

/// A compiled regular expression together with its source text.
pub struct Pattern {
    source: String,
    regex: regex::Regex,
}

impl Pattern {
    /// The text the expression was compiled from.
    pub closed spec fn source(self) -> Seq<char> {
        self.source@
    }
}

/// Compiles a regular expression.
///
/// Calls `regex::Regex::new`, which fails on a pattern it cannot compile.
#[verifier::external_body]
fn compile_pattern(pattern: &str) -> (res: Option<Pattern>)
    ensures
        res is Some <==> regex_compiles(pattern@),
        res is Some ==> res->Some_0.source() == pattern@,
{
    match regex::Regex::new(pattern) {
        Ok(regex) => Some(Pattern { source: pattern.to_owned(), regex }),
        Err(_) => None,
    }
}

/// Searches `text` for a match of a compiled expression.
///
/// Calls `regex::Regex::is_match`.
#[verifier::external_body]
fn pattern_matches(pattern: &Pattern, text: &str) -> (res: bool)
    ensures
        res == regex_finds(pattern.source(), text@),
{
    pattern.regex.is_match(text)
}

/// Looks up the MIME type of a file name.
///
/// Calls `minimime::lookup_by_filename`, which goes by the extension of the name and so
/// finds nothing for a name without a `.`.
#[verifier::external_body]
fn mime_content_type(file_name: &str) -> (res: Option<String>)
    ensures
        res is Some <==> mime_type_of(file_name@) is Some,
        res is Some ==> res->Some_0@ == mime_type_of(file_name@)->Some_0,
        !has_char(file_name@, '.') ==> res is None,
{
    match minimime::lookup_by_filename(file_name) {
        Some(info) => Some(info.content_type),
        None => None,
    }
}

/// What to send for a request to a static path.
#[derive(Clone, Copy, Debug, PartialEq, Eq, Structural)]
pub enum TargetKind {
    /// The file's contents
    File,
    /// The file's metadata only, for a `HEAD` request
    Metadata,
    /// The first index file found in a directory
    Index,
}

/// The file or directory a request to a static path is answered from, and how.
pub struct StaticTarget {
    pub kind: TargetKind,
    pub path: String,
}

/// How much of a file to send.
#[derive(Clone, Copy, Debug, PartialEq, Eq, Structural)]
pub enum RangePlan {
    /// The whole file
    Full,
    /// The file from the given offset on
    Partial(u64),
    /// Nothing: the range cannot be served
    NotSatisfiable,
}

/// The headers that describe a file in answer to a `HEAD` request.
pub struct MetadataHeaders {
    pub content_length: u64,
    pub last_modified: String,
    pub content_type: Option<String>,
}

/// `res` holds metadata headers with these values.
pub open spec fn has_headers(
    res: Result<MetadataHeaders, VetisError>,
    size: u64,
    last_modified: Seq<char>,
    content_type: Option<Seq<char>>,
) -> bool {
    &&& res is Ok
    &&& res->Ok_0.content_length == size
    &&& res->Ok_0.last_modified@ == last_modified
    &&& match res->Ok_0.content_type {
        Some(c) => content_type == Some(c@),
        None => content_type is None,
    }
}

/// The UTF-8 bytes of the text can all stand in a header value.
pub open spec fn text_header_value_ok(t: Seq<char>) -> bool {
    forall|i: int|
        0 <= i < vstd::utf8::encode_utf8(t).len() ==> #[trigger] crate::text::is_header_value_byte(
            vstd::utf8::encode_utf8(t)[i],
        )
}

/// The error of a file that cannot be found.
pub open spec fn is_not_found<T>(res: Result<T, VetisError>) -> bool {
    res matches Err(VetisError::VirtualHost(VirtualHostError::File(FileError::NotFound)))
}

/// The error of a range that cannot be understood.
pub open spec fn is_invalid_range<T>(res: Result<T, VetisError>) -> bool {
    res matches Err(VetisError::VirtualHost(VirtualHostError::File(FileError::InvalidRange)))
}

/// The error of metadata that cannot be turned into headers.
pub open spec fn is_invalid_metadata<T>(res: Result<T, VetisError>) -> bool {
    res matches Err(VetisError::VirtualHost(VirtualHostError::File(FileError::InvalidMetadata)))
}

/// The file a request target names: the target without its leading `/`, under the
/// directory of the path.
pub open spec fn file_of(settings: StaticPathSettings, uri: Seq<char>) -> Seq<char> {
    join_path(settings.directory, strip_leading_slash(uri))
}

/// What a request to a static path is answered from, given what the file system says
/// of the file it names; `None` when it is answered with "not found".
///
/// With index files configured, a missing file whose target does not match the
/// extension pattern is answered by the index of the directory, and a directory by its
/// own index. Without index files, a missing file is not found. A file is served
/// directly only when the extension pattern matches its target (a pattern that does
/// not compile restricts nothing); any other direct target is not found.
pub open spec fn target_of(
    settings: StaticPathSettings,
    uri: Seq<char>,
    exists: bool,
    is_dir: bool,
    is_head: bool,
) -> Option<(TargetKind, Seq<char>)> {
    let relative = strip_leading_slash(uri);
    let file = file_of(settings, uri);
    let direct = if regex_compiles(settings.extensions) && !regex_finds(
        settings.extensions,
        relative,
    ) {
        None
    } else if is_head {
        Some((TargetKind::Metadata, file))
    } else {
        Some((TargetKind::File, file))
    };
    if settings.index_files is Some {
        if !exists {
            if regex_compiles(settings.extensions) && !regex_finds(settings.extensions, relative) {
                Some((TargetKind::Index, settings.directory))
            } else {
                direct
            }
        } else if is_dir {
            Some((TargetKind::Index, file))
        } else {
            direct
        }
    } else if !exists {
        None
    } else {
        direct
    }
}

/// The position of the first index file that exists, by the flags given for them in
/// order; a file with no flag does not exist.
pub open spec fn first_existing(count: int, exists: Seq<bool>, i: int) -> bool {
    &&& 0 <= i < count
    &&& i < exists.len()
    &&& exists[i]
    &&& forall|j: int| 0 <= j < i ==> !(j < exists.len() && #[trigger] exists[j])
}

/// How much of a file of `size` bytes a `Range` header value asks for, or `None` when
/// it cannot be understood.
///
/// The value must read `bytes=<start>-<end>` with two numbers. A start past the end,
/// or not inside the file, cannot be served; a start before an end inside the file
/// sends the file from the start on; anything else sends the whole file.
pub open spec fn range_plan_of(range: Option<Seq<char>>, size: u64) -> Option<RangePlan> {
    match range {
        None => Some(RangePlan::Full),
        Some(r) => match split_once_spec(r, '=') {
            None => None,
            Some((unit, bounds)) => if unit != "bytes"@ {
                None
            } else {
                match split_once_spec(bounds, '-') {
                    None => None,
                    Some((a, b)) => match (parse_u64_spec(a), parse_u64_spec(b)) {
                        (Some(start), Some(end)) => if start > end || start >= size {
                            Some(RangePlan::NotSatisfiable)
                        } else if start < end && end < size {
                            Some(RangePlan::Partial(start))
                        } else {
                            Some(RangePlan::Full)
                        },
                        _ => None,
                    },
                }
            },
        },
    }
}

/// Whether a request passes the authentication of a path: it does when the path has
/// none, and otherwise only when authentication succeeds with `true`.
pub open spec fn access_granted(settings: StaticPathSettings, authorization: Option<Seq<u8>>) -> bool {
    match settings.auth {
        None => true,
        Some(AuthSettings::Basic(auth)) => basic_auth_outcome(auth, authorization) == Ok::<
            bool,
            Seq<char>,
        >(true),
    }
}

/// Decides a range request (see [`range_plan_of`]).
pub fn range_plan(range: Option<&str>, size: u64) -> (res: Result<RangePlan, VetisError>)
    ensures
        match range_plan_of(
            match range {
                Some(r) => Some(r@),
                None => None,
            },
            size,
        ) {
            Some(plan) => res == Ok::<RangePlan, VetisError>(plan),
            None => is_invalid_range(res),
        },
{
    let r = match range {
        None => {
            return Ok(RangePlan::Full);
        },
        Some(r) => r,
    };
    let invalid = VetisError::VirtualHost(VirtualHostError::File(FileError::InvalidRange));
    let (unit, bounds) = match split_once_char(r, '=') {
        Some(parts) => parts,
        None => {
            return Err(invalid);
        },
    };
    if unit != "bytes".to_owned() {
        return Err(invalid);
    }
    let (a, b) = match split_once_char(bounds.as_str(), '-') {
        Some(parts) => parts,
        None => {
            return Err(invalid);
        },
    };
    let start = match parse_u64(a.as_str()) {
        Some(v) => v,
        None => {
            return Err(invalid);
        },
    };
    let end = match parse_u64(b.as_str()) {
        Some(v) => v,
        None => {
            return Err(invalid);
        },
    };
    if start > end || start >= size {
        Ok(RangePlan::NotSatisfiable)
    } else if start < end && end < size {
        Ok(RangePlan::Partial(start))
    } else {
        Ok(RangePlan::Full)
    }
}

/// Gathers the headers that describe a file: its length, its modification date as
/// text, and its content type when the name has a known extension.
///
/// `file_name` is the last component of the file's path when it has one that is
/// UTF-8 text. It fails with invalid metadata when the date cannot be a header value,
/// the file has no such name, or the content type cannot be a header value.
pub fn metadata_headers(file_name: Option<&str>, size: u64, last_modified: &str) -> (res: Result<
    MetadataHeaders,
    VetisError,
>)
    ensures
        !header_value_ok(last_modified) ==> is_invalid_metadata(res),
        header_value_ok(last_modified) && file_name is None ==> is_invalid_metadata(res),
        header_value_ok(last_modified) && file_name is Some ==> ({
            let name = file_name->Some_0@;
            match mime_type_of(name) {
                None => has_headers(res, size, last_modified@, None),
                Some(t) => if text_header_value_ok(t) {
                    has_headers(res, size, last_modified@, Some(t))
                } else {
                    is_invalid_metadata(res)
                },
            }
        }),
{
    let invalid = VetisError::VirtualHost(VirtualHostError::File(FileError::InvalidMetadata));
    if !is_header_value(last_modified) {
        return Err(invalid);
    }
    let name = match file_name {
        Some(n) => n,
        None => {
            return Err(invalid);
        },
    };
    let content_type = match mime_content_type(name) {
        Some(t) => {
            let ts = t.as_str();
            let ok = is_header_value(ts);
            proof {
                assert(ts.spec_bytes() == vstd::utf8::encode_utf8(t@));
                assert(ok == text_header_value_ok(t@));
            }
            if !ok {
                return Err(invalid);
            }
            Some(t)
        },
        None => None,
    };
    Ok(MetadataHeaders { content_length: size, last_modified: last_modified.to_owned(), content_type })
}

/// A path that serves the files under a directory.
pub struct StaticPath {
    config: StaticPathConfig,
}

impl StaticPath {
    /// Creates a static path with the given configuration.
    pub fn new(config: StaticPathConfig) -> (res: StaticPath)
        ensures
            res.settings() == config@,
    {
        StaticPath { config }
    }

    /// The configuration of this path.
    pub closed spec fn settings(self) -> StaticPathSettings {
        self.config@
    }

    /// Returns the configuration.
    pub fn config(&self) -> (res: &StaticPathConfig)
        ensures
            res@ == self.settings(),
    {
        &self.config
    }

    /// Returns the URI prefix this path is served under.
    pub fn uri(&self) -> (res: &str)
        ensures
            res@ == self.settings().uri,
    {
        self.config.uri()
    }

    /// Checks the authentication of the path against a request's `Authorization`
    /// header value; a refused or failed authentication is "Unauthorized".
    pub fn authorize(&self, authorization: Option<&[u8]>) -> (res: Result<(), VetisError>)
        ensures
            access_granted(self.settings(), header_view(authorization)) ==> res is Ok,
            !access_granted(self.settings(), header_view(authorization)) ==> (res matches Err(
                VetisError::VirtualHost(VirtualHostError::Auth(m)),
            ) && m@ == "Unauthorized"@),
    {
        match self.config.auth() {
            None => Ok(()),
            Some(auth) => {
                let granted = match auth.authenticate(authorization) {
                    Ok(b) => b,
                    Err(_) => false,
                };
                if granted {
                    Ok(())
                } else {
                    Err(VetisError::VirtualHost(VirtualHostError::Auth("Unauthorized".to_owned())))
                }
            },
        }
    }

    /// The file a request target names (see [`file_of`]).
    pub fn file_path(&self, uri: &str) -> (res: String)
        ensures
            res@ == file_of(self.settings(), uri@),
    {
        join(self.config.directory(), strip_slash(uri))
    }

    /// Whether the extension pattern of the path matches `text`; `None` when the
    /// pattern does not compile.
    pub fn extension_matches(&self, text: &str) -> (res: Option<bool>)
        ensures
            res is Some <==> regex_compiles(self.settings().extensions),
            res is Some ==> res->Some_0 == regex_finds(self.settings().extensions, text@),
    {
        match compile_pattern(self.config.extensions()) {
            Some(pattern) => Some(pattern_matches(&pattern, text)),
            None => None,
        }
    }

    /// Decides what a request to this path is answered from (see [`target_of`]),
    /// given whether the file it names exists and is a directory.
    pub fn resolve(&self, uri: &str, exists: bool, is_dir: bool, is_head: bool) -> (res: Result<
        StaticTarget,
        VetisError,
    >)
        ensures
            match target_of(self.settings(), uri@, exists, is_dir, is_head) {
                Some((kind, path)) => res matches Ok(t) && t.kind == kind && t.path@ == path,
                None => is_not_found(res),
            },
    {
        let relative = strip_slash(uri);
        let file = self.file_path(uri);
        let matches = self.extension_matches(relative);
        if self.config.index_files().is_some() {
            if !exists {
                match matches {
                    Some(false) => {
                        return Ok(
                            StaticTarget {
                                kind: TargetKind::Index,
                                path: self.config.directory().to_owned(),
                            },
                        );
                    },
                    _ => {},
                }
            } else if is_dir {
                return Ok(StaticTarget { kind: TargetKind::Index, path: file });
            }
        } else if !exists {
            return Err(VetisError::VirtualHost(VirtualHostError::File(FileError::NotFound)));
        }
        match matches {
            Some(false) => {
                return Err(VetisError::VirtualHost(VirtualHostError::File(FileError::NotFound)));
            },
            _ => {},
        }
        if is_head {
            Ok(StaticTarget { kind: TargetKind::Metadata, path: file })
        } else {
            Ok(StaticTarget { kind: TargetKind::File, path: file })
        }
    }

    /// The index files of the path under `directory`, in order.
    pub fn index_candidates(&self, directory: &str) -> (res: Vec<String>)
        ensures
            match self.settings().index_files {
                Some(files) => res@.len() == files.len() && forall|i: int|
                    0 <= i < files.len() ==> #[trigger] res@[i]@ == join_path(directory@, files[i]),
                None => res@.len() == 0,
            },
    {
        let mut out: Vec<String> = Vec::new();
        match self.config.index_files() {
            Some(files) => {
                let mut i: usize = 0;
                while i < files.len()
                    invariant
                        i <= files@.len(),
                        out@.len() == i,
                        self.settings().index_files == Some(
                            files@.map_values(|s: String| s@),
                        ),
                        forall|j: int|
                            0 <= j < i ==> #[trigger] out@[j]@ == join_path(
                                directory@,
                                files@[j]@,
                            ),
                    decreases files@.len() - i,
                {
                    out.push(join(directory, files[i].as_str()));
                    i = i + 1;
                }
            },
            None => {},
        }
        out
    }

    /// Picks the index file to serve from `directory`: the first that exists, by the
    /// flags given for the index files in order. No such file is "not found".
    pub fn pick_index(&self, directory: &str, exists: &Vec<bool>) -> (res: Result<String, VetisError>)
        ensures
            match self.settings().index_files {
                Some(files) => match res {
                    Ok(p) => exists|i: int|
                        #[trigger] first_existing(files.len() as int, exists@, i) && p@ == join_path(
                            directory@,
                            files[i],
                        ),
                    Err(_) => is_not_found(res) && forall|i: int|
                        !#[trigger] first_existing(files.len() as int, exists@, i),
                },
                None => is_not_found(res),
            },
    {
        match self.config.index_files() {
            Some(files) => {
                let mut i: usize = 0;
                while i < files.len()
                    invariant
                        i <= files@.len(),
                        self.settings().index_files == Some(
                            files@.map_values(|s: String| s@),
                        ),
                        forall|j: int| 0 <= j < i ==> !(j < exists@.len() && #[trigger] exists@[j]),
                    decreases files@.len() - i,
                {
                    if i < exists.len() && exists[i] {
                        let p = join(directory, files[i].as_str());
                        proof {
                            assert(first_existing(files@.len() as int, exists@, i as int));
                            let fs = self.settings().index_files->Some_0;
                            assert(fs[i as int] == files@[i as int]@);
                            assert(first_existing(fs.len() as int, exists@, i as int) && p@ == join_path(directory@, fs[i as int]));
                        }
                        return Ok(p);
                    }
                    i = i + 1;
                }
                Err(VetisError::VirtualHost(VirtualHostError::File(FileError::NotFound)))
            },
            None => Err(VetisError::VirtualHost(VirtualHostError::File(FileError::NotFound))),
        }
    }
}


/// A range that is served in part starts inside the file, and one that ends before it
/// starts is never served in part.
pub proof fn law_partial_range_inside_file(range: Seq<char>, size: u64)
    ensures
        range_plan_of(Some(range), size) matches Some(RangePlan::Partial(start)) ==> start < size,
        range_plan_of(None, size) == Some(RangePlan::Full),
{
}

/// A request target whose rest, after one leading `/`, is relative names a path that
/// begins with the text of the directory of the path. This is a textual prefix only:
/// `..` segments in the target are kept and may still lead out of the directory.
pub proof fn law_target_starts_with_directory(settings: StaticPathSettings, uri: Seq<char>)
    requires
        !(strip_leading_slash(uri).len() > 0 && strip_leading_slash(uri)[0] == '/'),
    ensures
        crate::server::virtual_host::is_prefix(settings.directory, file_of(settings, uri)),
{
    let d = settings.directory;
    let f = file_of(settings, uri);
    assert(f.take(d.len() as int) =~= d);
}


/// What is sent for a file, once the range is decided and, for a part of the file,
/// once seeking to its start has been tried.
#[derive(Clone, Copy, Debug, PartialEq, Eq, Structural)]
pub enum FileAnswer {
    /// Status 416 with an empty body
    NotSatisfiable,
    /// Status 206 with the file from the given offset on
    PartialFrom(u64),
    /// Status 200 with the whole file, `Accept-Ranges: bytes` and the given
    /// `Content-Length`
    Whole(u64),
}

/// The status code of an answer for a file.
pub open spec fn answer_status(answer: FileAnswer) -> u16 {
    match answer {
        FileAnswer::NotSatisfiable => 416,
        FileAnswer::PartialFrom(_) => 206,
        FileAnswer::Whole(_) => 200,
    }
}

/// What is sent for a file of `size` bytes under a range plan: a part is sent only
/// when seeking to its start worked, and the whole file otherwise.
pub open spec fn file_answer_of(plan: RangePlan, size: u64, seek_ok: bool) -> FileAnswer {
    match plan {
        RangePlan::NotSatisfiable => FileAnswer::NotSatisfiable,
        RangePlan::Partial(start) => if seek_ok {
            FileAnswer::PartialFrom(start)
        } else {
            FileAnswer::Whole(size)
        },
        RangePlan::Full => FileAnswer::Whole(size),
    }
}

/// Decides what is sent for a file (see [`file_answer_of`]).
pub fn file_answer(plan: RangePlan, size: u64, seek_ok: bool) -> (res: FileAnswer)
    ensures
        res == file_answer_of(plan, size, seek_ok),
{
    match plan {
        RangePlan::NotSatisfiable => FileAnswer::NotSatisfiable,
        RangePlan::Partial(start) => if seek_ok {
            FileAnswer::PartialFrom(start)
        } else {
            FileAnswer::Whole(size)
        },
        RangePlan::Full => FileAnswer::Whole(size),
    }
}

impl FileAnswer {
    /// The status code of the answer.
    pub fn status(&self) -> (res: u16)
        ensures
            res == answer_status(*self),
    {
        match self {
            FileAnswer::NotSatisfiable => 416,
            FileAnswer::PartialFrom(_) => 206,
            FileAnswer::Whole(_) => 200,
        }
    }
}

/// Serving a file of `size` bytes with a `Range` header value: a range that starts
/// past its end or outside the file gets 416 with an empty body; a range with its start
/// before its end, and its end inside the file, gets 206 from the start (when seeking
/// there works); any other readable range gets 200 with the whole file and its length;
/// a range that cannot be read is refused as invalid.
pub proof fn law_serving_a_range(range: Seq<char>, size: u64, seek_ok: bool)
    ensures
        match range_plan_of(Some(range), size) {
            Some(plan) => {
                let a = file_answer_of(plan, size, seek_ok);
                &&& (plan == RangePlan::NotSatisfiable ==> answer_status(a) == 416)
                &&& (plan matches RangePlan::Partial(start) ==> (start < size && (seek_ok ==> a
                    == FileAnswer::PartialFrom(start) && answer_status(a) == 206)))
                &&& (plan == RangePlan::Full ==> a == FileAnswer::Whole(size) && answer_status(a)
                    == 200)
            },
            None => true,
        },
{
}


/// A file whose target does not match a compiling extension pattern is never served
/// as a file or described: the request is not found, or answered by an index.
pub proof fn law_unmatched_extension_not_served(
    settings: StaticPathSettings,
    uri: Seq<char>,
    exists: bool,
    is_dir: bool,
    is_head: bool,
)
    requires
        regex_compiles(settings.extensions),
        !regex_finds(settings.extensions, strip_leading_slash(uri)),
    ensures
        match target_of(settings, uri, exists, is_dir, is_head) {
            Some((kind, _)) => kind == TargetKind::Index,
            None => true,
        },
{
}


/// A `Range` header `bytes=<a>-<b>` with decimal numerals `a` and `b`, of values
/// `start` and `end`, on a file of `size` bytes: a range inside the file, with its start
/// before its end, is served in part from its start, whatever the start; a range that
/// starts past its end or at or after the end of the file cannot be served; any other
/// is served whole.
pub proof fn law_byte_range(a: Seq<char>, b: Seq<char>, size: u64)
    requires
        a.len() > 0,
        b.len() > 0,
        forall|i: int| 0 <= i < a.len() ==> crate::text::is_digit(#[trigger] a[i]),
        forall|i: int| 0 <= i < b.len() ==> crate::text::is_digit(#[trigger] b[i]),
        crate::text::digits_value(a) <= u64::MAX,
        crate::text::digits_value(b) <= u64::MAX,
    ensures
        ({
            let start = crate::text::digits_value(a);
            let end = crate::text::digits_value(b);
            let plan = range_plan_of(Some("bytes"@ + seq!['='] + a + seq!['-'] + b), size);
            &&& (start < end && end < size ==> plan == Some(RangePlan::Partial(start as u64)))
            &&& (start > end || start >= size ==> plan == Some(RangePlan::NotSatisfiable))
            &&& (start <= end && start < size && !(start < end && end < size) ==> plan == Some(
                RangePlan::Full,
            ))
        }),
{
    reveal_strlit("bytes");
    let unit = "bytes"@;
    assert(unit.len() == 5);
    assert(!crate::text::has_char(unit, '=')) by {
        if crate::text::has_char(unit, '=') {
            let i = choose|i: int| 0 <= i < unit.len() && unit[i] == '=';
            assert(unit =~= seq!['b', 'y', 't', 'e', 's']);
        }
    }
    let bounds = a + seq!['-'] + b;
    assert(unit + seq!['='] + a + seq!['-'] + b =~= unit + seq!['='] + bounds);
    crate::text::lemma_split_once_at_separator(unit, '=', bounds);
    crate::text::lemma_numeral(a, '-');
    crate::text::lemma_numeral(b, '-');
    crate::text::lemma_split_once_at_separator(a, '-', b);
}


/// A request answered from the file it names is answered with the file's headers
/// only for `HEAD`, and with the file itself otherwise, whether or not index files are
/// configured; and an existing file that is no directory and matches the extension
/// pattern is always answered from that file.
pub proof fn law_direct_target_follows_method(
    settings: StaticPathSettings,
    uri: Seq<char>,
    exists: bool,
    is_dir: bool,
    is_head: bool,
)
    ensures
        target_of(settings, uri, exists, is_dir, is_head) matches Some((kind, path))
            ==> kind == TargetKind::Index || (path == join_path(
            settings.directory,
            strip_leading_slash(uri),
        ) && (kind == TargetKind::Metadata <==> is_head) && (kind == TargetKind::File
            <==> !is_head)),
        exists && !is_dir && !(regex_compiles(settings.extensions) && !regex_finds(
            settings.extensions,
            strip_leading_slash(uri),
        )) ==> target_of(settings, uri, exists, is_dir, is_head) == Some(
            (
                if is_head {
                    TargetKind::Metadata
                } else {
                    TargetKind::File
                },
                join_path(settings.directory, strip_leading_slash(uri)),
            ),
        ),
{
}

} // verus!
