//! File naming conventions: gold companions of compared and benchmarked
//! files, result filenames per command, and media names. Path components are
//! read and joined with `std::path::Path`.

use vstd::prelude::*;
use vstd::string::*;
use crate::commands::{ReleasedCommand, CommandOutputPathKind, OutputExtension, command_spec, released_command_descriptor};
use crate::error::ServerError;

verus! {

/// `Path::new(p).file_name()`, as text.
pub uninterp spec fn path_file_name(p: Seq<char>) -> Option<Seq<char>>;

/// `Path::new(p).parent()`, as text.
pub uninterp spec fn path_parent(p: Seq<char>) -> Option<Seq<char>>;

/// `Path::new(p).with_extension(ext)`, as text.
pub uninterp spec fn path_with_extension(p: Seq<char>, ext: Seq<char>) -> Seq<char>;

pub open spec fn opt_view(o: Option<String>) -> Option<Seq<char>> {
    match o {
        Some(s) => Some(s@),
        None => None,
    }
}

/// `std::path::Path::file_name`: the final normal component of the path, if
/// any. Only its name is stated.
#[verifier::external_body]
fn std_file_name(p: &str) -> (r: Option<String>)
    ensures
        opt_view(r) == path_file_name(p@),
{
    std::path::Path::new(p).file_name().map(|n| n.to_string_lossy().into_owned())
}

/// `std::path::Path::parent`: the path without its final component, if it
/// has one.
#[verifier::external_body]
fn std_parent(p: &str) -> (r: Option<String>)
    ensures
        opt_view(r) == path_parent(p@),
{
    std::path::Path::new(p).parent().map(|n| n.to_string_lossy().into_owned())
}

/// Whether `s` holds a path separator (`/`, or `\\` where that separates).
pub open spec fn has_path_separator(s: Seq<char>) -> bool {
    s.contains('/') || s.contains('\\')
}

/// `std::path::Path::with_extension`: the path with the extension of its
/// file name replaced (or added). std panics when the extension holds a path
/// separator, so such an extension is refused here.
#[verifier::external_body]
fn std_with_extension(p: &str, ext: &str) -> (r: String)
    requires
        !has_path_separator(ext@),
    ensures
        r@ == path_with_extension(p@, ext@),
{
    std::path::Path::new(p).with_extension(ext).to_string_lossy().into_owned()
}

/// Position of the last `.` in `s`, if any.
pub open spec fn last_dot(s: Seq<char>) -> Option<int>
    decreases s.len(),
{
    if s.len() == 0 {
        None
    } else if s.last() == '.' {
        Some(s.len() - 1)
    } else {
        last_dot(s.drop_last())
    }
}

/// The stem of a file name: the part before the final `.`, or the whole
/// name when it has no `.` or its only `.` leads it.
pub open spec fn name_stem(name: Seq<char>) -> Seq<char> {
    match last_dot(name) {
        Some(k) => if k == 0 { name } else { name.take(k) },
        None => name,
    }
}

/// The stem of a path's file name, if it has one.
pub open spec fn path_file_stem(p: Seq<char>) -> Option<Seq<char>> {
    match path_file_name(p) {
        Some(n) => Some(name_stem(n)),
        None => None,
    }
}

/// `std::path::Path::file_stem`: as its documentation states, `None` when
/// there is no file name, the whole name when it has no embedded `.` or
/// begins with its only `.`, and otherwise the part before the final `.`.
#[verifier::external_body]
pub(crate) fn std_file_stem(p: &str) -> (r: Option<String>)
    ensures
        opt_view(r) == path_file_stem(p@),
{
    std::path::Path::new(p).file_stem().map(|n| n.to_string_lossy().into_owned())
}

/// The extension of a file name: the part after the final `.`, none when
/// it has no `.` or its only `.` leads it.
pub open spec fn name_extension(name: Seq<char>) -> Option<Seq<char>> {
    match last_dot(name) {
        Some(k) => if k == 0 { None } else { Some(name.skip(k + 1)) },
        None => None,
    }
}

/// The extension of a path's file name, if it has one.
pub open spec fn path_extension(p: Seq<char>) -> Option<Seq<char>> {
    match path_file_name(p) {
        Some(n) => name_extension(n),
        None => None,
    }
}

/// `std::path::Path::extension`: as its documentation states, `None` when
/// there is no file name, when the name has no embedded `.`, or when it
/// begins with its only `.`; otherwise the part after the final `.`.
#[verifier::external_body]
pub(crate) fn std_extension(p: &str) -> (r: Option<String>)
    ensures
        opt_view(r) == path_extension(p@),
{
    std::path::Path::new(p).extension().map(|n| n.to_string_lossy().into_owned())
}

/// `Path::new(base).join(name)`, as text.
pub uninterp spec fn path_join(base: Seq<char>, name: Seq<char>) -> Seq<char>;

/// `name` is one plain path component: not empty, not `.` or `..`, and free
/// of separators and of `:` (which opens a drive prefix on Windows).
pub open spec fn single_component(name: Seq<char>) -> bool {
    &&& name.len() > 0
    &&& name != "."@
    &&& name != ".."@
    &&& !name.contains('/')
    &&& !name.contains('\\')
    &&& !name.contains(':')
}

/// `std::path::Path::join`: `name` pushed onto `base`. The result is named;
/// beyond that, as std documents, pushing a relative path extends the
/// existing one, so when `name` is a single plain component it is the final
/// component, the file name, of the result.
#[verifier::external_body]
pub(crate) fn std_join(base: &str, name: &str) -> (r: String)
    ensures
        r@ == path_join(base@, name@),
        single_component(name@) ==> path_file_name(r@) == Some(name@),
{
    std::path::Path::new(base).join(name).to_string_lossy().into_owned()
}

/// The file name of a main CHAT file's gold companion: its stem followed by
/// `.gold.cha`.
pub open spec fn spec_gold_name_for(main_path: Seq<char>) -> Seq<char> {
    let stem = match path_file_stem(main_path) { Some(s) => s, None => Seq::empty() };
    stem + ".gold.cha"@
}

/// The gold companion of a main CHAT file: `FILE.cha` becomes
/// `FILE.gold.cha` in the same directory.
pub open spec fn spec_gold_path_for(main_path: Seq<char>) -> Seq<char> {
    let parent = match path_parent(main_path) { Some(p) => p, None => Seq::empty() };
    path_join(parent, spec_gold_name_for(main_path))
}

pub fn gold_path_for(main_path: &str) -> (r: String)
    ensures
        r@ == spec_gold_path_for(main_path@),
        single_component(spec_gold_name_for(main_path@)) ==> path_file_name(r@) == Some(spec_gold_name_for(main_path@)),
{
    let mut name = match std_file_stem(main_path) {
        Some(s) => s,
        None => String::new(),
    };
    name.append(".gold.cha");
    let parent = match std_parent(main_path) {
        Some(p) => p,
        None => String::new(),
    };
    std_join(parent.as_str(), name.as_str())
}

/// Whether `s` ends with `suffix`.
pub open spec fn ends_with(s: Seq<char>, suffix: Seq<char>) -> bool {
    s.len() >= suffix.len() && s.skip(s.len() - suffix.len()) == suffix
}

pub(crate) fn str_ends_with(s: &str, suffix: &str) -> (r: bool)
    ensures
        r == ends_with(s@, suffix@),
{
    let n = s.unicode_len();
    let m = suffix.unicode_len();
    if n < m {
        return false;
    }
    let mut i: usize = 0;
    while i < m
        invariant
            n == s@.len(),
            m == suffix@.len(),
            m <= n,
            i <= m,
            forall|k: int| 0 <= k < i ==> s@[n - m + k] == suffix@[k],
        decreases m - i,
    {
        if s.get_char(n - m + i) != suffix.get_char(i) {
            assert(s@.skip(n - m)[i as int] != suffix@[i as int]);
            return false;
        }
        i = i + 1;
    }
    assert(s@.skip(n - m) =~= suffix@);
    true
}

/// Gold reference files end with `.gold.cha`.
pub fn is_gold_file(filename: &str) -> (r: bool)
    ensures
        r == ends_with(filename@, ".gold.cha"@),
{
    str_ends_with(filename, ".gold.cha")
}

/// The gold CHAT companion of an audio file: `dir/sample.wav` becomes
/// `dir/sample.cha`.
pub open spec fn spec_gold_chat_path_for_audio(audio_path: Seq<char>) -> Seq<char> {
    let stem = match path_file_stem(audio_path) { Some(s) => s, None => Seq::empty() };
    let parent = match path_parent(audio_path) { Some(p) => p, None => Seq::empty() };
    path_join(parent, stem + ".cha"@)
}

pub fn gold_chat_path_for_audio(audio_path: &str) -> (r: String)
    ensures
        r@ == spec_gold_chat_path_for_audio(audio_path@),
{
    let mut name = match std_file_stem(audio_path) {
        Some(s) => s,
        None => String::new(),
    };
    name.append(".cha");
    let parent = match std_parent(audio_path) {
        Some(p) => p,
        None => String::new(),
    };
    std_join(parent.as_str(), name.as_str())
}

/// The message for a paths-mode source without a file name.
pub open spec fn no_filename_message(source_path: Seq<char>) -> Seq<char> {
    "paths_mode source path has no filename component: "@ + source_path
}

/// The display filename of a paths-mode source: its final component, or a
/// validation error when it has none.
pub fn path_mode_filename_from_source(source_path: &str) -> (r: Result<String, ServerError>)
    ensures
        match path_file_name(source_path@) {
            Some(n) if n.len() > 0 => r matches Ok(f) && f@ == n,
            _ => r matches Err(ServerError::Validation(m)) && m@ == no_filename_message(source_path@),
        },
{
    match std_file_name(source_path) {
        Some(n) => {
            if n.as_str().unicode_len() == 0 {
                let mut m = String::from_str("paths_mode source path has no filename component: ");
                m.append(source_path);
                Err(ServerError::Validation(m))
            } else {
                Ok(n)
            }
        },
        None => {
            let mut m = String::from_str("paths_mode source path has no filename component: ");
            m.append(source_path);
            Err(ServerError::Validation(m))
        },
    }
}

/// The media name written into a transcript: the original file's stem, else
/// the converted file's.
pub open spec fn spec_transcribe_media_name(original: Seq<char>, converted: Seq<char>) -> Option<Seq<char>> {
    if path_file_name(original) is Some {
        path_file_stem(original)
    } else {
        path_file_stem(converted)
    }
}

pub fn transcribe_media_name_for_chat(original_audio_path: &str, converted_audio_path: &str) -> (r: Option<String>)
    ensures
        opt_view(r) == spec_transcribe_media_name(original_audio_path@, converted_audio_path@),
{
    match std_file_stem(original_audio_path) {
        Some(s) => Some(s),
        None => match std_file_name(original_audio_path) {
            Some(n) => Some(n),
            None => match std_file_stem(converted_audio_path) {
                Some(s) => Some(s),
                None => std_file_name(converted_audio_path),
            },
        },
    }
}

/// The original audio of a benchmark file: its recorded source path when
/// there is one at `file_index`, else `source_dir` joined with the name.
pub fn resolve_benchmark_original_audio_path(
    source_paths: &Vec<String>,
    source_dir: &str,
    file_index: usize,
    filename: &str,
) -> (r: String)
    ensures
        r@ == if file_index < source_paths@.len() { source_paths@[file_index as int]@ } else { path_join(source_dir@, filename@) },
{
    if file_index < source_paths.len() {
        source_paths[file_index].clone()
    } else {
        std_join(source_dir, filename)
    }
}

pub open spec fn extension_text(e: OutputExtension) -> Seq<char> {
    match e {
        OutputExtension::Cha => "cha"@,
        OutputExtension::Csv => "csv"@,
    }
}

/// The primary output filename of a command for one input filename.
pub open spec fn spec_result_filename(command: ReleasedCommand, filename: Seq<char>) -> Seq<char> {
    match command_spec(command).descriptor.output_path_kind {
        CommandOutputPathKind::PreserveInputName => filename,
        CommandOutputPathKind::ReplaceExtension(e) => path_with_extension(filename, extension_text(e)),
    }
}

pub fn result_filename_for_command(command: ReleasedCommand, filename: &str) -> (r: String)
    ensures
        r@ == spec_result_filename(command, filename@),
{
    match released_command_descriptor(command).output_path_kind {
        CommandOutputPathKind::PreserveInputName => String::from_str(filename),
        CommandOutputPathKind::ReplaceExtension(OutputExtension::Cha) => {
            proof { reveal_strlit("cha"); }
            std_with_extension(filename, "cha")
        },
        CommandOutputPathKind::ReplaceExtension(OutputExtension::Csv) => {
            proof { reveal_strlit("csv"); }
            std_with_extension(filename, "csv")
        },
    }
}

/// Where a job reads one of its inputs: the client's own source path in
/// paths mode (when one is recorded at that index), else the staged copy
/// under `staging_dir/input`.
pub open spec fn spec_input_path(paths_mode: bool, source_paths: Seq<String>, file_index: int, staging_dir: Seq<char>, filename: Seq<char>) -> Seq<char> {
    if paths_mode && file_index < source_paths.len() {
        source_paths[file_index]@
    } else {
        path_join(path_join(staging_dir, "input"@), filename)
    }
}

pub fn input_path_for_file(paths_mode: bool, source_paths: &Vec<String>, file_index: usize, staging_dir: &str, filename: &str) -> (r: String)
    ensures
        r@ == spec_input_path(paths_mode, source_paths@, file_index as int, staging_dir@, filename@),
{
    if paths_mode && file_index < source_paths.len() {
        source_paths[file_index].clone()
    } else {
        let input = std_join(staging_dir, "input");
        std_join(input.as_str(), filename)
    }
}

/// The earlier version of one input, when the job recorded one at its index.
pub fn before_path_for(before_paths: &Vec<String>, file_index: usize) -> (r: Option<String>)
    ensures
        r == (if file_index < before_paths@.len() { Some(before_paths@[file_index as int]) } else { None::<String> }),
{
    if file_index < before_paths.len() {
        Some(before_paths[file_index].clone())
    } else {
        None
    }
}

/// The CHAT output name of a transcribed media file: its file name with the
/// extension replaced by `cha` (empty when it has no file name).
pub open spec fn spec_transcript_filename(filename: Seq<char>) -> Seq<char> {
    match path_file_name(path_with_extension(filename, "cha"@)) {
        Some(n) => n,
        None => Seq::empty(),
    }
}

pub fn transcript_filename(filename: &str) -> (r: String)
    ensures
        r@ == spec_transcript_filename(filename@),
{
    proof { reveal_strlit("cha"); }
    let with_ext = std_with_extension(filename, "cha");
    match std_file_name(with_ext.as_str()) {
        Some(n) => n,
        None => String::new(),
    }
}

/// `staging_dir/output/name`.
pub fn staged_output_path(staging_dir: &str, output_filename: &str) -> (r: String)
    ensures
        r@ == path_join(path_join(staging_dir@, "output"@), output_filename@),
{
    let output = std_join(staging_dir, "output");
    std_join(output.as_str(), output_filename)
}

/// Extensions tried, in order, when looking for a transcript's media.
pub open spec fn media_extensions() -> Seq<Seq<char>> {
    seq!["wav"@, "mp3"@, "mp4"@, "m4a"@, "flac"@, "ogg"@, "aac"@, "wma"@, "webm"@]
}

fn media_extension(i: usize) -> (r: &'static str)
    requires
        i < 9,
    ensures
        r@ == media_extensions()[i as int],
{
    if i == 0 { "wav" } else if i == 1 { "mp3" } else if i == 2 { "mp4" } else if i == 3 { "m4a" }
    else if i == 4 { "flac" } else if i == 5 { "ogg" } else if i == 6 { "aac" } else if i == 7 { "wma" } else { "webm" }
}

/// `dir/stem.EXT` for each known media extension, in order.
pub open spec fn media_candidates_in(dir: Seq<char>, stem: Seq<char>) -> Seq<Seq<char>> {
    media_extensions().map_values(|ext: Seq<char>| path_join(dir, stem + "."@ + ext))
}

pub fn media_candidates(dir: &str, stem: &str) -> (r: Vec<String>)
    ensures
        r@.map_values(|x: String| x@) == media_candidates_in(dir@, stem@),
{
    let mut out: Vec<String> = Vec::new();
    let mut i: usize = 0;
    while i < 9
        invariant
            i <= 9,
            out@.map_values(|x: String| x@) == media_candidates_in(dir@, stem@).take(i as int),
        decreases 9 - i,
    {
        let mut name = String::from_str(stem);
        name.append(".");
        name.append(media_extension(i));
        let c = std_join(dir, name.as_str());
        assert(name@ =~= stem@ + "."@ + media_extensions()[i as int]);
        assert(media_candidates_in(dir@, stem@)[i as int] == c@);
        let ghost before = out@;
        out.push(c);
        assert(out@.map_values(|x: String| x@) =~= before.map_values(|x: String| x@).push(c@));
        assert(media_candidates_in(dir@, stem@).take(i + 1) =~= media_candidates_in(dir@, stem@).take(i as int).push(c@));
        i = i + 1;
    }
    assert(media_candidates_in(dir@, stem@).take(9) =~= media_candidates_in(dir@, stem@));
    out
}

/// The directory searched under a media mapping root: the mapping's
/// subdirectory joined with the transcript's own directory.
pub open spec fn spec_mapping_subdir(media_subdir: Seq<char>, file_parent: Seq<char>) -> Seq<char> {
    if file_parent.len() == 0 {
        media_subdir
    } else if media_subdir.len() == 0 {
        file_parent
    } else {
        media_subdir + "/"@ + file_parent
    }
}

/// The media files a mapped transcript may use: under
/// `root/SUBDIR`, its stem with each known media extension.
pub open spec fn spec_mapping_candidates(root: Seq<char>, filename: Seq<char>, media_subdir: Seq<char>) -> Seq<Seq<char>> {
    let stem = match path_file_stem(filename) { Some(s) => s, None => Seq::empty() };
    let parent = match path_parent(filename) { Some(p) => p, None => Seq::empty() };
    media_candidates_in(path_join(root, spec_mapping_subdir(media_subdir, parent)), stem)
}

/// A path's parent directory, or empty when it has none.
pub open spec fn parent_or_empty(p: Seq<char>) -> Seq<char> {
    match path_parent(p) { Some(d) => d, None => Seq::empty() }
}

/// A path's file stem, or empty when it has none.
pub open spec fn stem_or_empty(p: Seq<char>) -> Seq<char> {
    match path_file_stem(p) { Some(s) => s, None => Seq::empty() }
}

/// Where a mapped transcript's media is looked for: one candidate per known
/// extension, named by the transcript's stem, under the mapping root in the
/// transcript's own directory when there is no media subdirectory, in the
/// media subdirectory when the transcript has no directory, and in
/// `subdir/dir` when there are both.
pub proof fn lemma_mapping_candidates_follow_transcript_dir(root: Seq<char>, filename: Seq<char>, media_subdir: Seq<char>)
    ensures
        spec_mapping_candidates(root, filename, media_subdir).len() == media_extensions().len(),
        parent_or_empty(filename).len() == 0 ==> forall|i: int| 0 <= i < media_extensions().len() ==>
            #[trigger] spec_mapping_candidates(root, filename, media_subdir)[i]
                == path_join(path_join(root, media_subdir), stem_or_empty(filename) + "."@ + media_extensions()[i]),
        parent_or_empty(filename).len() > 0 && media_subdir.len() == 0 ==> forall|i: int| 0 <= i < media_extensions().len() ==>
            #[trigger] spec_mapping_candidates(root, filename, media_subdir)[i]
                == path_join(path_join(root, parent_or_empty(filename)), stem_or_empty(filename) + "."@ + media_extensions()[i]),
        parent_or_empty(filename).len() > 0 && media_subdir.len() > 0 ==> forall|i: int| 0 <= i < media_extensions().len() ==>
            #[trigger] spec_mapping_candidates(root, filename, media_subdir)[i]
                == path_join(path_join(root, media_subdir + "/"@ + parent_or_empty(filename)),
                    stem_or_empty(filename) + "."@ + media_extensions()[i]),
{
}

pub fn media_mapping_candidates(root: &str, filename: &str, media_subdir: &str) -> (r: Vec<String>)
    ensures
        r@.map_values(|x: String| x@) == spec_mapping_candidates(root@, filename@, media_subdir@),
        r@.len() == media_extensions().len(),
        parent_or_empty(filename@).len() == 0 ==> forall|i: int| 0 <= i < r@.len() ==>
            (#[trigger] r@[i])@ == path_join(path_join(root@, media_subdir@), stem_or_empty(filename@) + "."@ + media_extensions()[i]),
        parent_or_empty(filename@).len() > 0 && media_subdir@.len() == 0 ==> forall|i: int| 0 <= i < r@.len() ==>
            (#[trigger] r@[i])@ == path_join(path_join(root@, parent_or_empty(filename@)),
                stem_or_empty(filename@) + "."@ + media_extensions()[i]),
        parent_or_empty(filename@).len() > 0 && media_subdir@.len() > 0 ==> forall|i: int| 0 <= i < r@.len() ==>
            (#[trigger] r@[i])@ == path_join(path_join(root@, media_subdir@ + "/"@ + parent_or_empty(filename@)),
                stem_or_empty(filename@) + "."@ + media_extensions()[i]),
{
    proof { lemma_mapping_candidates_follow_transcript_dir(root@, filename@, media_subdir@); }
    let stem = match std_file_stem(filename) {
        Some(s) => s,
        None => String::new(),
    };
    let parent = match std_parent(filename) {
        Some(p) => p,
        None => String::new(),
    };
    let sub = if parent.as_str().unicode_len() == 0 {
        String::from_str(media_subdir)
    } else if media_subdir.unicode_len() == 0 {
        parent
    } else {
        let mut s = String::from_str(media_subdir);
        s.append("/");
        s.append(parent.as_str());
        s
    };
    let dir = std_join(root, sub.as_str());
    let r = media_candidates(dir.as_str(), stem.as_str());
    proof {
        assert forall|i: int| 0 <= i < r@.len() implies (#[trigger] r@[i])@ == r@.map_values(|x: String| x@)[i] by {}
    }
    r
}

/// The metrics table written beside a benchmark's hypothesis transcript:
/// its path with the extension replaced by `compare.csv`.
pub fn benchmark_csv_path(write_path: &str) -> (r: String)
    ensures
        r@ == path_with_extension(write_path@, "compare.csv"@),
{
    proof { reveal_strlit("compare.csv"); }
    std_with_extension(write_path, "compare.csv")
}

} // verus!
