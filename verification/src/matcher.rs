//! The module matcher: which firmware file belongs to which keyboard module.
//!
//! A module's files are recognised by a regular expression over the file
//! name. The expression is built here, with the module's name taken
//! literally; evaluating it is left to the `regex` crate.

use crate::scanner::{file_views, newest_first, FirmwareFile, FirmwareFileView, FILE_EXTENSION};
use vstd::prelude::*;
use vstd::string::StringExecFns;

verus! {

/// The error with which `regex` turns an expression down.
#[verifier::external_type_specification]
#[verifier::external_body]
pub struct ExRegexError(regex::Error);

/// Whether `regex`, with its default settings, accepts the regular
/// expression `pattern`: whether the text is a valid expression and its
/// compiled form stays within the crate's size limit. That size is counted
/// in bytes of the crate's own data, so the answer belongs to the build
/// target, as the width of `usize` does.
pub uninterp spec fn regex_accepts(pattern: Seq<char>) -> bool;

/// Where the leftmost match of the regular expression `pattern` lies in
/// `haystack`, as byte offsets of its start and end; `None` when the
/// expression matches nowhere. Only meaningful for a `pattern` that `regex`
/// accepts.
pub uninterp spec fn regex_find(pattern: Seq<char>, haystack: Seq<char>) -> Option<(usize, usize)>;

/// `Regex::new` followed by `Regex::find`: compiles `pattern` with the
/// crate's default settings and searches `haystack` for its leftmost match.
///
/// Claimed of them: whether the expression compiles depends on its text
/// alone, and [`regex_accepts`] names it; when it compiles, what the search
/// returns depends on the two texts alone, and [`regex_find`] names it.
#[verifier::external_body]
fn find_in(pattern: &str, haystack: &str) -> (r: Result<Option<(usize, usize)>, regex::Error>)
    ensures
        r is Ok <==> regex_accepts(pattern@),
        r matches Ok(found) ==> found == regex_find(pattern@, haystack@),
{
    let compiled = regex::Regex::new(pattern)?;
    Ok(compiled.find(haystack).map(|m| (m.start(), m.end())))
}

/// A character that has a meaning of its own in a regular expression.
pub open spec fn is_meta_character(c: char) -> bool {
    ||| c == '\\'
    ||| c == '.'
    ||| c == '+'
    ||| c == '*'
    ||| c == '?'
    ||| c == '('
    ||| c == ')'
    ||| c == '|'
    ||| c == '['
    ||| c == ']'
    ||| c == '{'
    ||| c == '}'
    ||| c == '^'
    ||| c == '$'
    ||| c == '#'
    ||| c == '&'
    ||| c == '-'
    ||| c == '~'
}

/// `text` with a backslash put before each of its meta characters.
pub open spec fn escaped(text: Seq<char>) -> Seq<char>
    decreases text.len(),
{
    if text.len() == 0 {
        text
    } else if is_meta_character(text.last()) {
        escaped(text.drop_last()).push('\\').push(text.last())
    } else {
        escaped(text.drop_last()).push(text.last())
    }
}

/// `regex::escape`: copies `text`, putting a backslash before each
/// character that has a meaning of its own in a regular expression. Claimed
/// of it: those are the characters that [`is_meta_character`] lists, and
/// nothing else is changed.
#[verifier::external_body]
fn escape(text: &str) -> (r: String)
    ensures
        r@ == escaped(text@),
{
    regex::escape(text)
}

/// A regular expression was not accepted.
#[derive(Debug, PartialEq, Eq)]
pub struct InvalidPattern;

/// One hardware module to flash: its name, and the directory that its image
/// always goes to, if there is one.
#[derive(Debug, PartialEq, Eq)]
pub struct ModuleSpec {
    pub name: String,
    pub default_dest_dir: Option<String>,
}

/// A module together with the firmware file that was found for it.
#[derive(Debug, PartialEq, Eq)]
pub struct FlashTarget {
    pub module: ModuleSpec,
    pub source: FirmwareFile,
}

/// Why no firmware file could be assigned to a module.
#[derive(Debug, PartialEq, Eq)]
pub enum SelectError {
    /// The module's name does not give a regular expression that `regex`
    /// accepts.
    InvalidPattern { module: String },
    /// No file name matches the module's pattern.
    MissingFile { module: String },
}

/// What a [`ModuleSpec`] stands for.
pub struct ModuleSpecView {
    pub name: Seq<char>,
    pub default_dest_dir: Option<Seq<char>>,
}

/// What a [`FlashTarget`] stands for.
pub struct FlashTargetView {
    pub module: ModuleSpecView,
    pub source: FirmwareFileView,
}

impl View for ModuleSpec {
    type V = ModuleSpecView;

    open spec fn view(&self) -> ModuleSpecView {
        ModuleSpecView {
            name: self.name@,
            default_dest_dir: match self.default_dest_dir {
                Some(dir) => Some(dir@),
                None => None,
            },
        }
    }
}

impl View for FlashTarget {
    type V = FlashTargetView;

    open spec fn view(&self) -> FlashTargetView {
        FlashTargetView { module: self.module@, source: self.source@ }
    }
}

impl Clone for ModuleSpec {
    fn clone(&self) -> (r: Self)
        ensures
            r@ == self@,
    {
        ModuleSpec {
            name: self.name.clone(),
            default_dest_dir: match &self.default_dest_dir {
                Some(dir) => Some(dir.clone()),
                None => None,
            },
        }
    }
}

impl Clone for FlashTarget {
    fn clone(&self) -> (r: Self)
        ensures
            r@ == self@,
    {
        FlashTarget { module: self.module.clone(), source: self.source.clone() }
    }
}

/// The regular expression that recognises the files of the module
/// `module_name`: anything, a hyphen, the module's name with its meta
/// characters escaped, a dot, the firmware extension, and then the end of
/// the file name.
pub open spec fn pattern_text(module_name: Seq<char>) -> Seq<char> {
    ".*-"@ + escaped(module_name) + "\\."@ + FILE_EXTENSION@ + "$"@
}

/// The file name `file_name` matches the regular expression `pattern`.
pub open spec fn matches(pattern: Seq<char>, file_name: Seq<char>) -> bool {
    regex_find(pattern, file_name) is Some
}

/// `i` is the first place in `files` whose file name matches `pattern`.
pub open spec fn is_first_match(files: Seq<FirmwareFileView>, pattern: Seq<char>, i: int) -> bool {
    &&& 0 <= i < files.len()
    &&& matches(pattern, files[i].file_name)
    &&& forall|j: int| 0 <= j < i ==> !matches(pattern, files[j].file_name)
}

/// No file name in `files` matches `pattern`.
pub open spec fn no_match(files: Seq<FirmwareFileView>, pattern: Seq<char>) -> bool {
    forall|j: int| 0 <= j < files.len() ==> !matches(pattern, files[j].file_name)
}

/// Builds the regular expression that recognises a module's files.
pub fn module_file_pattern(module_name: &str) -> (r: String)
    ensures
        r@ == pattern_text(module_name@),
{
    let mut pattern = String::from_str(".*-");
    pattern.append(escape(module_name).as_str());
    pattern.append("\\.");
    pattern.append(FILE_EXTENSION);
    pattern.append("$");
    pattern
}

/// Reads the outcome of a search: whether the expression matched, or that it
/// was turned down.
pub fn judge_search(outcome: Result<Option<(usize, usize)>, regex::Error>) -> (r: Result<
    bool,
    InvalidPattern,
>)
    ensures
        match outcome {
            Ok(found) => r == Ok::<bool, InvalidPattern>(found is Some),
            Err(_) => r is Err,
        },
{
    match outcome {
        Ok(found) => Ok(found.is_some()),
        Err(_) => Err(InvalidPattern),
    }
}

/// Asks whether `regex` accepts `pattern`. The expression is tried on the
/// empty text; what it finds there is of no interest.
pub fn check_pattern(pattern: &str) -> (r: Result<(), InvalidPattern>)
    ensures
        r is Ok <==> regex_accepts(pattern@),
{
    match judge_search(find_in(pattern, "")) {
        Ok(_) => Ok(()),
        Err(e) => Err(e),
    }
}

/// Evaluates `pattern` on the name of every file, in order.
///
/// Fails exactly when `regex` does not accept the expression, whatever the
/// files are.
pub fn match_names(files: &Vec<FirmwareFile>, pattern: &str) -> (r: Result<
    Vec<bool>,
    InvalidPattern,
>)
    ensures
        r is Ok <==> regex_accepts(pattern@),
        r matches Ok(flags) ==> {
            &&& flags.len() == files.len()
            &&& forall|i: int|
                0 <= i < files.len() ==> flags[i] == matches(pattern@, files[i].file_name@)
        },
{
    match check_pattern(pattern) {
        Ok(_) => {},
        Err(e) => {
            return Err(e);
        },
    }
    let mut flags: Vec<bool> = Vec::new();
    let mut i: usize = 0;
    while i < files.len()
        invariant
            regex_accepts(pattern@),
            i <= files.len(),
            flags.len() == i,
            forall|k: int| 0 <= k < i ==> flags[k] == matches(pattern@, files[k].file_name@),
        decreases files.len() - i,
    {
        match judge_search(find_in(pattern, files[i].file_name.as_str())) {
            Ok(flag) => {
                flags.push(flag);
            },
            Err(e) => {
                return Err(e);
            },
        }
        i += 1;
    }
    Ok(flags)
}

/// Finds the first `true` in `flags`.
pub fn first_match(flags: &Vec<bool>) -> (r: Option<usize>)
    ensures
        match r {
            Some(i) => {
                &&& i < flags.len()
                &&& flags[i as int]
                &&& forall|j: int| 0 <= j < i ==> !flags[j]
            },
            None => forall|j: int| 0 <= j < flags.len() ==> !flags[j],
        },
{
    let mut i: usize = 0;
    while i < flags.len()
        invariant
            i <= flags.len(),
            forall|j: int| 0 <= j < i ==> !flags[j],
        decreases flags.len() - i,
    {
        if flags[i] {
            return Some(i);
        }
        i += 1;
    }
    None
}

/// Finds the first file whose name matches `pattern`. In a list that is
/// sorted newest first, that is the newest such file.
///
/// Fails exactly when `regex` does not accept the expression, whatever the
/// files are.
pub fn find_file<'a>(files: &'a Vec<FirmwareFile>, pattern: &str) -> (r: Result<
    Option<&'a FirmwareFile>,
    InvalidPattern,
>)
    ensures
        r is Err <==> !regex_accepts(pattern@),
        match r {
            Ok(Some(file)) => exists|i: int|
                #[trigger] is_first_match(file_views(files@), pattern@, i) && *file == files[i],
            Ok(None) => no_match(file_views(files@), pattern@),
            Err(_) => true,
        },
{
    match match_names(files, pattern) {
        Ok(flags) => {
            assert forall|j: int| 0 <= j < files.len() implies flags[j] == matches(
                pattern@,
                #[trigger] file_views(files@)[j].file_name,
            ) by {
                assert(file_views(files@)[j] == files[j]@);
            }
            match first_match(&flags) {
                Some(i) => {
                    assert(is_first_match(file_views(files@), pattern@, i as int));
                    Ok(Some(&files[i]))
                },
                None => Ok(None),
            }
        },
        Err(e) => Err(e),
    }
}

/// `r` is the outcome of assigning a file of `files` to `module`: the first
/// file that matches the module's pattern, or the reason why there is none.
/// A pattern that `regex` does not accept is the reason before any other.
pub open spec fn is_selection(
    files: Seq<FirmwareFileView>,
    module: ModuleSpecView,
    r: Result<FlashTargetView, SelectError>,
) -> bool {
    match r {
        Ok(target) => {
            &&& regex_accepts(pattern_text(module.name))
            &&& target.module == module
            &&& exists|i: int| #[trigger]
                is_first_match(files, pattern_text(module.name), i) && target.source == files[i]
        },
        Err(SelectError::MissingFile { module: name }) => {
            &&& regex_accepts(pattern_text(module.name))
            &&& name@ == module.name
            &&& no_match(files, pattern_text(module.name))
        },
        Err(SelectError::InvalidPattern { module: name }) => {
            &&& !regex_accepts(pattern_text(module.name))
            &&& name@ == module.name
        },
    }
}

/// `r` with its target, if any, replaced by the target's view.
pub open spec fn selection_view(r: Result<FlashTarget, SelectError>) -> Result<
    FlashTargetView,
    SelectError,
> {
    match r {
        Ok(target) => Ok(target@),
        Err(e) => Err(e),
    }
}

/// The two modules of a split keyboard, in the order in which they are
/// flashed. Neither has a fixed destination.
pub fn keyboard_modules() -> (r: (ModuleSpec, ModuleSpec))
    ensures
        r.0@ == (ModuleSpecView { name: "left"@, default_dest_dir: None }),
        r.1@ == (ModuleSpecView { name: "right"@, default_dest_dir: None }),
{
    (
        ModuleSpec { name: String::from_str("left"), default_dest_dir: None },
        ModuleSpec { name: String::from_str("right"), default_dest_dir: None },
    )
}

/// Assigns to `module` the first file of `files` whose name matches the
/// module's pattern.
pub fn select_target(files: &Vec<FirmwareFile>, module: &ModuleSpec) -> (r: Result<
    FlashTarget,
    SelectError,
>)
    ensures
        is_selection(file_views(files@), module@, selection_view(r)),
{
    let pattern = module_file_pattern(module.name.as_str());
    match find_file(files, pattern.as_str()) {
        Ok(Some(file)) => {
            let target = FlashTarget { module: module.clone(), source: file.clone() };
            proof {
                let i = choose|i: int| #[trigger]
                    is_first_match(file_views(files@), pattern@, i) && *file == files[i];
                assert(is_first_match(file_views(files@), pattern_text(module@.name), i));
                assert(target@.source == file_views(files@)[i]);
            }
            Ok(target)
        },
        Ok(None) => Err(SelectError::MissingFile { module: module.name.clone() }),
        Err(_) => Err(SelectError::InvalidPattern { module: module.name.clone() }),
    }
}

/// Assigns a firmware file to each of the two modules, `left` first. The
/// first module that cannot be served decides the error.
pub fn select_targets(files: &Vec<FirmwareFile>, left: &ModuleSpec, right: &ModuleSpec) -> (r:
    Result<(FlashTarget, FlashTarget), SelectError>)
    ensures
        match r {
            Ok(pair) => {
                &&& is_selection(file_views(files@), left@, Ok(pair.0@))
                &&& is_selection(file_views(files@), right@, Ok(pair.1@))
            },
            Err(e) => {
                ||| is_selection(file_views(files@), left@, Err(e))
                ||| {
                    &&& regex_accepts(pattern_text(left.name@))
                    &&& exists|i: int| #[trigger]
                        is_first_match(file_views(files@), pattern_text(left.name@), i)
                    &&& is_selection(file_views(files@), right@, Err(e))
                }
            },
        },
{
    let first = select_target(files, left);
    match first {
        Ok(left_target) => {
            let second = select_target(files, right);
            match second {
                Ok(right_target) => Ok((left_target, right_target)),
                Err(e) => Err(e),
            }
        },
        Err(e) => Err(e),
    }
}

/// In a list that is sorted newest first, the first match is a newest match:
/// no file that matches the pattern was created later.
pub proof fn lemma_first_match_is_newest(files: Seq<FirmwareFileView>, pattern: Seq<char>, i: int)
    requires
        newest_first(files),
        is_first_match(files, pattern, i),
    ensures
        forall|j: int|
            0 <= j < files.len() && matches(pattern, #[trigger] files[j].file_name)
                ==> files[i].created >= files[j].created,
{
}

/// A name without meta characters stands in the pattern as it is.
pub proof fn lemma_plain_name_is_kept(name: Seq<char>)
    requires
        forall|i: int| 0 <= i < name.len() ==> !is_meta_character(name[i]),
    ensures
        escaped(name) == name,
    decreases name.len(),
{
    if name.len() > 0 {
        lemma_plain_name_is_kept(name.drop_last());
        assert(name.drop_last().push(name.last()) =~= name);
    }
}

/// The outcome of a selection is determined: two outcomes for the same
/// files and the same module are of the same kind, and where they are
/// targets, they are the same target.
pub proof fn lemma_selection_is_determined(
    files: Seq<FirmwareFileView>,
    module: ModuleSpecView,
    a: Result<FlashTargetView, SelectError>,
    b: Result<FlashTargetView, SelectError>,
)
    requires
        is_selection(files, module, a),
        is_selection(files, module, b),
    ensures
        a is Ok <==> b is Ok,
        a matches Ok(x) ==> b == Ok::<FlashTargetView, SelectError>(x),
        a matches Err(SelectError::MissingFile { .. }) <==> b matches Err(
            SelectError::MissingFile { .. },
        ),
        a matches Err(SelectError::InvalidPattern { .. }) <==> b matches Err(
            SelectError::InvalidPattern { .. },
        ),
{
    let pattern = pattern_text(module.name);
    if let Ok(x) = a {
        let i = choose|i: int| #[trigger] is_first_match(files, pattern, i) && x.source == files[i];
        if let Ok(y) = b {
            let j = choose|j: int| #[trigger]
                is_first_match(files, pattern, j) && y.source == files[j];
            assert(i == j);
        }
    } else if let Ok(y) = b {
        let j = choose|j: int| #[trigger] is_first_match(files, pattern, j) && y.source == files[j];
    }
}

/// What is selected for a module: from a list that is sorted newest first, a
/// module gets a file whose name matches the module's pattern, and none of
/// the files that match was created later. A module gets no file exactly
/// when `regex` does not accept its pattern or no file name matches.
pub proof fn lemma_selection_is_newest_match(
    files: Seq<FirmwareFileView>,
    module: ModuleSpecView,
    r: Result<FlashTargetView, SelectError>,
)
    requires
        newest_first(files),
        is_selection(files, module, r),
    ensures
        r matches Ok(target) ==> {
            &&& matches(pattern_text(module.name), target.source.file_name)
            &&& forall|j: int|
                0 <= j < files.len() && matches(
                    pattern_text(module.name),
                    #[trigger] files[j].file_name,
                ) ==> target.source.created >= files[j].created
        },
        r matches Err(SelectError::MissingFile { .. }) <==> regex_accepts(
            pattern_text(module.name),
        ) && no_match(files, pattern_text(module.name)),
        r matches Err(SelectError::InvalidPattern { .. }) <==> !regex_accepts(
            pattern_text(module.name),
        ),
{
    if let Ok(target) = r {
        let i = choose|i: int| #[trigger]
            is_first_match(files, pattern_text(module.name), i) && target.source == files[i];
        lemma_first_match_is_newest(files, pattern_text(module.name), i);
    }
}

} // verus!
