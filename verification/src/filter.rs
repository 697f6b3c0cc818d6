//! The filter compiler: turns a named ignore-list specification into
//! compiled pattern matchers.
//!
//! Each entry is wrapped into one pattern string — anchored with `^` and
//! `$` when whole-word matching is asked for, prefixed with the `(?i)`
//! flag unless matching is case-sensitive, and escaped first unless the
//! entry already is a pattern — and handed to the pattern engine.
//! Compilation is total and all-or-nothing: the first entry that fails
//! aborts the whole specification, and a partially compiled filter is
//! never returned.

use vstd::prelude::*;
use vstd::string::StringExecFns;
use crate::config::IgnoreList;
use crate::error::{FilterKind, OptionError};

verus! {

/// Whether the pattern engine accepts `pattern`: a property of the
/// pattern text alone.
pub uninterp spec fn regex_valid(pattern: Seq<char>) -> bool;

/// Whether a pattern finds a match anywhere in a haystack: a property of
/// the pattern and haystack texts alone.
pub uninterp spec fn regex_match(pattern: Seq<char>, hay: Seq<char>) -> bool;

/// The longest literal entry for which compilation of its escaped,
/// wrapped form is promised to succeed: far below the pattern engine's
/// default automaton size limit, and ample for device, mount point,
/// sensor and interface names.
pub const LITERAL_ENTRY_MAX: usize = 1024;

/// The characters the pattern engine treats as metacharacters. The
/// engine documents this set as fixed.
pub open spec fn spec_is_meta_character(c: char) -> bool {
    c == '\\' || c == '.' || c == '+' || c == '*' || c == '?' || c == '(' || c == ')' || c == '|'
        || c == '[' || c == ']' || c == '{' || c == '}' || c == '^' || c == '$' || c == '#'
        || c == '&' || c == '-' || c == '~'
}

/// What escaping a text yields: a backslash inserted before each
/// metacharacter, every other character kept as it is.
pub open spec fn spec_regex_escape(text: Seq<char>) -> Seq<char>
    decreases text.len(),
{
    if text.len() == 0 {
        Seq::empty()
    } else if spec_is_meta_character(text.first()) {
        seq!['\\', text.first()] + spec_regex_escape(text.drop_first())
    } else {
        seq![text.first()] + spec_regex_escape(text.drop_first())
    }
}

/// The pattern built around one entry body: `^` and `$` anchors when
/// whole-word matching is on, the `(?i)` flag when case-sensitivity is
/// off.
pub open spec fn wrap_pattern(
    body: Seq<char>,
    case_sensitive: bool,
    whole_word: bool,
) -> Seq<char> {
    (if whole_word {
        "^"@
    } else {
        Seq::<char>::empty()
    }) + (if case_sensitive {
        Seq::<char>::empty()
    } else {
        "(?i)"@
    }) + body + (if whole_word {
        "$"@
    } else {
        Seq::<char>::empty()
    })
}

/// The pattern that entry `i` of a specification compiles to: the entry
/// itself when entries are patterns, its escaped form when they are
/// literals, wrapped as `wrap_pattern` says.
pub open spec fn entry_pattern(il: IgnoreList, i: int) -> Seq<char> {
    wrap_pattern(
        if il.regex {
            il.list@[i]@
        } else {
            spec_regex_escape(il.list@[i]@)
        },
        il.case_sensitive,
        il.whole_word,
    )
}

/// Every entry of the specification compiles.
pub open spec fn spec_ignore_list_ok(il: IgnoreList) -> bool {
    forall|i: int| 0 <= i < il.list@.len() ==> regex_valid(#[trigger] entry_pattern(il, i))
}

/// A specification whose entries are literals of modest length.
/// Compilation of such a specification always succeeds.
pub open spec fn spec_short_literal_list(il: IgnoreList) -> bool {
    &&& !il.regex
    &&& forall|i: int|
        0 <= i < il.list@.len() ==> (#[trigger] il.list@[i])@.len() <= LITERAL_ENTRY_MAX
}

#[verifier::external_type_specification]
#[verifier::external_body]
pub struct ExRegex(regex::Regex);

/// One compiled pattern matcher, kept beside the pattern text it was
/// compiled from. Only `try_compile` constructs one, so `re` is always
/// the compilation of `pattern`. Its view is the pattern text.
#[derive(Debug)]
pub struct PatternMatcher {
    pattern: String,
    re: regex::Regex,
}

impl View for PatternMatcher {
    type V = Seq<char>;

    closed spec fn view(&self) -> Seq<char> {
        self.pattern@
    }
}

/// Relies on `regex::Regex::new`: whether compilation succeeds — invalid
/// syntax, or a pattern whose automaton exceeds the engine's default size
/// limit — is a function of the pattern text alone, named `regex_valid`.
/// The error message is the engine's own description of the defect.
#[verifier::external_body]
fn try_compile(pattern: String) -> (r: Result<PatternMatcher, String>)
    ensures
        (r is Ok) == regex_valid(pattern@),
        r matches Ok(m) ==> m@ == pattern@,
{
    match regex::Regex::new(&pattern) {
        Ok(re) => Ok(PatternMatcher { pattern, re }),
        Err(e) => Err(e.to_string()),
    }
}

/// Relies on `regex::Regex::is_match`: whether a match exists anywhere in
/// the haystack is a function of the compiled pattern's text and the
/// haystack alone, named `regex_match`. The `re` field is only ever built
/// by `try_compile` from the text in `pattern`.
#[verifier::external_body]
fn regex_is_match(m: &PatternMatcher, hay: &str) -> (b: bool)
    ensures
        b == regex_match(m@, hay@),
{
    m.re.is_match(hay)
}

/// Relies on `regex::escape`: it inserts a backslash before each
/// character of the engine's fixed, documented metacharacter set and
/// keeps every other character, so its result is `spec_regex_escape` of
/// the input. The result "may be safely used as a literal in a regular
/// expression"; compilation of that literal — wrapped in the `(?i)` flag
/// and the `^`/`$` anchors, which are plain syntax around a literal —
/// can still be refused by the engine's default automaton size limit,
/// so validity is only promised for entries of modest length, whose
/// automata stay orders of magnitude below that limit.
#[verifier::external_body]
fn escape_entry(text: &str) -> (r: String)
    ensures
        r@ == spec_regex_escape(text@),
        text@.len() <= LITERAL_ENTRY_MAX ==> forall|cs: bool, ww: bool|
            regex_valid(#[trigger] wrap_pattern(r@, cs, ww)),
{
    regex::escape(text)
}

impl PatternMatcher {
    /// Tests a candidate string against this matcher.
    pub fn is_match(&self, hay: &str) -> (b: bool)
        ensures
            b == regex_match(self@, hay@),
    {
        regex_is_match(self, hay)
    }

    /// The pattern text this matcher was compiled from.
    pub fn pattern_text(&self) -> (r: &str)
        ensures
            r@ == self@,
    {
        self.pattern.as_str()
    }
}

/// Builds the pattern string for one entry.
fn build_pattern(entry: &str, is_regex: bool, case_sensitive: bool, whole_word: bool) -> (r:
    String)
    ensures
        r@ == wrap_pattern(
            if is_regex {
                entry@
            } else {
                spec_regex_escape(entry@)
            },
            case_sensitive,
            whole_word,
        ),
        !is_regex && entry@.len() <= LITERAL_ENTRY_MAX ==> regex_valid(r@),
{
    let mut s = String::new();
    if whole_word {
        s.append("^");
    }
    if !case_sensitive {
        s.append("(?i)");
    }
    if is_regex {
        s.append(entry);
    } else {
        let escaped = escape_entry(entry);
        s.append(escaped.as_str());
    }
    if whole_word {
        s.append("$");
    }
    proof {
        assert(s@ =~= wrap_pattern(
            if is_regex {
                entry@
            } else {
                spec_regex_escape(entry@)
            },
            case_sensitive,
            whole_word,
        ));
    }
    s
}

/// The executable form of an ignore-list specification: one compiled
/// matcher per entry, in entry order, plus the polarity carried through
/// unchanged.
#[derive(Debug)]
pub struct Filter {
    pub list: Vec<PatternMatcher>,
    pub is_list_ignored: bool,
}

/// `f` is the faithful compilation of `il`: same polarity, one matcher
/// per entry, each compiled from that entry's pattern.
pub open spec fn spec_filter_matches(f: Filter, il: IgnoreList) -> bool {
    &&& f.is_list_ignored == il.is_list_ignored
    &&& f.list@.len() == il.list@.len()
    &&& forall|i: int|
        0 <= i < f.list@.len() ==> (#[trigger] f.list@[i])@ == entry_pattern(il, i)
}

/// Compiles every entry of one specification, in entry order.
fn compile_list(il: &IgnoreList, kind: FilterKind) -> (r: Result<Filter, OptionError>)
    ensures
        (r is Ok) == spec_ignore_list_ok(*il),
        spec_short_literal_list(*il) ==> r is Ok,
        r matches Ok(f) ==> spec_filter_matches(f, *il),
        r matches Err(e) ==> e matches OptionError::FilterCompileFailure {
            kind: ek,
            message: _,
        } && ek == kind,
{
    let mut matchers: Vec<PatternMatcher> = Vec::new();
    let n = il.list.len();
    let mut idx: usize = 0;
    while idx < n
        invariant
            idx <= n,
            n == il.list@.len(),
            matchers@.len() == idx,
            forall|i: int| 0 <= i < idx ==> (#[trigger] matchers@[i])@ == entry_pattern(*il, i),
            forall|i: int| 0 <= i < idx ==> regex_valid(#[trigger] entry_pattern(*il, i)),
        decreases n - idx,
    {
        let entry = &il.list[idx];
        let pattern = build_pattern(entry.as_str(), il.regex, il.case_sensitive, il.whole_word);
        match try_compile(pattern) {
            Ok(m) => {
                matchers.push(m);
            },
            Err(message) => {
                proof {
                    assert(!regex_valid(entry_pattern(*il, idx as int)));
                    assert(!spec_ignore_list_ok(*il));
                    if spec_short_literal_list(*il) {
                        assert(il.list@[idx as int]@.len() <= LITERAL_ENTRY_MAX);
                        assert(false);
                    }
                }
                return Err(OptionError::FilterCompileFailure { kind, message });
            },
        }
        idx += 1;
    }
    Ok(Filter { list: matchers, is_list_ignored: il.is_list_ignored })
}

/// Compiles an optional ignore-list specification: nothing when the
/// specification is absent, its compiled filter when every entry
/// compiles, and a failure naming the specification as soon as one entry
/// does not — which can only happen when entries are patterns.
pub fn get_ignore_list(ignore_list: &Option<IgnoreList>, kind: FilterKind) -> (r: Result<
    Option<Filter>,
    OptionError,
>)
    ensures
        (*ignore_list) is None ==> r == Ok::<Option<Filter>, OptionError>(None),
        (*ignore_list) matches Some(il) ==> {
            &&& (r is Ok) == spec_ignore_list_ok(il)
            &&& (spec_short_literal_list(il) ==> r is Ok)
            &&& (r matches Ok(opt) ==> opt matches Some(f) && spec_filter_matches(f, il))
            &&& (r matches Err(e) ==> e matches OptionError::FilterCompileFailure {
                kind: ek,
                message: _,
            } && ek == kind)
        },
{
    match ignore_list {
        None => Ok(None),
        Some(il) => match compile_list(il, kind) {
            Ok(f) => Ok(Some(f)),
            Err(e) => Err(e),
        },
    }
}

} // verus!
