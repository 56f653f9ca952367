//! Which log directives the tool runs with. Precedence, highest first: the
//! `--log-level` flag, the `-v` count, the `RUST_LOG` environment variable,
//! and `warn`.

use vstd::prelude::*;

verus! {

/// Whether `tracing_subscriber::EnvFilter::try_new` accepts these
/// directives (every comma-separated directive parses).
pub uninterp spec fn env_filter_accepts(directives: Seq<char>) -> bool;

/// Whether `c` has the Unicode `White_Space` property (what `str::trim`
/// removes).
pub open spec fn is_white_space(c: char) -> bool {
    let u = c as u32;
    (9 <= u <= 13) || u == 32 || u == 0x85 || u == 0xa0 || u == 0x1680 || (0x2000 <= u <= 0x200a)
        || u == 0x2028 || u == 0x2029 || u == 0x202f || u == 0x205f || u == 0x3000
}

/// Whether the comma-separated directive that holds position `j` of `s`
/// (a position that is not a comma) begins with white space.
pub open spec fn piece_opens_with_space(s: Seq<char>, j: int) -> bool
    decreases j,
{
    if j <= 0 {
        s.len() > 0 && is_white_space(s[0])
    } else if s[j - 1] == ',' {
        is_white_space(s[j])
    } else {
        piece_opens_with_space(s, j - 1)
    }
}

/// The characters at which the directive parser cuts a directive.
pub open spec fn is_delimiter(c: char) -> bool {
    c == '=' || c == '[' || c == ']' || c == '{' || c == '}'
}

/// Positions `j` to `k` of `s` lie in one comma-separated directive.
pub open spec fn same_directive(s: Seq<char>, j: int, k: int) -> bool {
    forall|m: int| j <= m <= k ==> #[trigger] s[m] != ','
}

/// A directive that begins with white space has a non-ASCII character at
/// `j` and a delimiter after it at `k`.
pub open spec fn shifted_cut(s: Seq<char>, j: int, k: int) -> bool {
    &&& 0 <= j < k < s.len()
    &&& same_directive(s, j, k)
    &&& piece_opens_with_space(s, j)
    &&& (s[j] as u32) >= 128
    &&& is_delimiter(s[k])
}

/// Directive text that `tracing-subscriber` parses without panicking: no
/// directive that begins with white space has a non-ASCII character before
/// one of its delimiters. (The parser finds delimiter positions in the
/// trimmed directive and cuts the untrimmed one there; with only ASCII up to
/// the delimiter every such cut falls between characters.)
pub open spec fn directives_safe(s: Seq<char>) -> bool {
    forall|j: int, k: int| !#[trigger] shifted_cut(s, j, k)
}

fn white_space(c: char) -> (w: bool)
    ensures
        w == is_white_space(c),
{
    let u = c as u32;
    (9 <= u && u <= 13) || u == 32 || u == 0x85 || u == 0xa0 || u == 0x1680 || (0x2000 <= u && u
        <= 0x200a) || u == 0x2028 || u == 0x2029 || u == 0x202f || u == 0x205f || u == 0x3000
}

/// Whether `text` can be handed to the directive parser: [`directives_safe`].
pub fn directives_text_is_safe(text: &str) -> (safe: bool)
    ensures
        safe == directives_safe(text@),
{
    let n = text.unicode_len();
    let mut i: usize = 0;
    // the directive holding position i starts at `start`
    let ghost mut start: int = 0;
    // whether the current directive begins with white space
    let mut open_space = false;
    // whether it has shown a non-ASCII character so far, and where
    let mut wide = false;
    let ghost mut wide_at: int = 0;
    while i < n
        invariant
            n == text@.len(),
            i <= n,
            0 <= start <= i,
            start == 0 || text@[start - 1] == ',',
            forall|m: int| start <= m < i ==> #[trigger] text@[m] != ',',
            start < i ==> open_space == piece_opens_with_space(text@, i - 1),
            wide ==> start <= wide_at < i && piece_opens_with_space(text@, wide_at) && (
            text@[wide_at] as u32) >= 128,
            !wide ==> forall|j: int|
                start <= j < i && piece_opens_with_space(text@, j) ==> (#[trigger] text@[j] as u32)
                    < 128,
            forall|j: int, k: int| k < i ==> !#[trigger] shifted_cut(text@, j, k),
        decreases n - i,
    {
        let c = text.get_char(i);
        if c == ',' {
            proof {
                assert forall|j: int, k: int| k < i + 1 implies !#[trigger] shifted_cut(text@, j, k) by {
                    if k == i && shifted_cut(text@, j, k) {
                        assert(text@[k] != ',');
                    }
                }
                start = i + 1;
            }
            wide = false;
        } else {
            let opens = if i == 0 || text.get_char(i - 1) == ',' {
                white_space(c)
            } else {
                open_space
            };
            assert(opens == piece_opens_with_space(text@, i as int));
            if is_delim(c) && wide {
                proof {
                    assert(same_directive(text@, wide_at, i as int));
                    assert(shifted_cut(text@, wide_at, i as int));
                }
                return false;
            }
            proof {
                assert forall|j: int, k: int| k < i + 1 implies !#[trigger] shifted_cut(text@, j, k) by {
                    if k == i && shifted_cut(text@, j, k) {
                        if j < start {
                            assert(text@[start - 1] == ',');
                        }
                        assert(piece_opens_with_space(text@, j));
                    }
                }
            }
            if opens && (c as u32) >= 128 && !wide {
                wide = true;
                proof {
                    wide_at = i as int;
                }
            }
            open_space = opens;
        }
        i = i + 1;
    }
    true
}

fn is_delim(c: char) -> (d: bool)
    ensures
        d == is_delimiter(c),
{
    c == '=' || c == '[' || c == ']' || c == '{' || c == '}'
}

/// Text made of ASCII characters only is always safe to parse.
pub proof fn lemma_ascii_directives_safe(s: Seq<char>)
    requires
        forall|k: int| 0 <= k < s.len() ==> (#[trigger] s[k] as u32) < 128,
    ensures
        directives_safe(s),
{
}

/// Calls `tracing_subscriber::EnvFilter::try_new(directives)` and reports
/// whether it returned `Ok`. The contract claims only that the answer is
/// the same for the same text; the grammar of directives is not restated.
/// The call panics only on a directive that begins with white space and has
/// a multi-byte character before a delimiter it cuts at; [`directives_safe`]
/// is required, which rules all of those out (together with the rare such
/// texts on which the misplaced cuts happen to fall between characters, or
/// whose delimiter the parser never reaches).
#[verifier::external_body]
fn directives_parse(directives: &str) -> (ok: bool)
    requires
        directives_safe(directives@),
    ensures
        ok == env_filter_accepts(directives@),
{
    tracing_subscriber::EnvFilter::try_new(directives).is_ok()
}

/// The level that a count of `-v` flags asks for (count at least 1).
pub open spec fn verbosity_level(verbosity: u8) -> Seq<char> {
    if verbosity == 1 {
        "info"@
    } else if verbosity == 2 {
        "debug"@
    } else {
        "trace"@
    }
}

/// Directives that keep other crates at `warn` and set this crate to `level`.
pub open spec fn crate_scoped(level: Seq<char>) -> Seq<char> {
    "warn,music_separator="@ + level
}

/// The directives the tool filters its log with.
/// 1. an explicit `--log-level` wins (`warn` when it does not parse);
/// 2. otherwise `-v` counts: `info`, `debug`, `trace` for this crate only;
/// 3. otherwise a non-empty `RUST_LOG` that parses;
/// 4. otherwise `warn`.
pub open spec fn filter_directives(
    explicit: Option<Seq<char>>,
    verbosity: u8,
    rust_log: Option<Seq<char>>,
) -> Seq<char> {
    match explicit {
        Some(level) => if env_filter_accepts(level) {
            level
        } else {
            "warn"@
        },
        None => if verbosity > 0 {
            let scoped = crate_scoped(verbosity_level(verbosity));
            if env_filter_accepts(scoped) {
                scoped
            } else {
                verbosity_level(verbosity)
            }
        } else {
            match rust_log {
                Some(s) => if s.len() > 0 && env_filter_accepts(s) {
                    s
                } else {
                    "warn"@
                },
                None => "warn"@,
            }
        },
    }
}

fn level_for(verbosity: u8) -> (level: &'static str)
    requires
        verbosity > 0,
    ensures
        level@ == verbosity_level(verbosity),
{
    if verbosity == 1 {
        "info"
    } else if verbosity == 2 {
        "debug"
    } else {
        "trace"
    }
}

/// Whether the text that [`resolve_filter`] hands to the directive parser
/// is safe to parse: the explicit level if there is one, else `RUST_LOG`
/// when no `-v` is given (the `-v` directives are fixed ASCII text).
pub open spec fn filter_inputs_safe(
    explicit: Option<Seq<char>>,
    verbosity: u8,
    rust_log: Option<Seq<char>>,
) -> bool {
    match explicit {
        Some(level) => directives_safe(level),
        None => verbosity > 0 || match rust_log {
            Some(s) => directives_safe(s),
            None => true,
        },
    }
}

/// The log directives for an explicit level, a `-v` count and the value of
/// `RUST_LOG`, by the precedence of [`filter_directives`]. Text on which the
/// directive parser would panic is excluded ([`filter_inputs_safe`]).
pub fn resolve_filter(explicit: Option<&str>, verbosity: u8, rust_log: Option<String>) -> (directives:
    String)
    requires
        filter_inputs_safe(
            match explicit {
                Some(l) => Some(l@),
                None => None,
            },
            verbosity,
            match rust_log {
                Some(s) => Some(s@),
                None => None,
            },
        ),
    ensures
        directives@ == filter_directives(
            match explicit {
                Some(l) => Some(l@),
                None => None,
            },
            verbosity,
            match rust_log {
                Some(s) => Some(s@),
                None => None,
            },
        ),
{
    if let Some(level) = explicit {
        if directives_parse(level) {
            return String::from_str(level);
        }
        return String::from_str("warn");
    }
    if verbosity > 0 {
        let level = level_for(verbosity);
        let mut scoped = String::from_str("warn,music_separator=");
        scoped.append(level);
        proof {
            reveal_strlit("warn,music_separator=");
            reveal_strlit("info");
            reveal_strlit("debug");
            reveal_strlit("trace");
            assert(forall|k: int|
                0 <= k < "warn,music_separator="@.len() ==> (#[trigger] "warn,music_separator="@[k]
                    as u32) < 128);
            assert(forall|k: int| 0 <= k < level@.len() ==> (#[trigger] level@[k] as u32) < 128);
            assert forall|k: int| 0 <= k < scoped@.len() implies (#[trigger] scoped@[k] as u32)
                < 128 by {
                if k < "warn,music_separator="@.len() {
                    assert(scoped@[k] == "warn,music_separator="@[k]);
                } else {
                    assert(scoped@[k] == level@[k - "warn,music_separator="@.len()]);
                }
            }
            lemma_ascii_directives_safe(scoped@);
        }
        if directives_parse(scoped.as_str()) {
            return scoped;
        }
        return String::from_str(level);
    }
    if let Some(s) = rust_log {
        if !s.as_str().is_empty() && directives_parse(s.as_str()) {
            return s;
        }
    }
    String::from_str("warn")
}

/// Whether the log uses the developer layout (targets, files and line
/// numbers): at `-vv` and above, or with an explicit `debug` or `trace`.
pub fn developer_view(verbosity: u8, explicit: Option<&str>) -> (dev: bool)
    ensures
        dev == (verbosity >= 2 || (explicit matches Some(l) && (l@ == "debug"@ || l@ == "trace"@))),
{
    if verbosity >= 2 {
        return true;
    }
    match explicit {
        Some(level) => {
            let l = String::from_str(level);
            let debug = String::from_str("debug");
            let trace = String::from_str("trace");
            l == debug || l == trace
        },
        None => false,
    }
}

} // verus!
