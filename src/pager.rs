use vstd::prelude::*;

verus! {

/// The words that `shell_words::split` reads from a command line, or `None`
/// where its quoting is malformed.
pub uninterp spec fn shell_split_of(s: Seq<char>) -> Option<Seq<Seq<char>>>;

/// The file stem that `std::path::Path::file_stem` finds in a path.
pub uninterp spec fn file_stem_of(p: Seq<char>) -> Option<Seq<char>>;

/// A character that `shell_words::split` treats as ordinary text.
pub open spec fn is_plain_char(c: char) -> bool {
    c != '\'' && c != '"' && c != '\\' && c != ' ' && c != '\t' && c != '\n' && c != '#'
}

/// A non-empty word free of quotes, escapes, blanks and comment marks: the
/// shell reads it back as itself, one word.
pub open spec fn is_plain_word(s: Seq<char>) -> bool {
    s.len() > 0 && forall|i: int| 0 <= i < s.len() ==> #[trigger] is_plain_char(s[i])
}

/// A character that no platform gives a meaning in a path.
pub open spec fn is_name_char(c: char) -> bool {
    ('a' <= c && c <= 'z') || ('A' <= c && c <= 'Z') || ('0' <= c && c <= '9') || c == '-'
        || c == '_'
}

/// A non-empty bare file name without separators or dots: its own stem.
pub open spec fn is_bare_name(p: Seq<char>) -> bool {
    p.len() > 0 && forall|i: int| 0 <= i < p.len() ==> #[trigger] is_name_char(p[i])
}

/// The words of a split command line, as character sequences.
pub open spec fn words_view(v: Seq<String>) -> Seq<Seq<char>> {
    v.map_values(|w: String| w@)
}

/// Relies on `shell_words::split`: it splits a command line into words by the
/// shell's quoting rules, fails only on malformed quoting, and reads a plain
/// word back as the single word it is.
#[verifier::external_body]
fn split_words(s: &str) -> (r: Option<Vec<String>>)
    ensures
        r.is_some() == shell_split_of(s@).is_some(),
        r.is_some() ==> words_view(r.unwrap()@) == shell_split_of(s@).unwrap(),
        is_plain_word(s@) ==> r.is_some() && words_view(r.unwrap()@) == seq![s@],
{
    shell_words::split(s).ok()
}

/// Relies on `std::path::Path::file_stem`: the file name without directory
/// and extension, and a bare name with no separator or dot is its own stem.
#[verifier::external_body]
fn path_file_stem(p: &str) -> (r: Option<String>)
    ensures
        r.is_some() == file_stem_of(p@).is_some(),
        r.is_some() ==> r.unwrap()@ == file_stem_of(p@).unwrap(),
        is_bare_name(p@) ==> r.is_some() && r.unwrap()@ == p@,
{
    match std::path::Path::new(p).file_stem() {
        Some(stem) => Some(stem.to_string_lossy().into_owned()),
        None => None,
    }
}

/// An optional string, as an optional character sequence.
pub open spec fn opt_view(o: Option<String>) -> Option<Seq<char>> {
    match o {
        Some(s) => Some(s@),
        None => None,
    }
}

/// The pager that takes the place of a rejected one, and the one used when
/// no variable names any.
pub open spec fn default_pager() -> Seq<char> {
    "less"@
}

/// Pagers that mangle already coloured, already paged output.
pub open spec fn is_known_bad(stem: Option<Seq<char>>) -> bool {
    stem == Some("more"@) || stem == Some("most"@)
}

/// The command to inspect and whether it came from the general variable: the
/// override when it is set and not empty, else the general variable, else the
/// default.
pub open spec fn candidate(over: Option<Seq<char>>, general: Option<Seq<char>>) -> (Seq<char>, bool) {
    if over.is_some() && over.unwrap().len() > 0 {
        (over.unwrap(), false)
    } else if general.is_some() {
        (general.unwrap(), true)
    } else {
        (default_pager(), false)
    }
}

/// Whether a pager whose executable has stem `stem` must be replaced: it is
/// the running program itself (`own` is `Some` of the program's stem when
/// its path is known), or it is a known bad pager named by the general
/// variable.
pub open spec fn is_problematic(
    from_general: bool,
    stem: Option<Seq<char>>,
    own: Option<Option<Seq<char>>>,
) -> bool {
    own == Some(stem) || (from_general && is_known_bad(stem))
}

/// The pager chosen for `cmd`, given the stem of its executable (`None` when
/// the command has no executable: malformed quoting or no words): the
/// default in place of a missing or problematic executable, else `cmd`
/// itself, verbatim.
pub open spec fn choice(
    cmd: Seq<char>,
    from_general: bool,
    exe_stem: Option<Option<Seq<char>>>,
    own: Option<Option<Seq<char>>>,
) -> Seq<char> {
    match exe_stem {
        None => default_pager(),
        Some(stem) => if is_problematic(from_general, stem, own) {
            default_pager()
        } else {
            cmd
        },
    }
}

/// The stem of the executable that a command line starts with, if it has
/// one.
pub open spec fn exe_stem_of(cmd: Seq<char>) -> Option<Option<Seq<char>>> {
    let words = shell_split_of(cmd);
    if words.is_some() && words.unwrap().len() > 0 {
        Some(file_stem_of(words.unwrap()[0]))
    } else {
        None
    }
}

/// The stem of the running program, when its path is known.
pub open spec fn own_stem_of(program: Option<Seq<char>>) -> Option<Option<Seq<char>>> {
    match program {
        Some(p) => Some(file_stem_of(p)),
        None => None,
    }
}

/// The pager command resolved from the override variable, the general
/// variable and the path of the running program.
pub open spec fn resolved_pager(
    over: Option<Seq<char>>,
    general: Option<Seq<char>>,
    program: Option<Seq<char>>,
) -> Seq<char> {
    let (cmd, from_general) = candidate(over, general);
    choice(cmd, from_general, exe_stem_of(cmd), own_stem_of(program))
}

/// Whether two optional stems are the same.
fn stems_equal(a: &Option<String>, b: &Option<String>) -> (r: bool)
    ensures
        r == (opt_view(*a) == opt_view(*b)),
{
    match (a, b) {
        (Some(x), Some(y)) => *x == *y,
        (None, None) => true,
        _ => false,
    }
}

/// Whether a stem names a known bad pager.
fn is_known_bad_stem(stem: &Option<String>) -> (r: bool)
    ensures
        r == is_known_bad(opt_view(*stem)),
{
    match stem {
        Some(s) => {
            let more = "more".to_string();
            let most = "most".to_string();
            *s == more || *s == most
        },
        None => false,
    }
}

fn default_pager_string() -> (r: String)
    ensures
        r@ == default_pager(),
{
    "less".to_string()
}

/// Picks the pager for the command `cmd` once its executable's stem is known
/// (`exe_stem` is `None` where the command has no executable) and, where the
/// running program's path is known, the stem of that path (`own_stem`).
pub fn choose_pager(
    cmd: &str,
    from_general: bool,
    exe_stem: Option<Option<String>>,
    own_stem: Option<Option<String>>,
) -> (r: String)
    ensures
        r@ == choice(
            cmd@,
            from_general,
            match exe_stem { Some(s) => Some(opt_view(s)), None => None },
            match own_stem { Some(s) => Some(opt_view(s)), None => None },
        ),
{
    match exe_stem {
        None => default_pager_string(),
        Some(stem) => {
            let is_self = match &own_stem {
                Some(own) => stems_equal(own, &stem),
                None => false,
            };
            if is_self || (from_general && is_known_bad_stem(&stem)) {
                default_pager_string()
            } else {
                cmd.to_string()
            }
        },
    }
}

/// Resolves the pager command: the override variable `over` when set and
/// not empty, else the general variable `general`, else the default. The
/// chosen command is split by the shell's rules only to find its executable;
/// it is replaced by the default when it cannot be split, has no words, runs
/// the program at `program` (the running one) again, or, coming from the
/// general variable, names a known bad pager. Otherwise it is returned as
/// given, quoting and all.
pub fn resolve_pager(
    over: Option<String>,
    general: Option<String>,
    program: Option<String>,
) -> (r: String)
    ensures
        r@ == resolved_pager(opt_view(over), opt_view(general), opt_view(program)),
        r@ == default_pager() || r@ == candidate(opt_view(over), opt_view(general)).0,
        over.is_none() && general.is_none() ==> r@ == default_pager(),
        over.is_none() && (opt_view(general) == Some("more"@) || opt_view(general) == Some(
            "most"@,
        )) ==> r@ == default_pager(),
{
    let (cmd, from_general): (String, bool) = match over {
        Some(o) if !o.as_str().is_empty() => (o, false),
        _ => match general {
            Some(g) => (g, true),
            None => (default_pager_string(), false),
        },
    };
    let exe_stem: Option<Option<String>> = match split_words(cmd.as_str()) {
        Some(words) => if words.len() > 0 {
            Some(path_file_stem(words[0].as_str()))
        } else {
            None
        },
        None => None,
    };
    let own_stem: Option<Option<String>> = match &program {
        Some(p) => Some(path_file_stem(p.as_str())),
        None => None,
    };
    proof {
        reveal_strlit("less");
        reveal_strlit("more");
        reveal_strlit("most");
    }
    choose_pager(cmd.as_str(), from_general, exe_stem, own_stem)
}

/// A non-empty override is trusted: when its executable is not the running
/// program it is kept verbatim, known bad pager or not; when it is the
/// running program it is replaced by the default.
pub proof fn lemma_override_kept_unless_self(
    over: Seq<char>,
    general: Option<Seq<char>>,
    program: Option<Seq<char>>,
)
    requires
        over.len() > 0,
        exe_stem_of(over).is_some(),
    ensures
        own_stem_of(program) != exe_stem_of(over) ==> resolved_pager(Some(over), general, program)
            == over,
        own_stem_of(program) == exe_stem_of(over) ==> resolved_pager(Some(over), general, program)
            == default_pager(),
{
}

/// A command from the general variable whose executable is neither a known
/// bad pager nor the running program comes back exactly as written: it is
/// split only to be inspected, never rebuilt from its words.
pub proof fn lemma_general_kept_verbatim(general: Seq<char>, program: Option<Seq<char>>)
    requires
        exe_stem_of(general).is_some(),
        !is_known_bad(exe_stem_of(general).unwrap()),
        own_stem_of(program) != exe_stem_of(general),
    ensures
        resolved_pager(None, Some(general), program) == general,
{
}

/// A command from the general variable whose executable has the running
/// program's stem is replaced by the default, known bad pager or not.
pub proof fn lemma_general_self_replaced(general: Seq<char>, program: Seq<char>)
    requires
        exe_stem_of(general) == own_stem_of(Some(program)),
    ensures
        resolved_pager(None, Some(general), Some(program)) == default_pager(),
{
}

/// Resolving twice from the same variables and program path gives the same
/// pager.
pub proof fn lemma_resolution_repeatable(
    over1: Option<Seq<char>>,
    general1: Option<Seq<char>>,
    program1: Option<Seq<char>>,
    over2: Option<Seq<char>>,
    general2: Option<Seq<char>>,
    program2: Option<Seq<char>>,
)
    requires
        over1 == over2,
        general1 == general2,
        program1 == program2,
    ensures
        resolved_pager(over1, general1, program1) == resolved_pager(over2, general2, program2),
{
}

} // verus!
