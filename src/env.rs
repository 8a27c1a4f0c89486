use crate::pager::{opt_view, resolve_pager, resolved_pager};
use vstd::prelude::*;

verus! {

/// A path as the operating system gives it, carried through unread.
#[verifier::external_type_specification]
#[verifier::external_body]
pub struct ExPathBuf(std::path::PathBuf);

/// The environment as the viewer sees it at start-up, read once and then
/// only passed around.
#[derive(Default)]
pub struct DeltaEnv {
    pub bat_theme: Option<String>,
    pub colorterm: Option<String>,
    pub current_dir: Option<std::path::PathBuf>,
    pub experimental_max_line_distance_for_naively_paired_lines: Option<String>,
    pub features: Option<String>,
    pub git_config_parameters: Option<String>,
    pub git_prefix: Option<String>,
    pub hostname: Option<String>,
    pub navigate: Option<String>,
    /// The viewer's own pager variable, verbatim, and the pager resolved
    /// from the general pager variables.
    pub pagers: (Option<String>, Option<String>),
}

/// The two pagers of a snapshot: the viewer's own pager variable `delta`
/// as given, and the pager resolved from the override variable `over`, the
/// general variable `general` and the running program's path `program`.
pub open spec fn snapshot_pagers(
    delta: Option<Seq<char>>,
    over: Option<Seq<char>>,
    general: Option<Seq<char>>,
    program: Option<Seq<char>>,
) -> (Option<Seq<char>>, Option<Seq<char>>) {
    (delta, Some(resolved_pager(over, general, program)))
}

impl DeltaEnv {
    /// The two pagers, as optional character sequences.
    pub open spec fn pagers_view(&self) -> (Option<Seq<char>>, Option<Seq<char>>) {
        (opt_view(self.pagers.0), opt_view(self.pagers.1))
    }

    /// Builds the snapshot from the values read from the environment. Every
    /// value is stored as given; the second pager is resolved from
    /// `bat_pager` (the override), `pager` (the general variable) and
    /// `program`, the path the running program was invoked by.
    pub fn from_values(
        bat_theme: Option<String>,
        colorterm: Option<String>,
        current_dir: Option<std::path::PathBuf>,
        experimental_max_line_distance_for_naively_paired_lines: Option<String>,
        features: Option<String>,
        git_config_parameters: Option<String>,
        git_prefix: Option<String>,
        hostname: Option<String>,
        navigate: Option<String>,
        delta_pager: Option<String>,
        bat_pager: Option<String>,
        pager: Option<String>,
        program: Option<String>,
    ) -> (r: Self)
        ensures
            r.bat_theme == bat_theme,
            r.colorterm == colorterm,
            r.current_dir == current_dir,
            r.experimental_max_line_distance_for_naively_paired_lines
                == experimental_max_line_distance_for_naively_paired_lines,
            r.features == features,
            r.git_config_parameters == git_config_parameters,
            r.git_prefix == git_prefix,
            r.hostname == hostname,
            r.navigate == navigate,
            r.pagers.0 == delta_pager,
            r.pagers.1.is_some(),
            r.pagers_view() == snapshot_pagers(
                opt_view(delta_pager),
                opt_view(bat_pager),
                opt_view(pager),
                opt_view(program),
            ),
    {
        let fallback = resolve_pager(bat_pager, pager, program);
        DeltaEnv {
            bat_theme,
            colorterm,
            current_dir,
            experimental_max_line_distance_for_naively_paired_lines,
            features,
            git_config_parameters,
            git_prefix,
            hostname,
            navigate,
            pagers: (delta_pager, Some(fallback)),
        }
    }
}

impl Clone for DeltaEnv {
    fn clone(&self) -> (r: Self)
        ensures
            opt_view(r.bat_theme) == opt_view(self.bat_theme),
            opt_view(r.colorterm) == opt_view(self.colorterm),
            opt_view(r.experimental_max_line_distance_for_naively_paired_lines) == opt_view(
                self.experimental_max_line_distance_for_naively_paired_lines,
            ),
            opt_view(r.features) == opt_view(self.features),
            opt_view(r.git_config_parameters) == opt_view(self.git_config_parameters),
            opt_view(r.git_prefix) == opt_view(self.git_prefix),
            opt_view(r.hostname) == opt_view(self.hostname),
            opt_view(r.navigate) == opt_view(self.navigate),
            r.current_dir.is_some() == self.current_dir.is_some(),
            r.pagers_view() == self.pagers_view(),
    {
        DeltaEnv {
            bat_theme: self.bat_theme.clone(),
            colorterm: self.colorterm.clone(),
            current_dir: self.current_dir.clone(),
            experimental_max_line_distance_for_naively_paired_lines: self
                .experimental_max_line_distance_for_naively_paired_lines
                .clone(),
            features: self.features.clone(),
            git_config_parameters: self.git_config_parameters.clone(),
            git_prefix: self.git_prefix.clone(),
            hostname: self.hostname.clone(),
            navigate: self.navigate.clone(),
            pagers: (self.pagers.0.clone(), self.pagers.1.clone()),
        }
    }
}

/// The first pager of a snapshot is the viewer's own variable and nothing
/// else; the second is resolved from the general pager variables alone,
/// whatever the viewer's own variable holds.
pub proof fn lemma_pagers_separate(
    delta1: Option<Seq<char>>,
    delta2: Option<Seq<char>>,
    over: Option<Seq<char>>,
    general1: Option<Seq<char>>,
    general2: Option<Seq<char>>,
    program: Option<Seq<char>>,
)
    ensures
        snapshot_pagers(delta1, over, general1, program).0 == delta1,
        snapshot_pagers(delta1, over, general1, program).0 == snapshot_pagers(
            delta1,
            over,
            general2,
            program,
        ).0,
        snapshot_pagers(delta1, over, general1, program).1 == snapshot_pagers(
            delta2,
            over,
            general1,
            program,
        ).1,
        snapshot_pagers(delta1, over, general1, program).1 == Some(
            resolved_pager(over, general1, program),
        ),
{
}

} // verus!
