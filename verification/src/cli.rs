//! The invocation grammar: modes, their textual names, and the parsing of a
//! command line (fresh or re-invoked) into a `Cli` value.

use crate::apps::Apps;
use crate::calc::Calc;
use crate::errors::Error;
use crate::hyprctl_clients::HyprctlClients;
use crate::hyprctl_hide::HyprctlHide;
use crate::paru::Paru;
use crate::systemd_services::SystemdServices;
use crate::text;
use vstd::prelude::*;

verus! {

/// The mode of one invocation: which provider is active, with the
/// parameters that belong to it.
pub enum Mode {
    Apps {},
    Calc { eval: bool, expr: Vec<String> },
    HyprctlClients {},
    HyprctlHide { ignore_class: Option<String>, swap: Option<String> },
    SystemdServices {},
    Paru {},
}

/// The mathematical value of a `Mode`.
pub enum ModeView {
    Apps,
    Calc { eval: bool, expr: Seq<Seq<char>> },
    HyprctlClients,
    HyprctlHide { ignore_class: Option<Seq<char>>, swap: Option<Seq<char>> },
    SystemdServices,
    Paru,
}

impl View for Mode {
    type V = ModeView;

    open spec fn view(&self) -> ModeView {
        match self {
            Mode::Apps {} => ModeView::Apps,
            Mode::Calc { eval, expr } => ModeView::Calc { eval: *eval, expr: expr.deep_view() },
            Mode::HyprctlClients {} => ModeView::HyprctlClients,
            Mode::HyprctlHide { ignore_class, swap } => ModeView::HyprctlHide {
                ignore_class: ignore_class.deep_view(),
                swap: swap.deep_view(),
            },
            Mode::SystemdServices {} => ModeView::SystemdServices,
            Mode::Paru {} => ModeView::Paru,
        }
    }
}

/// One full invocation: the active mode, the initial query text, and the
/// ordered list of enabled mode names for cycling.
pub struct Cli {
    pub mode: Mode,
    pub query: Option<String>,
    pub modes: Vec<String>,
}

/// The mathematical value of a `Cli`.
pub struct CliView {
    pub mode: ModeView,
    pub query: Option<Seq<char>>,
    pub modes: Seq<Seq<char>>,
}

impl View for Cli {
    type V = CliView;

    open spec fn view(&self) -> CliView {
        CliView {
            mode: self.mode@,
            query: self.query.deep_view(),
            modes: self.modes.deep_view(),
        }
    }
}

/// The stable lowercase-hyphenated name of a mode, used both for cycling
/// comparisons and for textual re-invocation.
pub open spec fn spec_display_name(m: ModeView) -> Seq<char> {
    match m {
        ModeView::Apps => "apps"@,
        ModeView::Calc { .. } => "calc"@,
        ModeView::HyprctlClients => "hyprctl-clients"@,
        ModeView::HyprctlHide { .. } => "hyprctl-hide"@,
        ModeView::SystemdServices => "systemd-services"@,
        ModeView::Paru => "paru"@,
    }
}

impl Mode {
    /// The stable lowercase-hyphenated name of the mode.
    pub fn display_name(&self) -> (r: &'static str)
        ensures
            r@ == spec_display_name(self@),
    {
        match self {
            Mode::Apps {} => "apps",
            Mode::Calc { .. } => "calc",
            Mode::HyprctlClients {} => "hyprctl-clients",
            Mode::HyprctlHide { .. } => "hyprctl-hide",
            Mode::SystemdServices {} => "systemd-services",
            Mode::Paru {} => "paru",
        }
    }
}

/// The fresh mode that a bare mode name selects, with default parameters.
pub open spec fn mode_of_name(t: Seq<char>) -> Option<ModeView> {
    if t == "apps"@ {
        Some(ModeView::Apps)
    } else if t == "calc"@ {
        Some(ModeView::Calc { eval: false, expr: Seq::empty() })
    } else if t == "hyprctl-clients"@ {
        Some(ModeView::HyprctlClients)
    } else if t == "hyprctl-hide"@ {
        Some(ModeView::HyprctlHide { ignore_class: None, swap: None })
    } else if t == "systemd-services"@ {
        Some(ModeView::SystemdServices)
    } else if t == "paru"@ {
        Some(ModeView::Paru)
    } else {
        None
    }
}

/// What scanning a token list yields: a parsed invocation together with
/// whether a mode name was seen, or the first offending token.
pub enum ParseOutcome {
    Parsed { cli: CliView, seen_mode: bool },
    MissingValue(Seq<char>),
    Unknown(Seq<char>),
    Unexpected(Seq<char>),
}

/// One left-to-right scan of the token list. The global flags `-q`/`--query`
/// and `-m`/`--modes` may stand anywhere; the first other token selects the
/// mode; the tokens after it are the mode's own parameters: for `calc` the
/// flag `--eval` and free expression words, for `hyprctl-hide` the valued
/// flags `--ignore-class` and `--swap`, and nothing for the other modes.
pub open spec fn scan_spec(cur: CliView, tokens: Seq<Seq<char>>, seen_mode: bool) -> ParseOutcome
    decreases tokens.len(),
{
    if tokens.len() == 0 {
        ParseOutcome::Parsed { cli: cur, seen_mode }
    } else {
        let t = tokens[0];
        if t == "-q"@ || t == "--query"@ {
            if tokens.len() < 2 {
                ParseOutcome::MissingValue(t)
            } else {
                scan_spec(
                    CliView { mode: cur.mode, query: Some(tokens[1]), modes: cur.modes },
                    tokens.skip(2),
                    seen_mode,
                )
            }
        } else if t == "-m"@ || t == "--modes"@ {
            if tokens.len() < 2 {
                ParseOutcome::MissingValue(t)
            } else {
                scan_spec(
                    CliView {
                        mode: cur.mode,
                        query: cur.query,
                        modes: cur.modes + text::segments(tokens[1], ','),
                    },
                    tokens.skip(2),
                    seen_mode,
                )
            }
        } else if !seen_mode {
            match mode_of_name(t) {
                Some(m) => scan_spec(
                    CliView { mode: m, query: cur.query, modes: cur.modes },
                    tokens.skip(1),
                    true,
                ),
                None => ParseOutcome::Unknown(t),
            }
        } else {
            match cur.mode {
                ModeView::Calc { eval, expr } => if t == "--eval"@ {
                    scan_spec(
                        CliView {
                            mode: ModeView::Calc { eval: true, expr },
                            query: cur.query,
                            modes: cur.modes,
                        },
                        tokens.skip(1),
                        true,
                    )
                } else {
                    scan_spec(
                        CliView {
                            mode: ModeView::Calc { eval, expr: expr.push(t) },
                            query: cur.query,
                            modes: cur.modes,
                        },
                        tokens.skip(1),
                        true,
                    )
                },
                ModeView::HyprctlHide { ignore_class, swap } => if t == "--ignore-class"@ {
                    if tokens.len() < 2 {
                        ParseOutcome::MissingValue(t)
                    } else {
                        scan_spec(
                            CliView {
                                mode: ModeView::HyprctlHide {
                                    ignore_class: Some(tokens[1]),
                                    swap,
                                },
                                query: cur.query,
                                modes: cur.modes,
                            },
                            tokens.skip(2),
                            true,
                        )
                    }
                } else if t == "--swap"@ {
                    if tokens.len() < 2 {
                        ParseOutcome::MissingValue(t)
                    } else {
                        scan_spec(
                            CliView {
                                mode: ModeView::HyprctlHide {
                                    ignore_class,
                                    swap: Some(tokens[1]),
                                },
                                query: cur.query,
                                modes: cur.modes,
                            },
                            tokens.skip(2),
                            true,
                        )
                    }
                } else {
                    ParseOutcome::Unexpected(t)
                },
                _ => ParseOutcome::Unexpected(t),
            }
        }
    }
}

/// Appends the comma-separated segments of `v` to `modes`.
fn push_comma_segments(modes: &mut Vec<String>, v: &str)
    ensures
        final(modes).deep_view() == old(modes).deep_view() + text::segments(v@, ','),
{
    let chars = text::str_chars(v);
    let parts = text::split_segments(&chars, ',');
    let ghost segs = parts.deep_view();
    let n = parts.len();
    let mut k: usize = 0;
    proof {
        assert(old(modes).deep_view() + segs.take(0) =~~= old(modes).deep_view());
    }
    while k < n
        invariant
            n == parts@.len(),
            segs == parts.deep_view(),
            k <= n,
            modes.deep_view() == old(modes).deep_view() + segs.take(k as int),
        decreases n - k,
    {
        let ghost prev = modes.deep_view();
        let t = text::chars_to_string(&parts[k]);
        modes.push(t);
        proof {
            assert(modes.deep_view() =~~= prev.push(segs[k as int]));
            assert(prev.push(segs[k as int]) =~~= old(modes).deep_view() + segs.take(k + 1 as int));
        }
        k += 1;
    }
    proof {
        assert(segs.take(n as int) =~~= segs);
    }
}

/// Scans the token list from position `i`, carrying the invocation built so
/// far. Mirrors `scan_spec` exactly.
fn scan(cur: Cli, tokens: &Vec<String>, i: usize, seen_mode: bool) -> (r: Result<(Cli, bool), Error>)
    requires
        i <= tokens@.len(),
    ensures
        (match scan_spec(cur@, tokens.deep_view().skip(i as int), seen_mode) {
            ParseOutcome::Parsed { cli, seen_mode: sm } => r matches Ok((c, s)) && c@ == cli && s
                == sm,
            ParseOutcome::MissingValue(f) => r matches Err(Error::MissingFlagValue { flag })
                && flag@ == f,
            ParseOutcome::Unknown(n) => r matches Err(Error::UnknownMode { name }) && name@ == n,
            ParseOutcome::Unexpected(a) => r matches Err(Error::UnexpectedArgument { arg })
                && arg@ == a,
        }),
    decreases tokens@.len() - i,
{
    let ghost cv = cur@;
    let ghost tks = tokens.deep_view().skip(i as int);
    if i == tokens.len() {
        proof {
            assert(tks.len() == 0);
        }
        return Ok((cur, seen_mode));
    }
    proof {
        assert(tks[0] == tokens.deep_view()[i as int]);
        assert(tks.skip(1) =~~= tokens.deep_view().skip(i + 1 as int));
        if i + 2 <= tokens@.len() {
            assert(tks[1] == tokens.deep_view()[i + 1 as int]);
            assert(tks.skip(2) =~~= tokens.deep_view().skip(i + 2 as int));
        }
    }
    let t = &tokens[i];
    if text::string_is(t, "-q") || text::string_is(t, "--query") {
        if i + 1 == tokens.len() {
            return Err(Error::MissingFlagValue { flag: t.clone() });
        }
        let v = tokens[i + 1].clone();
        let next = Cli { mode: cur.mode, query: Some(v), modes: cur.modes };
        proof {
            assert(next@ == (CliView { mode: cv.mode, query: Some(tks[1]), modes: cv.modes }));
        }
        scan(next, tokens, i + 2, seen_mode)
    } else if text::string_is(t, "-m") || text::string_is(t, "--modes") {
        if i + 1 == tokens.len() {
            return Err(Error::MissingFlagValue { flag: t.clone() });
        }
        let mut modes = cur.modes;
        push_comma_segments(&mut modes, tokens[i + 1].as_str());
        let next = Cli { mode: cur.mode, query: cur.query, modes };
        proof {
            assert(next@ == (CliView {
                mode: cv.mode,
                query: cv.query,
                modes: cv.modes + text::segments(tks[1], ','),
            }));
        }
        scan(next, tokens, i + 2, seen_mode)
    } else if !seen_mode {
        let empty_expr: Vec<String> = Vec::new();
        proof {
            assert(empty_expr.deep_view() =~~= Seq::<Seq<char>>::empty());
        }
        let m: Mode = if text::string_is(t, "apps") {
            Mode::Apps {}
        } else if text::string_is(t, "calc") {
            Mode::Calc { eval: false, expr: empty_expr }
        } else if text::string_is(t, "hyprctl-clients") {
            Mode::HyprctlClients {}
        } else if text::string_is(t, "hyprctl-hide") {
            Mode::HyprctlHide { ignore_class: None, swap: None }
        } else if text::string_is(t, "systemd-services") {
            Mode::SystemdServices {}
        } else if text::string_is(t, "paru") {
            Mode::Paru {}
        } else {
            return Err(Error::UnknownMode { name: t.clone() });
        };
        proof {
            assert(mode_of_name(tks[0]) == Some(m@));
        }
        let next = Cli { mode: m, query: cur.query, modes: cur.modes };
        scan(next, tokens, i + 1, true)
    } else {
        match cur.mode {
            Mode::Calc { eval, expr } => {
                if text::string_is(t, "--eval") {
                    let next = Cli {
                        mode: Mode::Calc { eval: true, expr },
                        query: cur.query,
                        modes: cur.modes,
                    };
                    scan(next, tokens, i + 1, true)
                } else {
                    let mut expr = expr;
                    let ghost old_expr = expr.deep_view();
                    expr.push(t.clone());
                    proof {
                        assert(expr.deep_view() =~~= old_expr.push(tks[0]));
                    }
                    let next = Cli {
                        mode: Mode::Calc { eval, expr },
                        query: cur.query,
                        modes: cur.modes,
                    };
                    scan(next, tokens, i + 1, true)
                }
            },
            Mode::HyprctlHide { ignore_class, swap } => {
                if text::string_is(t, "--ignore-class") {
                    if i + 1 == tokens.len() {
                        return Err(Error::MissingFlagValue { flag: t.clone() });
                    }
                    let v = tokens[i + 1].clone();
                    let next = Cli {
                        mode: Mode::HyprctlHide { ignore_class: Some(v), swap },
                        query: cur.query,
                        modes: cur.modes,
                    };
                    scan(next, tokens, i + 2, true)
                } else if text::string_is(t, "--swap") {
                    if i + 1 == tokens.len() {
                        return Err(Error::MissingFlagValue { flag: t.clone() });
                    }
                    let v = tokens[i + 1].clone();
                    let next = Cli {
                        mode: Mode::HyprctlHide { ignore_class, swap: Some(v) },
                        query: cur.query,
                        modes: cur.modes,
                    };
                    scan(next, tokens, i + 2, true)
                } else {
                    Err(Error::UnexpectedArgument { arg: t.clone() })
                }
            },
            _ => Err(Error::UnexpectedArgument { arg: t.clone() }),
        }
    }
}

/// Parses a fresh invocation from its tokens (the executable name excluded).
/// A mode name is required; the global flags may stand anywhere.
pub fn parse_args(tokens: &Vec<String>) -> (r: Result<Cli, Error>)
    ensures
        (match scan_spec(
            CliView { mode: ModeView::Apps, query: None, modes: Seq::empty() },
            tokens.deep_view(),
            false,
        ) {
            ParseOutcome::Parsed { cli, seen_mode } => if seen_mode {
                r matches Ok(c) && c@ == cli
            } else {
                r matches Err(Error::MissingMode)
            },
            ParseOutcome::MissingValue(f) => r matches Err(Error::MissingFlagValue { flag })
                && flag@ == f,
            ParseOutcome::Unknown(n) => r matches Err(Error::UnknownMode { name }) && name@ == n,
            ParseOutcome::Unexpected(a) => r matches Err(Error::UnexpectedArgument { arg })
                && arg@ == a,
        }),
{
    let empty_modes: Vec<String> = Vec::new();
    proof {
        assert(empty_modes.deep_view() =~~= Seq::<Seq<char>>::empty());
    }
    let base = Cli { mode: Mode::Apps {}, query: None, modes: empty_modes };
    proof {
        assert(base@ == (CliView { mode: ModeView::Apps, query: None, modes: Seq::empty() }));
        assert(tokens.deep_view().skip(0) =~~= tokens.deep_view());
    }
    match scan(base, tokens, 0, false) {
        Ok((cli, seen)) => if seen {
            Ok(cli)
        } else {
            Err(Error::MissingMode)
        },
        Err(e) => Err(e),
    }
}

/// Re-parses a substituted argument line on top of an existing invocation:
/// the query and the enabled-mode list carry over unless the new tokens set
/// them, and a mode name replaces the active mode with fresh parameters.
pub fn update_args(base: Cli, tokens: &Vec<String>) -> (r: Result<Cli, Error>)
    ensures
        (match scan_spec(base@, tokens.deep_view(), false) {
            ParseOutcome::Parsed { cli, .. } => r matches Ok(c) && c@ == cli,
            ParseOutcome::MissingValue(f) => r matches Err(Error::MissingFlagValue { flag })
                && flag@ == f,
            ParseOutcome::Unknown(n) => r matches Err(Error::UnknownMode { name }) && name@ == n,
            ParseOutcome::Unexpected(a) => r matches Err(Error::UnexpectedArgument { arg })
                && arg@ == a,
        }),
{
    proof {
        assert(tokens.deep_view().skip(0) =~~= tokens.deep_view());
    }
    match scan(base, tokens, 0, false) {
        Ok((cli, _)) => Ok(cli),
        Err(e) => Err(e),
    }
}


/// The provider a mode resolves to: a closed set of capability
/// implementations, one per compiled-in mode.
pub enum Provider {
    Apps(Apps),
    Calc(Calc),
    HyprctlClients(HyprctlClients),
    HyprctlHide(HyprctlHide),
    SystemdServices(SystemdServices),
    Paru(Paru),
}

/// The provider `p` is the one that the mode `m` selects, parameters
/// included.
pub open spec fn provider_matches(m: ModeView, p: Provider) -> bool {
    match m {
        ModeView::Apps => p is Apps,
        ModeView::Calc { .. } => p is Calc,
        ModeView::HyprctlClients => p is HyprctlClients,
        ModeView::HyprctlHide { ignore_class, swap } => p matches Provider::HyprctlHide(h)
            && h.ignore_class.deep_view() == ignore_class && h.swap.deep_view() == swap,
        ModeView::SystemdServices => p is SystemdServices,
        ModeView::Paru => p is Paru,
    }
}

/// Resolves a mode to its provider: a total function over the compiled-in
/// set of modes.
pub fn parse_mode(mode: &Mode) -> (r: Provider)
    ensures
        provider_matches(mode@, r),
{
    match mode {
        Mode::Apps {} => Provider::Apps(Apps),
        Mode::Calc { .. } => Provider::Calc(Calc),
        Mode::HyprctlClients {} => Provider::HyprctlClients(HyprctlClients),
        Mode::HyprctlHide { ignore_class, swap } => {
            let ic = match ignore_class {
                Some(v) => Some(v.clone()),
                None => None,
            };
            let sw = match swap {
                Some(v) => Some(v.clone()),
                None => None,
            };
            Provider::HyprctlHide(HyprctlHide { ignore_class: ic, swap: sw })
        },
        Mode::SystemdServices {} => Provider::SystemdServices(SystemdServices),
        Mode::Paru {} => Provider::Paru(Paru),
    }
}


/// The same mode variant with fresh default parameters: what a bare mode
/// name selects.
pub open spec fn fresh_mode(m: ModeView) -> ModeView {
    match m {
        ModeView::Apps => ModeView::Apps,
        ModeView::Calc { .. } => ModeView::Calc { eval: false, expr: Seq::empty() },
        ModeView::HyprctlClients => ModeView::HyprctlClients,
        ModeView::HyprctlHide { .. } => ModeView::HyprctlHide { ignore_class: None, swap: None },
        ModeView::SystemdServices => ModeView::SystemdServices,
        ModeView::Paru => ModeView::Paru,
    }
}

/// Textual re-invocation by bare mode name is lossless on the variant: a
/// mode's display name always parses back to the same mode, with fresh
/// parameters.
pub proof fn lemma_display_name_resolves(m: ModeView)
    ensures
        mode_of_name(spec_display_name(m)) == Some(fresh_mode(m)),
{
    reveal_strlit("apps");
    reveal_strlit("calc");
    reveal_strlit("hyprctl-clients");
    reveal_strlit("hyprctl-hide");
    reveal_strlit("systemd-services");
    reveal_strlit("paru");
    match m {
        ModeView::Apps => {
            assert(mode_of_name("apps"@) == Some(ModeView::Apps));
        },
        ModeView::Calc { .. } => {
            assert("calc"@[0] != "apps"@[0]);
            assert(mode_of_name("calc"@) == Some(
                ModeView::Calc { eval: false, expr: Seq::empty() },
            ));
        },
        ModeView::HyprctlClients => {
            assert("hyprctl-clients"@.len() != "apps"@.len());
            assert("hyprctl-clients"@.len() != "calc"@.len());
            assert(mode_of_name("hyprctl-clients"@) == Some(ModeView::HyprctlClients));
        },
        ModeView::HyprctlHide { .. } => {
            assert("hyprctl-hide"@.len() != "apps"@.len());
            assert("hyprctl-hide"@.len() != "calc"@.len());
            assert("hyprctl-hide"@.len() != "hyprctl-clients"@.len());
            assert(mode_of_name("hyprctl-hide"@) == Some(
                ModeView::HyprctlHide { ignore_class: None, swap: None },
            ));
        },
        ModeView::SystemdServices => {
            assert("systemd-services"@.len() != "apps"@.len());
            assert("systemd-services"@.len() != "calc"@.len());
            assert("systemd-services"@.len() != "hyprctl-clients"@.len());
            assert("systemd-services"@.len() != "hyprctl-hide"@.len());
            assert(mode_of_name("systemd-services"@) == Some(ModeView::SystemdServices));
        },
        ModeView::Paru => {
            assert("paru"@[0] != "apps"@[0]);
            assert("paru"@[0] != "calc"@[0]);
            assert("paru"@.len() != "hyprctl-clients"@.len());
            assert("paru"@.len() != "hyprctl-hide"@.len());
            assert("paru"@.len() != "systemd-services"@.len());
            assert(mode_of_name("paru"@) == Some(ModeView::Paru));
        },
    }
}

} // verus!
