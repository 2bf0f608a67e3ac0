//! The session configuration builder: the option record handed to the picker
//! engine, the environment-supplied defaults, and the cross-cutting
//! mode-cycle keybinding.

use crate::calc::CalcMemory;
use crate::cli::Mode;
use crate::cli::spec_display_name;
use crate::errors::Error;
use crate::text;
use vstd::arithmetic::div_mod::lemma_add_mod_noop;
use vstd::arithmetic::div_mod::lemma_mod_add_multiples_vanish;
use vstd::arithmetic::div_mod::lemma_small_mod;
use vstd::prelude::*;
use vstd::string::StringExecFns;

verus! {

/// The merged configuration of one picker session: initial query text, an
/// optional external command that sources the candidates, the keybinding
/// table, header text, preview settings and the field delimiter. Fields left
/// unset fall back to the engine's own defaults.
pub struct SessionOptions {
    pub query: Option<String>,
    pub cmd: Option<String>,
    pub interactive: bool,
    pub show_cmd_error: bool,
    pub bind: Vec<String>,
    pub header: Option<String>,
    pub preview: Option<String>,
    pub preview_window: Option<String>,
    pub delimiter: Option<String>,
}

impl SessionOptions {
    /// A configuration that overrides nothing.
    pub fn new() -> (r: SessionOptions)
        ensures
            r.query is None,
            r.cmd is None,
            !r.interactive,
            !r.show_cmd_error,
            r.bind.deep_view() == Seq::<Seq<char>>::empty(),
            r.header is None,
            r.preview is None,
            r.preview_window is None,
            r.delimiter is None,
    {
        let bind: Vec<String> = Vec::new();
        proof {
            assert(bind.deep_view() =~~= Seq::<Seq<char>>::empty());
        }
        SessionOptions {
            query: None,
            cmd: None,
            interactive: false,
            show_cmd_error: false,
            bind,
            header: None,
            preview: None,
            preview_window: None,
            delimiter: None,
        }
    }
}

/// Plain facts about the process environment that option building needs:
/// the path of the running executable, the header carried by the
/// environment-supplied engine defaults (if any), and the calculator's
/// remembered previous result.
pub struct EnvInfo {
    pub exe: String,
    pub default_header: Option<String>,
    pub memory: CalcMemory,
}

/// What shell-lexing a text yields, named: `shlex` word splitting is a
/// function of the characters alone.
pub uninterp spec fn shell_words(s: Seq<char>) -> Option<Seq<Seq<char>>>;

/// Relies on `shlex::split`: splits a text into shell words, `None` on
/// erroneous input such as an unclosed quote.
#[verifier::external_body]
fn shlex_split(s: &str) -> (r: Option<Vec<String>>)
    ensures
        r is Some <==> shell_words(s@) is Some,
        r matches Some(v) ==> v.deep_view() == shell_words(s@)->0,
{
    shlex::split(s)
}

/// The engine's default argument vector: the program name `sk`, followed by
/// the shell words of the environment-supplied default options when those
/// are present and lex cleanly, and by nothing otherwise.
pub fn default_engine_args(env_value: &Option<String>) -> (r: Vec<String>)
    ensures
        (match env_value {
            Some(v) => match shell_words(v@) {
                Some(ws) => r.deep_view() == seq!["sk"@] + ws,
                None => r.deep_view() == seq!["sk"@],
            },
            None => r.deep_view() == seq!["sk"@],
        }),
{
    let mut r: Vec<String> = Vec::new();
    r.push("sk".to_owned());
    proof {
        assert(r.deep_view() =~~= seq!["sk"@]);
    }
    match env_value {
        Some(v) => {
            match shlex_split(v.as_str()) {
                Some(words) => {
                    text::push_all_strings(&mut r, &words);
                    r
                },
                None => r,
            }
        },
        None => r,
    }
}

/// The result of Unicode lowercasing, named: it depends on the characters
/// alone.
pub uninterp spec fn lower_of(s: Seq<char>) -> Seq<char>;

/// Relies on `str::to_lowercase`: the lowercase form of a string, a function
/// of its characters alone.
#[verifier::external_body]
fn lowercase(s: &str) -> (r: String)
    ensures
        r@ == lower_of(s@),
{
    s.to_lowercase()
}

/// The enabled-mode entry `m` names the mode called `name`, compared
/// case-insensitively.
pub open spec fn cycle_match(m: Seq<char>, name: Seq<char>) -> bool {
    lower_of(m) == lower_of(name)
}

/// `i` is the position of the first enabled-mode entry that matches `name`.
pub open spec fn is_first_cycle_match(modes: Seq<Seq<char>>, name: Seq<char>, i: int) -> bool {
    &&& 0 <= i < modes.len()
    &&& cycle_match(modes[i], name)
    &&& forall|j: int| 0 <= j < i ==> !cycle_match(modes[j], name)
}

/// The position of the current mode in the enabled-mode list, or `None` when
/// no entry matches it.
fn find_cycle_index(modes: &Vec<String>, name: &str) -> (r: Option<usize>)
    ensures
        (match r {
            Some(i) => is_first_cycle_match(modes.deep_view(), name@, i as int),
            None => forall|j: int|
                0 <= j < modes.deep_view().len() ==> !cycle_match(modes.deep_view()[j], name@),
        }),
{
    let target = lowercase(name);
    let n = modes.len();
    let mut i: usize = 0;
    while i < n
        invariant
            n == modes@.len(),
            i <= n,
            target@ == lower_of(name@),
            forall|j: int| 0 <= j < i ==> !cycle_match(modes.deep_view()[j], name@),
        decreases n - i,
    {
        let entry = lowercase(modes[i].as_str());
        if entry == target {
            proof {
                assert(modes.deep_view()[i as int] == modes@[i as int]@);
            }
            return Some(i);
        }
        proof {
            assert(modes.deep_view()[i as int] == modes@[i as int]@);
        }
        i += 1;
    }
    None
}

/// Registers the mode-cycle keybinding: when an enabled-mode list is given
/// and holds the current mode, the dedicated key accepts with the next
/// mode's name as the re-invocation template, and the header names that next
/// mode. An empty list changes nothing; a list without the current mode is a
/// configuration error and changes nothing.
pub fn apply_mode_cycle(opts: &mut SessionOptions, modes: &Vec<String>, current: &Mode) -> (r:
    Result<(), Error>)
    ensures
        modes.deep_view().len() == 0 ==> r is Ok && *final(opts) == *old(opts),
        (modes.deep_view().len() > 0 && (forall|j: int|
            0 <= j < modes.deep_view().len() ==> !cycle_match(
                modes.deep_view()[j],
                spec_display_name(current@),
            ))) ==> (r matches Err(Error::ModeNotInCycleList) && *final(opts) == *old(opts)),
        (exists|i: int|
            is_first_cycle_match(modes.deep_view(), spec_display_name(current@), i)) ==> {
            let i = choose|i: int|
                is_first_cycle_match(modes.deep_view(), spec_display_name(current@), i);
            let next = modes.deep_view()[(i + 1) % (modes.deep_view().len() as int)];
            &&& r is Ok
            &&& final(opts).bind.deep_view() == old(opts).bind.deep_view().push(
                "tab:accept("@ + next + ")"@,
            )
            &&& (match old(opts).header {
                Some(h) => final(opts).header matches Some(h2) && h2@ == h@
                    + " --- next mode(tab): "@ + next,
                None => final(opts).header matches Some(h2) && h2@ == "next mode(tab): "@ + next,
            })
            &&& final(opts).query == old(opts).query
            &&& final(opts).cmd == old(opts).cmd
            &&& final(opts).interactive == old(opts).interactive
            &&& final(opts).show_cmd_error == old(opts).show_cmd_error
            &&& final(opts).preview == old(opts).preview
            &&& final(opts).preview_window == old(opts).preview_window
            &&& final(opts).delimiter == old(opts).delimiter
        },
{
    let ghost name = spec_display_name(current@);
    if modes.len() == 0 {
        return Ok(());
    }
    let idx = match find_cycle_index(modes, current.display_name()) {
        Some(i) => i,
        None => {
            return Err(Error::ModeNotInCycleList);
        },
    };
    proof {
        let w = choose|i: int| is_first_cycle_match(modes.deep_view(), name, i);
        assert(is_first_cycle_match(modes.deep_view(), name, idx as int));
        if w != idx as int {
            if w < idx as int {
                assert(cycle_match(modes.deep_view()[w], name));
            } else {
                assert(cycle_match(modes.deep_view()[idx as int], name));
            }
        }
        assert(w == idx as int);
    }
    let n = modes.len();
    let next_idx = if idx + 1 == n {
        proof {
            lemma_mod_add_multiples_vanish(0, n as int);
            lemma_small_mod(0, n as nat);
        }
        0
    } else {
        proof {
            lemma_small_mod((idx + 1) as nat, n as nat);
        }
        idx + 1
    };
    proof {
        assert(next_idx as int == (idx + 1) % (n as int));
    }
    let next = modes[next_idx].clone();
    let mut bind_entry = "tab:accept(".to_owned();
    bind_entry.append(next.as_str());
    bind_entry.append(")");
    let ghost old_bind = opts.bind.deep_view();
    opts.bind.push(bind_entry);
    proof {
        assert(opts.bind.deep_view() =~~= old_bind.push("tab:accept("@ + next@ + ")"@));
    }
    let new_header = match &opts.header {
        Some(h) => {
            let mut s = h.clone();
            s.append(" --- next mode(tab): ");
            s.append(next.as_str());
            s
        },
        None => {
            let mut s = "next mode(tab): ".to_owned();
            s.append(next.as_str());
            s
        },
    };
    opts.header = Some(new_header);
    Ok(())
}

/// The cycle position after one key press: a pure rotation.
pub open spec fn next_cycle_index(i: int, n: int) -> int {
    (i + 1) % n
}

/// The cycle position after `k` key presses.
pub open spec fn iterated_cycle_index(i: int, n: int, k: nat) -> int
    decreases k,
{
    if k == 0 {
        i
    } else {
        next_cycle_index(iterated_cycle_index(i, n, (k - 1) as nat), n)
    }
}

proof fn lemma_iterated_cycle_index(i: int, n: int, k: nat)
    requires
        0 <= i < n,
    ensures
        iterated_cycle_index(i, n, k) == (i + k) % n,
    decreases k,
{
    if k == 0 {
        lemma_small_mod(i as nat, n as nat);
    } else {
        lemma_iterated_cycle_index(i, n, (k - 1) as nat);
        let prev = (i + k - 1) % n;
        lemma_add_mod_noop(i + k - 1, 1, n);
        if n == 1 {
            lemma_small_mod(0, 1);
        } else {
            lemma_small_mod(1, n as nat);
        }
        assert((prev + 1int % n) % n == (i + k) % n);
    }
}

/// Mode-cycling is a pure rotation: from position `i` in an enabled-mode
/// list of length `n`, pressing the cycle key `n` times returns to `i`.
pub proof fn lemma_cycle_rotation(i: int, n: int)
    requires
        0 <= i < n,
    ensures
        iterated_cycle_index(i, n, n as nat) == i,
{
    lemma_iterated_cycle_index(i, n, n as nat);
    lemma_mod_add_multiples_vanish(i, n);
    lemma_small_mod(i as nat, n as nat);
}

} // verus!
