//! The package-manager provider: lists installable packages from the
//! helper's repository listing, with install and remove keybindings.

use crate::cli::Mode;
use crate::errors::Error;
use crate::event::Action;
use crate::event::InitOutcome;
use crate::event::ResultEvent;
use crate::item::Item;
use crate::item::Preview;
use crate::options::EnvInfo;
use crate::options::SessionOptions;
use crate::text;
use vstd::prelude::*;
use vstd::string::StringExecFns;

verus! {

/// One listed package: its repository, name and version.
pub struct Package {
    pub repo: String,
    pub name: String,
    pub version: String,
}

/// The repository named by a listing line: its first space-separated field.
pub open spec fn repo_of_line(line: Seq<char>) -> Seq<char> {
    text::segments(line, ' ')[0]
}

/// The package named by a listing line: its second field, empty when the
/// line has only one.
pub open spec fn name_of_line(line: Seq<char>) -> Seq<char> {
    let segs = text::segments(line, ' ');
    if segs.len() > 1 {
        segs[1]
    } else {
        Seq::empty()
    }
}

/// The version named by a listing line: its third field, empty when the
/// line has fewer.
pub open spec fn version_of_line(line: Seq<char>) -> Seq<char> {
    let segs = text::segments(line, ' ');
    if segs.len() > 2 {
        segs[2]
    } else {
        Seq::empty()
    }
}

/// Parses one listing line into a package: its first three space-separated
/// fields, missing ones empty.
pub fn parse_package_line(line: &String) -> (r: Package)
    ensures
        r.repo@ == repo_of_line(line@),
        r.name@ == name_of_line(line@),
        r.version@ == version_of_line(line@),
{
    let chars = text::str_chars(line.as_str());
    let segs = text::split_segments(&chars, ' ');
    let repo = text::chars_to_string(&segs[0]);
    let name = if segs.len() > 1 {
        text::chars_to_string(&segs[1])
    } else {
        String::new()
    };
    let version = if segs.len() > 2 {
        text::chars_to_string(&segs[2])
    } else {
        String::new()
    };
    Package { repo, name, version }
}

/// The candidate line of a package: its repository in brackets, its name,
/// and its version in parentheses.
pub open spec fn package_label(p: Package) -> Seq<char> {
    "["@ + p.repo@ + "] "@ + p.name@ + " ("@ + p.version@ + ")"@
}

/// The preview of a package: the helper's info command for it.
pub open spec fn package_preview(p: Package) -> Seq<char> {
    "paru -Si "@ + p.repo@ + "/"@ + p.name@
}

/// The candidate line of a package.
pub fn package_label_text(p: &Package) -> (r: String)
    ensures
        r@ == package_label(*p),
{
    let mut r = "[".to_owned();
    r.append(p.repo.as_str());
    r.append("] ");
    r.append(p.name.as_str());
    r.append(" (");
    r.append(p.version.as_str());
    r.append(")");
    r
}

/// The preview command of a package.
pub fn package_preview_text(p: &Package) -> (r: String)
    ensures
        r@ == package_preview(*p),
{
    let mut r = "paru -Si ".to_owned();
    r.append(p.repo.as_str());
    r.append("/");
    r.append(p.name.as_str());
    r
}

/// The package-manager provider.
pub struct Paru;

impl Paru {
    /// Every invocation runs the interactive session.
    pub fn init(&self, mode: &Mode) -> (r: InitOutcome)
        ensures
            r is Proceed,
    {
        let _ = mode;
        InitOutcome::Proceed
    }

    /// The candidate set: one item per listing line, never deduplicated,
    /// labelled by repository, name and version, and previewed by the
    /// helper's info command.
    pub fn get(&self, lines: Vec<String>) -> (r: Vec<Item>)
        ensures
            r@.len() == lines.deep_view().len(),
            forall|i: int|
                0 <= i < lines.deep_view().len() ==> {
                    &&& (#[trigger] r@[i]).display@ == "["@ + repo_of_line(lines.deep_view()[i])
                        + "] "@
                        + name_of_line(lines.deep_view()[i]) + " ("@ + version_of_line(
                        lines.deep_view()[i],
                    ) + ")"@
                    &&& r@[i].output@ == r@[i].display@
                    &&& (r@[i].preview matches Preview::Command(c) && c@ == "paru -Si "@
                        + repo_of_line(lines.deep_view()[i]) + "/"@ + name_of_line(
                        lines.deep_view()[i],
                    ))
                },
    {
        let ghost orig = lines.deep_view();
        let n = lines.len();
        let mut out: Vec<Item> = Vec::new();
        let mut i: usize = 0;
        while i < n
            invariant
                n == lines@.len(),
                orig == lines.deep_view(),
                i <= n,
                out@.len() == i,
                forall|k: int|
                    0 <= k < i ==> {
                        &&& (#[trigger] out@[k]).display@ == "["@ + repo_of_line(orig[k]) + "] "@
                            + name_of_line(orig[k]) + " ("@ + version_of_line(orig[k]) + ")"@
                        &&& out@[k].output@ == out@[k].display@
                        &&& (out@[k].preview matches Preview::Command(c) && c@ == "paru -Si "@
                            + repo_of_line(orig[k]) + "/"@ + name_of_line(orig[k]))
                    },
            decreases n - i,
        {
            let p = parse_package_line(&lines[i]);
            proof {
                assert(lines@[i as int]@ == orig[i as int]);
            }
            let display = package_label_text(&p);
            let preview = package_preview_text(&p);
            out.push(Item::from_text(display, Preview::Command(preview)));
            i += 1;
        }
        out
    }

    /// Configures the session: a preview pane, bracket, parenthesis and
    /// space field delimiting so the repository and name are the second and
    /// third fields, and keybindings that install or remove the selection.
    pub fn set_options(&self, opts: &mut SessionOptions, env: &EnvInfo)
        ensures
            final(opts).preview matches Some(p) && p@ == Seq::<char>::empty(),
            final(opts).delimiter matches Some(d) && d@ == "[ \\t\\[\\]()]+"@,
            final(opts).bind.deep_view() == old(opts).bind.deep_view().push(
                "ctrl-i:execute(paru -S --needed '{2}/{3}')"@,
            ).push("ctrl-r:execute(paru -Rs '{2}/{3}')"@),
            final(opts).query == old(opts).query,
            final(opts).cmd == old(opts).cmd,
            final(opts).interactive == old(opts).interactive,
            final(opts).show_cmd_error == old(opts).show_cmd_error,
            final(opts).header == old(opts).header,
            final(opts).preview_window == old(opts).preview_window,
    {
        let _ = env;
        opts.preview = Some(String::new());
        opts.delimiter = Some("[ \\t\\[\\]()]+".to_owned());
        let ghost bind0 = opts.bind.deep_view();
        opts.bind.push("ctrl-i:execute(paru -S --needed '{2}/{3}')".to_owned());
        let ghost bind1 = opts.bind.deep_view();
        proof {
            assert(bind1 =~~= bind0.push("ctrl-i:execute(paru -S --needed '{2}/{3}')"@));
        }
        opts.bind.push("ctrl-r:execute(paru -Rs '{2}/{3}')".to_owned());
        proof {
            assert(opts.bind.deep_view() =~~= bind1.push("ctrl-r:execute(paru -Rs '{2}/{3}')"@));
        }
    }

    /// The install and remove verbs run through their execute keybindings;
    /// the selection itself needs no terminal action.
    pub fn run(&self, event: &ResultEvent) -> (r: Result<Action, Error>)
        ensures
            r matches Ok(Action::Nothing),
    {
        let _ = event;
        Ok(Action::Nothing)
    }
}

} // verus!
