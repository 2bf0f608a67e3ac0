//! The service-manager provider: lists the service units of the system and
//! user managers, with a journal-backed preview and keybindings that
//! restart, stop or start the selected unit and then chain back into the
//! same mode.

use crate::cli::Mode;
use crate::errors::Error;
use crate::event::Action;
use crate::event::InitOutcome;
use crate::event::ResultEvent;
use crate::item::Item;
use crate::item::Preview;
use crate::options::EnvInfo;
use crate::options::SessionOptions;
use crate::text;
use vstd::prelude::*;
use vstd::string::StringExecFns;

verus! {

/// One service unit, as plain values: what the listing reads of a manager's
/// unit record, plus which manager (system or user) it came from.
pub struct SystemdService {
    pub name: String,
    pub desc: String,
    pub load_state: String,
    pub active_state: String,
    pub is_user: bool,
    pub sub_state: String,
    pub follower: String,
    pub object_path: String,
    pub job_id: u32,
    pub job_type: String,
    pub job_object_path: String,
}

/// Which manager a unit belongs to, as text.
pub open spec fn spec_manager_text(is_user: bool) -> Seq<char> {
    if is_user {
        "user"@
    } else {
        "system"@
    }
}

/// Which manager a unit belongs to, as text.
pub fn manager_text(is_user: bool) -> (r: &'static str)
    ensures
        r@ == spec_manager_text(is_user),
{
    if is_user {
        "user"
    } else {
        "system"
    }
}

/// The candidate line of a unit: its manager in brackets, its name and its
/// load and active states.
pub open spec fn service_label(u: SystemdService) -> Seq<char> {
    "["@ + spec_manager_text(u.is_user) + "] "@ + u.name@ + " "@ + u.load_state@ + " "@
        + u.active_state@
}

/// The preview of a unit: a shell script that prints its fields and then
/// its journal.
pub open spec fn service_preview(u: SystemdService) -> Seq<char> {
    "\necho Name: "@ + u.name@ + "\necho Description: "@ + u.desc@ + "\necho States: "@
        + u.load_state@ + ", "@ + u.active_state@ + ", "@ + u.sub_state@ + "\necho Path: "@
        + u.object_path@ + "\nif [ ! -z "@ + u.follower@ + " ]; then echo Follower: "@
        + u.follower@ + "; fi\nif [ -ne "@ + text::dec_seq(u.job_id as nat)
        + " 0 ]; then echo; echo Job: id "@ + text::dec_seq(u.job_id as nat) + ", type "@
        + u.job_type@ + ", path "@ + u.job_object_path@
        + "; fi\necho\necho --- logs ---\necho\njournalctl --"@ + spec_manager_text(u.is_user)
        + " -xreu "@ + u.name@ + "\n"@
}

/// The candidate line of a unit.
pub fn service_label_text(u: &SystemdService) -> (r: String)
    ensures
        r@ == service_label(*u),
{
    let mut r = "[".to_owned();
    r.append(manager_text(u.is_user));
    r.append("] ");
    r.append(u.name.as_str());
    r.append(" ");
    r.append(u.load_state.as_str());
    r.append(" ");
    r.append(u.active_state.as_str());
    r
}

/// The preview script of a unit.
pub fn service_preview_text(u: &SystemdService) -> (r: String)
    ensures
        r@ == service_preview(*u),
{
    let job_id = text::u64_to_string(u.job_id as u64);
    let mut r = "\necho Name: ".to_owned();
    r.append(u.name.as_str());
    r.append("\necho Description: ");
    r.append(u.desc.as_str());
    r.append("\necho States: ");
    r.append(u.load_state.as_str());
    r.append(", ");
    r.append(u.active_state.as_str());
    r.append(", ");
    r.append(u.sub_state.as_str());
    r.append("\necho Path: ");
    r.append(u.object_path.as_str());
    r.append("\nif [ ! -z ");
    r.append(u.follower.as_str());
    r.append(" ]; then echo Follower: ");
    r.append(u.follower.as_str());
    r.append("; fi\nif [ -ne ");
    r.append(job_id.as_str());
    r.append(" 0 ]; then echo; echo Job: id ");
    r.append(job_id.as_str());
    r.append(", type ");
    r.append(u.job_type.as_str());
    r.append(", path ");
    r.append(u.job_object_path.as_str());
    r.append("; fi\necho\necho --- logs ---\necho\njournalctl --");
    r.append(manager_text(u.is_user));
    r.append(" -xreu ");
    r.append(u.name.as_str());
    r.append("\n");
    r
}

/// Only service units are listed.
pub open spec fn is_service_unit(u: SystemdService) -> bool {
    text::ends_with(u.name@, ".service"@)
}

/// Keeps the units whose name carries the `.service` suffix.
fn filter_services(units: Vec<SystemdService>) -> (r: Vec<SystemdService>)
    ensures
        r@ == units@.filter(|u: SystemdService| is_service_unit(u)),
{
    let ghost pred = |u: SystemdService| is_service_unit(u);
    proof {
        reveal_strlit(".service");
    }
    let suffix = text::str_chars(".service");
    let mut src = units;
    let mut out: Vec<SystemdService> = Vec::new();
    proof {
        reveal(Seq::filter);
        assert(Seq::<SystemdService>::empty() + out@ =~= out@);
    }
    while src.len() > 0
        invariant
            pred == (|u: SystemdService| is_service_unit(u)),
            suffix@ == ".service"@,
            units@.filter(pred) == src@.filter(pred) + out@,
        decreases src@.len(),
    {
        let ghost old_src = src@;
        let u = src.pop().unwrap();
        proof {
            reveal(Seq::filter);
            assert(old_src.drop_last() =~= src@);
            assert(old_src.last() == u);
        }
        let name_chars = text::str_chars(u.name.as_str());
        let keep = text::chars_end_with(&name_chars, &suffix);
        proof {
            assert(keep == pred(u));
            if keep {
                assert(old_src.filter(pred) =~= src@.filter(pred).push(u));
            } else {
                assert(old_src.filter(pred) =~= src@.filter(pred));
            }
        }
        if keep {
            out.insert(0, u);
            proof {
                assert(src@.filter(pred).push(u) + out@.skip(1) =~= src@.filter(pred) + out@);
            }
        }
    }
    proof {
        reveal(Seq::filter);
        assert(src@.filter(pred) =~= Seq::<SystemdService>::empty());
        assert(Seq::<SystemdService>::empty() + out@ =~= out@);
    }
    out
}

/// The keybinding that runs a service-manager verb on the selected unit and
/// chains back into the service list with the query kept.
pub fn bind_systemctl(key: &str, cmd: &str) -> (r: String)
    ensures
        r@ == key@ + ":execute(systemctl "@ + cmd@
            + " --{2} {3})+accept(--query {q} systemd-services)"@,
{
    let mut r = key.to_owned();
    r.append(":execute(systemctl ");
    r.append(cmd);
    r.append(" --{2} {3})+accept(--query {q} systemd-services)");
    r
}

/// Lists the service units of the system and user managers.
pub struct SystemdServices;

impl SystemdServices {
    /// Every invocation runs the interactive session.
    pub fn init(&self, mode: &Mode) -> (r: InitOutcome)
        ensures
            r is Proceed,
    {
        let _ = mode;
        InitOutcome::Proceed
    }

    /// The candidate set: one item per service unit, in the order the
    /// managers reported them, each matched and output by its label and
    /// previewed by its field-and-journal script.
    pub fn get(&self, units: Vec<SystemdService>) -> (r: Vec<Item>)
        ensures
            ({
                let kept = units@.filter(|u: SystemdService| is_service_unit(u));
                &&& r@.len() == kept.len()
                &&& forall|i: int|
                    0 <= i < kept.len() ==> (#[trigger] r@[i]).display@ == service_label(kept[i])
                        && r@[i].output@ == service_label(kept[i]) && (r@[i].preview
                        matches Preview::Command(p) && p@ == service_preview(kept[i]))
            }),
    {
        let kept = filter_services(units);
        let ghost orig = kept@;
        let mut src = kept;
        let mut out: Vec<Item> = Vec::new();
        while src.len() > 0
            invariant
                out@.len() + src@.len() == orig.len(),
                src@ == orig.skip(out@.len() as int),
                forall|i: int|
                    0 <= i < out@.len() ==> (#[trigger] out@[i]).display@ == service_label(orig[i])
                        && out@[i].output@ == service_label(orig[i]) && (out@[i].preview
                        matches Preview::Command(p) && p@ == service_preview(orig[i])),
            decreases src@.len(),
        {
            let ghost k = out@.len();
            let u = src.remove(0);
            proof {
                assert(orig.skip(k as int)[0] == orig[k as int]);
                assert(orig.skip(k as int).remove(0) =~= orig.skip(k + 1 as int));
            }
            let display = service_label_text(&u);
            let preview = service_preview_text(&u);
            out.push(Item::from_text(display, Preview::Command(preview)));
        }
        out
    }

    /// Configures the session: a large preview pane, bracket-and-space field
    /// delimiting so the unit name is the third field, and the three verbs
    /// on three distinct keys, as the header promises: restart on ctrl-r,
    /// stop on ctrl-s, start on ctrl-t.
    pub fn set_options(&self, opts: &mut SessionOptions, env: &EnvInfo)
        ensures
            final(opts).preview matches Some(p) && p@ == Seq::<char>::empty(),
            final(opts).bind.deep_view() == old(opts).bind.deep_view().push(
                "ctrl-r"@ + ":execute(systemctl "@ + "restart"@
                    + " --{2} {3})+accept(--query {q} systemd-services)"@,
            ).push(
                "ctrl-s"@ + ":execute(systemctl "@ + "stop"@
                    + " --{2} {3})+accept(--query {q} systemd-services)"@,
            ).push(
                "ctrl-t"@ + ":execute(systemctl "@ + "start"@
                    + " --{2} {3})+accept(--query {q} systemd-services)"@,
            ),
            final(opts).preview_window matches Some(pw) && pw@ == "up:80%"@,
            final(opts).delimiter matches Some(d) && d@ == "[\\[\\] \\t]+"@,
            final(opts).header matches Some(h) && h@
                == "systemctl - restart: ^r | stop: ^s | start: ^t"@,
            final(opts).query == old(opts).query,
            final(opts).cmd == old(opts).cmd,
            final(opts).interactive == old(opts).interactive,
            final(opts).show_cmd_error == old(opts).show_cmd_error,
    {
        let _ = env;
        opts.preview = Some(String::new());
        let b1 = bind_systemctl("ctrl-r", "restart");
        let b2 = bind_systemctl("ctrl-s", "stop");
        let b3 = bind_systemctl("ctrl-t", "start");
        let ghost bind0 = opts.bind.deep_view();
        let ghost v1 = b1@;
        opts.bind.push(b1);
        proof {
            assert(opts.bind.deep_view() =~~= bind0.push(v1));
        }
        let ghost bind1 = opts.bind.deep_view();
        let ghost v2 = b2@;
        opts.bind.push(b2);
        proof {
            assert(opts.bind.deep_view() =~~= bind1.push(v2));
        }
        let ghost bind2 = opts.bind.deep_view();
        let ghost v3 = b3@;
        opts.bind.push(b3);
        proof {
            assert(opts.bind.deep_view() =~~= bind2.push(v3));
        }
        opts.preview_window = Some("up:80%".to_owned());
        opts.delimiter = Some("[\\[\\] \\t]+".to_owned());
        opts.header = Some("systemctl - restart: ^r | stop: ^s | start: ^t".to_owned());
    }

    /// The verbs run through their execute keybindings; the selection itself
    /// needs no terminal action.
    pub fn run(&self, event: &ResultEvent) -> (r: Result<Action, Error>)
        ensures
            r matches Ok(Action::Nothing),
    {
        let _ = event;
        Ok(Action::Nothing)
    }
}

} // verus!
