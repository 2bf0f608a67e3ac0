//! The hidden-window manager: lists the windows parked in the compositor's
//! `special:hidden` workspace, and swaps a chosen one with the window that
//! is currently focused (or with the previously focused window when the
//! current one belongs to an ignored class).

use crate::cli::Mode;
use crate::cli::ModeView;
use crate::errors::Error;
use crate::event::Action;
use crate::event::InitOutcome;
use crate::event::ResultEvent;
use crate::event::VetoAction;
use crate::item::Item;
use crate::item::Preview;
use crate::options::EnvInfo;
use crate::options::SessionOptions;
use crate::text;
use vstd::multiset::Multiset;
use vstd::prelude::*;
use vstd::string::StringExecFns;

verus! {

broadcast use vstd::seq_lib::group_to_multiset_ensures, vstd::seq_lib::to_multiset_build, vstd::seq_lib::to_multiset_insert;

/// One compositor window, as plain values: what the hidden-window logic
/// reads of a client record.
pub struct Window {
    pub address: String,
    pub class: String,
    pub title: String,
    pub hidden: bool,
    pub mapped: bool,
    pub focus_history_id: u16,
    pub workspace_name: String,
}

/// The candidate line of a window: its title, its class in brackets, and
/// markers for hidden and unmapped windows.
pub open spec fn window_label(w: Window) -> Seq<char> {
    w.title@ + " ["@ + w.class@ + "]"@ + (if w.hidden {
        " (hidden)"@
    } else {
        Seq::<char>::empty()
    }) + (if w.mapped {
        Seq::<char>::empty()
    } else {
        " (unmapped)"@
    })
}

/// The preview text of a window: one line per field.
pub open spec fn window_preview(w: Window) -> Seq<char> {
    "Title: "@ + w.title@ + "\nClass: "@ + w.class@ + "\nWorkspace: "@ + w.workspace_name@
        + "\nAddress: "@ + w.address@ + "\nHidden: "@ + text::spec_bool_text(w.hidden)
        + "\nMapped: "@ + text::spec_bool_text(w.mapped) + "\nFocusHistoryID: "@ + text::dec_seq(
        w.focus_history_id as nat,
    )
}

/// The candidate line of a window.
pub fn window_label_text(w: &Window) -> (r: String)
    ensures
        r@ == window_label(*w),
{
    let mut r = w.title.clone();
    r.append(" [");
    r.append(w.class.as_str());
    r.append("]");
    let ghost base = r@;
    if w.hidden {
        r.append(" (hidden)");
    }
    proof {
        assert(base + Seq::<char>::empty() =~= base);
    }
    let ghost with_hidden = r@;
    if !w.mapped {
        r.append(" (unmapped)");
    }
    proof {
        assert(with_hidden + Seq::<char>::empty() =~= with_hidden);
    }
    r
}

/// The preview text of a window.
pub fn window_preview_text(w: &Window) -> (r: String)
    ensures
        r@ == window_preview(*w),
{
    let mut r = "Title: ".to_owned();
    r.append(w.title.as_str());
    r.append("\nClass: ");
    r.append(w.class.as_str());
    r.append("\nWorkspace: ");
    r.append(w.workspace_name.as_str());
    r.append("\nAddress: ");
    r.append(w.address.as_str());
    r.append("\nHidden: ");
    r.append(text::bool_text(w.hidden));
    r.append("\nMapped: ");
    r.append(text::bool_text(w.mapped));
    r.append("\nFocusHistoryID: ");
    let id = text::u64_to_string(w.focus_history_id as u64);
    r.append(id.as_str());
    r
}

/// A window is listed when it sits in the hidden workspace and does not
/// belong to the ignored class.
pub open spec fn keep_window(w: Window, ignore_class: Option<Seq<char>>) -> bool {
    &&& w.workspace_name@ == "special:hidden"@
    &&& (match ignore_class {
        Some(ig) => w.class@ != ig,
        None => true,
    })
}

/// Listed windows are ordered by focus recency, most recently focused
/// first: focus rank ascending.
pub open spec fn sorted_by_recency(s: Seq<Window>) -> bool {
    forall|i: int, j: int|
        0 <= i < j < s.len() ==> #[trigger] s[i].focus_history_id <= #[trigger] s[j].focus_history_id
}

/// Keeps the windows of the hidden workspace outside the ignored class.
fn filter_windows(windows: Vec<Window>, ignore_class: &Option<String>) -> (r: Vec<Window>)
    ensures
        r@ == windows@.filter(
            |w: Window| keep_window(w, ignore_class.deep_view()),
        ),
{
    let ghost pred = |w: Window| keep_window(w, ignore_class.deep_view());
    let mut src = windows;
    let mut out: Vec<Window> = Vec::new();
    proof {
        reveal(Seq::filter);
        assert(Seq::<Window>::empty() + out@ =~= out@);
    }
    while src.len() > 0
        invariant
            pred == (|w: Window| keep_window(w, ignore_class.deep_view())),
            windows@.filter(pred) == src@.filter(pred) + out@,
        decreases src@.len(),
    {
        let ghost old_src = src@;
        let w = src.pop().unwrap();
        proof {
            reveal(Seq::filter);
            assert(old_src.drop_last() =~= src@);
            assert(old_src.last() == w);
        }
        let keep = text::string_is(&w.workspace_name, "special:hidden") && (match ignore_class {
            Some(ig) => !(w.class == *ig),
            None => true,
        });
        proof {
            assert(keep == pred(w));
            if keep {
                assert(old_src.filter(pred) =~= src@.filter(pred).push(w));
            } else {
                assert(old_src.filter(pred) =~= src@.filter(pred));
            }
        }
        if keep {
            out.insert(0, w);
            proof {
                assert(src@.filter(pred).push(w) + out@.skip(1) =~= src@.filter(pred) + out@);
            }
        }
    }
    proof {
        reveal(Seq::filter);
        assert(src@.filter(pred) =~= Seq::<Window>::empty());
        assert(Seq::<Window>::empty() + out@ =~= out@);
    }
    out
}

/// Sorts windows by focus rank ascending; equal ranks keep no promised
/// order.
fn sort_windows(windows: Vec<Window>) -> (r: Vec<Window>)
    ensures
        r@.to_multiset() == windows@.to_multiset(),
        sorted_by_recency(r@),
{
    let mut src = windows;
    let mut out: Vec<Window> = Vec::new();
    proof {
        assert(forall|a: Window| !out@.contains(a));
        assert(out@.to_multiset() =~= Multiset::<Window>::empty());
        assert(Multiset::<Window>::empty().add(src@.to_multiset()) =~= src@.to_multiset());
    }
    while src.len() > 0
        invariant
            out@.to_multiset().add(src@.to_multiset()) == windows@.to_multiset(),
            sorted_by_recency(out@),
        decreases src@.len(),
    {
        let ghost old_src = src@;
        let ghost old_out = out@;
        let w = src.pop().unwrap();
        proof {
            assert(old_src.drop_last() =~= src@);
            assert(src@.push(w) =~= old_src);
            assert(old_src.to_multiset() =~= src@.to_multiset().insert(w));
        }
        let n = out.len();
        let mut pos: usize = 0;
        while pos < n && out[pos].focus_history_id < w.focus_history_id
            invariant
                n == out@.len(),
                pos <= n,
                forall|k: int| 0 <= k < pos ==> #[trigger] out@[k].focus_history_id
                    < w.focus_history_id,
            decreases n - pos,
        {
            pos += 1;
        }
        out.insert(pos, w);
        proof {
            assert(out@ == old_out.insert(pos as int, w));
            assert(out@.to_multiset() =~= old_out.to_multiset().insert(w));
            assert(out@.to_multiset().add(src@.to_multiset()) =~= old_out.to_multiset().add(
                old_src.to_multiset(),
            ));
            assert forall|i: int, j: int| 0 <= i < j < out@.len() implies #[trigger] out@[i].focus_history_id
                <= #[trigger] out@[j].focus_history_id by {
                if j < pos {
                    assert(out@[i] == old_out[i] && out@[j] == old_out[j]);
                } else if i < pos && j == pos {
                    assert(out@[i] == old_out[i]);
                } else if i < pos && j > pos {
                    assert(out@[i] == old_out[i] && out@[j] == old_out[j - 1]);
                } else if i == pos {
                    assert(out@[j] == old_out[j - 1]);
                    assert(pos < out@.len() - 1 ==> old_out[pos as int].focus_history_id
                        >= w.focus_history_id);
                } else {
                    assert(out@[i] == old_out[i - 1] && out@[j] == old_out[j - 1]);
                }
            }
        }
    }
    proof {
        assert(forall|a: Window| !src@.contains(a));
        assert(src@.to_multiset() =~= Multiset::<Window>::empty());
        assert(out@.to_multiset().add(Multiset::<Window>::empty()) =~= out@.to_multiset());
    }
    out
}

/// Maps listed windows to candidate items: the label is shown and matched,
/// the address is the output, the preview holds the field lines.
fn window_items(windows: Vec<Window>) -> (r: Vec<Item>)
    ensures
        r@.len() == windows@.len(),
        forall|i: int|
            0 <= i < windows@.len() ==> (#[trigger] r@[i]).display@ == window_label(windows@[i])
                && r@[i].output@ == windows@[i].address@ && (r@[i].preview matches Preview::Text(p)
                && p@ == window_preview(windows@[i])),
{
    let ghost orig = windows@;
    let mut src = windows;
    let mut out: Vec<Item> = Vec::new();
    while src.len() > 0
        invariant
            out@.len() + src@.len() == orig.len(),
            src@ == orig.skip(out@.len() as int),
            forall|i: int|
                0 <= i < out@.len() ==> (#[trigger] out@[i]).display@ == window_label(orig[i])
                    && out@[i].output@ == orig[i].address@ && (out@[i].preview
                    matches Preview::Text(p) && p@ == window_preview(orig[i])),
        decreases src@.len(),
    {
        let ghost k = out@.len();
        let w = src.remove(0);
        proof {
            assert(orig.skip(k as int)[0] == orig[k as int]);
            assert(orig.skip(k as int).remove(0) =~= orig.skip(k + 1 as int));
        }
        let display = window_label_text(&w);
        let preview = window_preview_text(&w);
        out.push(Item { display, output: w.address, preview: Preview::Text(preview) });
    }
    out
}

/// Lists all windows in the special hidden workspace, letting the user swap
/// the selected hidden window with the current one, or simply unhide it.
pub struct HyprctlHide {
    pub ignore_class: Option<String>,
    pub swap: Option<String>,
}

impl HyprctlHide {
    /// The candidate set: the hidden-workspace windows outside the ignored
    /// class, ordered by focus recency, one item per window.
    pub fn get(&self, windows: Vec<Window>) -> (r: Vec<Item>)
        ensures
            exists|s: Seq<Window>|
                {
                    &&& s.to_multiset() == windows@.filter(
                        |w: Window| keep_window(w, self.ignore_class.deep_view()),
                    ).to_multiset()
                    &&& sorted_by_recency(s)
                    &&& r@.len() == s.len()
                    &&& forall|i: int|
                        0 <= i < s.len() ==> (#[trigger] r@[i]).display@ == window_label(s[i])
                            && r@[i].output@ == s[i].address@ && (r@[i].preview
                            matches Preview::Text(p) && p@ == window_preview(s[i]))
                },
    {
        let kept = filter_windows(windows, &self.ignore_class);
        let sorted = sort_windows(kept);
        let ghost witness = sorted@;
        let r = window_items(sorted);
        proof {
            assert({
                &&& witness.to_multiset() == windows@.filter(
                    |w: Window| keep_window(w, self.ignore_class.deep_view()),
                ).to_multiset()
                &&& sorted_by_recency(witness)
                &&& r@.len() == witness.len()
                &&& forall|i: int|
                    0 <= i < witness.len() ==> (#[trigger] r@[i]).display@ == window_label(
                        witness[i],
                    ) && r@[i].output@ == witness[i].address@ && (r@[i].preview
                        matches Preview::Text(p) && p@ == window_preview(witness[i]))
            });
        }
        r
    }

    /// A swap invocation performs its work without any interface: the
    /// session is vetoed and the swap action carries the target window and
    /// the ignored class.
    pub fn init(&self, mode: &Mode) -> (r: InitOutcome)
        ensures
            (match mode@ {
                ModeView::HyprctlHide { swap: Some(t), ignore_class } => r
                    matches InitOutcome::Veto(VetoAction::SwapWindows { target, ignore_class: ig })
                    && target@ == t && ig.deep_view() == ignore_class,
                _ => r is Proceed,
            }),
    {
        match mode {
            Mode::HyprctlHide { swap: Some(target), ignore_class } => InitOutcome::Veto(
                VetoAction::SwapWindows {
                    target: target.clone(),
                    ignore_class: match ignore_class {
                        Some(ig) => Some(ig.clone()),
                        None => None,
                    },
                },
            ),
            _ => InitOutcome::Proceed,
        }
    }

    /// The selection itself needs no terminal action: the swap work runs
    /// through the execute keybinding and the veto path.
    pub fn run(&self, event: &ResultEvent) -> (r: Result<Action, Error>)
        ensures
            r matches Ok(Action::Nothing),
    {
        let _ = event;
        Ok(Action::Nothing)
    }
}


impl HyprctlHide {
    /// Configures the session: a preview pane above the list, a header that
    /// explains the keys, and two bindings: enter re-invokes this executable
    /// to swap the selected window, alt-enter unhides it in place.
    pub fn set_options(&self, opts: &mut SessionOptions, env: &EnvInfo)
        ensures
            final(opts).preview matches Some(p) && p@ == Seq::<char>::empty(),
            final(opts).header matches Some(h) && h@
                == "List of hidden windows (special:hidden). Enter: swap with current (or previously focused if ignored). Alt-Enter: unhide."@,
            final(opts).preview_window matches Some(pw) && pw@ == "up:40%"@,
            final(opts).bind.deep_view() == old(opts).bind.deep_view().push(
                "enter:execute("@ + env.exe@ + " hyprctl-hide"@ + (match self.ignore_class {
                    Some(ig) => " --ignore-class "@ + ig@,
                    None => Seq::<char>::empty(),
                }) + " --swap {})+accept"@,
            ).push(
                "alt-enter:execute(hyprctl activeworkspace -j | jq -r .id | xargs -I{ws} hyprctl dispatch movetoworkspacesilent {ws},address:{} ; hyprctl dispatch focuswindow address:{})+accept"@,
            ),
            final(opts).query == old(opts).query,
            final(opts).cmd == old(opts).cmd,
            final(opts).interactive == old(opts).interactive,
            final(opts).show_cmd_error == old(opts).show_cmd_error,
            final(opts).delimiter == old(opts).delimiter,
    {
        opts.preview = Some(String::new());
        opts.header = Some(
            "List of hidden windows (special:hidden). Enter: swap with current (or previously focused if ignored). Alt-Enter: unhide.".to_owned(),
        );
        opts.preview_window = Some("up:40%".to_owned());
        let mut swap_bind = "enter:execute(".to_owned();
        swap_bind.append(env.exe.as_str());
        swap_bind.append(" hyprctl-hide");
        let ghost head = swap_bind@;
        match &self.ignore_class {
            Some(ig) => {
                swap_bind.append(" --ignore-class ");
                swap_bind.append(ig.as_str());
            },
            None => {
                proof {
                    assert(head + Seq::<char>::empty() =~= head);
                }
            },
        }
        swap_bind.append(" --swap {})+accept");
        proof {
            assert(swap_bind@ =~= "enter:execute("@ + env.exe@ + " hyprctl-hide"@ + (
            match self.ignore_class {
                Some(ig) => " --ignore-class "@ + ig@,
                None => Seq::<char>::empty(),
            }) + " --swap {})+accept"@);
        }
        let ghost old_bind = opts.bind.deep_view();
        let ghost b1 = swap_bind@;
        opts.bind.push(swap_bind);
        let ghost mid_bind = opts.bind.deep_view();
        proof {
            assert(mid_bind =~~= old_bind.push(b1));
        }
        opts.bind.push(
            "alt-enter:execute(hyprctl activeworkspace -j | jq -r .id | xargs -I{ws} hyprctl dispatch movetoworkspacesilent {ws},address:{} ; hyprctl dispatch focuswindow address:{})+accept".to_owned(),
        );
        proof {
            assert(opts.bind.deep_view() =~~= mid_bind.push(
                "alt-enter:execute(hyprctl activeworkspace -j | jq -r .id | xargs -I{ws} hyprctl dispatch movetoworkspacesilent {ws},address:{} ; hyprctl dispatch focuswindow address:{})+accept"@,
            ));
        }
    }
}

/// A window may be hidden in place of the current one when it is outside
/// the ignored class, is not the current window, and carries a positive
/// focus rank.
pub open spec fn swap_candidate(w: Window, ig: Seq<char>, curr_addr: Seq<char>) -> bool {
    &&& w.class@ != ig
    &&& w.address@ != curr_addr
    &&& w.focus_history_id > 0
}

/// `i` is the position of the first candidate with the lowest focus rank:
/// the most recently focused window that may be hidden.
pub open spec fn is_first_min_candidate(
    ws: Seq<Window>,
    ig: Seq<char>,
    curr_addr: Seq<char>,
    i: int,
) -> bool {
    &&& 0 <= i < ws.len()
    &&& swap_candidate(ws[i], ig, curr_addr)
    &&& forall|j: int|
        0 <= j < ws.len() && swap_candidate(#[trigger] ws[j], ig, curr_addr)
            ==> ws[i].focus_history_id <= ws[j].focus_history_id
    &&& forall|j: int|
        0 <= j < i && swap_candidate(#[trigger] ws[j], ig, curr_addr) ==> ws[i].focus_history_id
            < ws[j].focus_history_id
}

/// Which window the swap hides: the currently focused one; but when that
/// window belongs to the ignored class, the most recently focused window
/// outside the class instead, and none at all when no such window exists.
pub fn choose_hide_target(
    curr_addr: &String,
    curr_class: &String,
    ignore_class: &Option<String>,
    windows: &Vec<Window>,
) -> (r: Option<String>)
    ensures
        (match ignore_class {
            Some(ig) => if curr_class@ == ig@ {
                &&& (exists|i: int| is_first_min_candidate(windows@, ig@, curr_addr@, i)) ==> (
                r matches Some(a) && a@ == windows@[choose|i: int|
                    is_first_min_candidate(windows@, ig@, curr_addr@, i)].address@)
                &&& (forall|j: int|
                    0 <= j < windows@.len() ==> !swap_candidate(
                        #[trigger] windows@[j],
                        ig@,
                        curr_addr@,
                    )) ==> r is None
            } else {
                r matches Some(a) && a@ == curr_addr@
            },
            None => r matches Some(a) && a@ == curr_addr@,
        }),
{
    let ig = match ignore_class {
        Some(ig) => {
            if *curr_class == *ig {
                ig
            } else {
                return Some(curr_addr.clone());
            }
        },
        None => {
            return Some(curr_addr.clone());
        },
    };
    let n = windows.len();
    let mut best: Option<usize> = None;
    let mut i: usize = 0;
    while i < n
        invariant
            n == windows@.len(),
            i <= n,
            ig@ == ignore_class.deep_view()->0,
            (match best {
                Some(b) => {
                    &&& b < i
                    &&& swap_candidate(windows@[b as int], ig@, curr_addr@)
                    &&& forall|j: int|
                        0 <= j < i && swap_candidate(#[trigger] windows@[j], ig@, curr_addr@)
                            ==> windows@[b as int].focus_history_id
                            <= windows@[j].focus_history_id
                    &&& forall|j: int|
                        0 <= j < b && swap_candidate(#[trigger] windows@[j], ig@, curr_addr@)
                            ==> windows@[b as int].focus_history_id
                            < windows@[j].focus_history_id
                },
                None => forall|j: int|
                    0 <= j < i ==> !swap_candidate(#[trigger] windows@[j], ig@, curr_addr@),
            }),
        decreases n - i,
    {
        let w = &windows[i];
        let cand = !(w.class == *ig) && !(w.address == *curr_addr) && w.focus_history_id > 0;
        proof {
            assert(cand == swap_candidate(windows@[i as int], ig@, curr_addr@));
        }
        if cand {
            match best {
                None => {
                    best = Some(i);
                },
                Some(b) => {
                    if w.focus_history_id < windows[b].focus_history_id {
                        best = Some(i);
                    }
                },
            }
        }
        i += 1;
    }
    match best {
        Some(b) => {
            proof {
                let w = choose|i: int| is_first_min_candidate(windows@, ig@, curr_addr@, i);
                assert(is_first_min_candidate(windows@, ig@, curr_addr@, b as int));
                if w != b as int {
                    if w < b as int {
                        assert(windows@[b as int].focus_history_id
                            < windows@[w].focus_history_id);
                        assert(windows@[w].focus_history_id
                            <= windows@[b as int].focus_history_id);
                    } else {
                        assert(windows@[w].focus_history_id
                            < windows@[b as int].focus_history_id);
                        assert(windows@[b as int].focus_history_id
                            <= windows@[w].focus_history_id);
                    }
                }
                assert(w == b as int);
            }
            Some(windows[b].address.clone())
        },
        None => None,
    }
}

/// The compositor dispatch that parks a window in the hidden workspace.
pub fn hide_window_args(addr: &String) -> (r: Vec<String>)
    ensures
        r.deep_view() == seq![
            "dispatch"@,
            "movetoworkspacesilent"@,
            "special:hidden,address:"@ + addr@,
        ],
{
    let mut arg = "special:hidden,address:".to_owned();
    arg.append(addr.as_str());
    let mut r: Vec<String> = Vec::new();
    r.push("dispatch".to_owned());
    r.push("movetoworkspacesilent".to_owned());
    r.push(arg);
    proof {
        assert(r.deep_view() =~~= seq![
            "dispatch"@,
            "movetoworkspacesilent"@,
            "special:hidden,address:"@ + addr@,
        ]);
    }
    r
}

/// The compositor dispatch that brings a window onto the given workspace.
pub fn bring_window_args(workspace_id: i64, addr: &String) -> (r: Vec<String>)
    ensures
        r.deep_view() == seq![
            "dispatch"@,
            "movetoworkspacesilent"@,
            text::dec_int_seq(workspace_id as int) + ",address:"@ + addr@,
        ],
{
    let mut arg = text::i64_to_string(workspace_id);
    arg.append(",address:");
    arg.append(addr.as_str());
    let mut r: Vec<String> = Vec::new();
    r.push("dispatch".to_owned());
    r.push("movetoworkspacesilent".to_owned());
    r.push(arg);
    proof {
        assert(r.deep_view() =~~= seq![
            "dispatch"@,
            "movetoworkspacesilent"@,
            text::dec_int_seq(workspace_id as int) + ",address:"@ + addr@,
        ]);
    }
    r
}

/// The compositor dispatch that focuses a window by address.
pub fn focus_window_args(addr: &String) -> (r: Vec<String>)
    ensures
        r.deep_view() == seq!["dispatch"@, "focuswindow"@, "address:"@ + addr@],
{
    let mut arg = "address:".to_owned();
    arg.append(addr.as_str());
    let mut r: Vec<String> = Vec::new();
    r.push("dispatch".to_owned());
    r.push("focuswindow".to_owned());
    r.push(arg);
    proof {
        assert(r.deep_view() =~~= seq!["dispatch"@, "focuswindow"@, "address:"@ + addr@]);
    }
    r
}

} // verus!
