//! The window switcher: lists the compositor's clients by focus recency and
//! focuses the selected one.

use crate::cli::Mode;
use crate::errors::Error;
use crate::event::Action;
use crate::event::InitOutcome;
use crate::event::ResultEvent;
use crate::item::Item;
use crate::item::Preview;
use crate::options::EnvInfo;
use crate::options::SessionOptions;
use vstd::multiset::Multiset;
use vstd::prelude::*;
use vstd::string::StringExecFns;

verus! {

broadcast use vstd::seq_lib::group_to_multiset_ensures, vstd::seq_lib::to_multiset_build, vstd::seq_lib::to_multiset_insert;

/// One compositor client, as plain values: what the switcher reads of a
/// client record.
pub struct Client {
    pub title: String,
    pub focus_history_id: u16,
    pub address: String,
}

/// The currently focused client (focus rank zero) is not offered; every
/// other client is.
pub open spec fn keep_client(c: Client) -> bool {
    c.focus_history_id != 0
}

/// Offered clients are ordered by focus recency, most recently focused
/// first: focus rank ascending.
pub open spec fn clients_sorted(s: Seq<Client>) -> bool {
    forall|i: int, j: int|
        0 <= i < j < s.len() ==> #[trigger] s[i].focus_history_id <= #[trigger] s[j].focus_history_id
}

/// Keeps every client but the currently focused one.
fn filter_clients(clients: Vec<Client>) -> (r: Vec<Client>)
    ensures
        r@ == clients@.filter(|c: Client| keep_client(c)),
{
    let ghost pred = |c: Client| keep_client(c);
    let mut src = clients;
    let mut out: Vec<Client> = Vec::new();
    proof {
        reveal(Seq::filter);
        assert(Seq::<Client>::empty() + out@ =~= out@);
    }
    while src.len() > 0
        invariant
            pred == (|c: Client| keep_client(c)),
            clients@.filter(pred) == src@.filter(pred) + out@,
        decreases src@.len(),
    {
        let ghost old_src = src@;
        let c = src.pop().unwrap();
        proof {
            reveal(Seq::filter);
            assert(old_src.drop_last() =~= src@);
            assert(old_src.last() == c);
        }
        let keep = c.focus_history_id != 0;
        proof {
            if keep {
                assert(old_src.filter(pred) =~= src@.filter(pred).push(c));
            } else {
                assert(old_src.filter(pred) =~= src@.filter(pred));
            }
        }
        if keep {
            out.insert(0, c);
            proof {
                assert(src@.filter(pred).push(c) + out@.skip(1) =~= src@.filter(pred) + out@);
            }
        }
    }
    proof {
        reveal(Seq::filter);
        assert(src@.filter(pred) =~= Seq::<Client>::empty());
        assert(Seq::<Client>::empty() + out@ =~= out@);
    }
    out
}

/// Sorts clients by focus rank ascending; equal ranks keep no promised
/// order.
fn sort_clients(clients: Vec<Client>) -> (r: Vec<Client>)
    ensures
        r@.to_multiset() == clients@.to_multiset(),
        clients_sorted(r@),
{
    let mut src = clients;
    let mut out: Vec<Client> = Vec::new();
    proof {
        assert(forall|a: Client| !out@.contains(a));
        assert(out@.to_multiset() =~= Multiset::<Client>::empty());
        assert(Multiset::<Client>::empty().add(src@.to_multiset()) =~= src@.to_multiset());
    }
    while src.len() > 0
        invariant
            out@.to_multiset().add(src@.to_multiset()) == clients@.to_multiset(),
            clients_sorted(out@),
        decreases src@.len(),
    {
        let ghost old_src = src@;
        let ghost old_out = out@;
        let c = src.pop().unwrap();
        proof {
            assert(old_src.drop_last() =~= src@);
            assert(src@.push(c) =~= old_src);
            assert(old_src.to_multiset() =~= src@.to_multiset().insert(c));
        }
        let n = out.len();
        let mut pos: usize = 0;
        while pos < n && out[pos].focus_history_id <= c.focus_history_id
            invariant
                n == out@.len(),
                pos <= n,
                forall|k: int| 0 <= k < pos ==> #[trigger] out@[k].focus_history_id
                    <= c.focus_history_id,
            decreases n - pos,
        {
            pos += 1;
        }
        out.insert(pos, c);
        proof {
            assert(out@ == old_out.insert(pos as int, c));
            assert(out@.to_multiset() =~= old_out.to_multiset().insert(c));
            assert(out@.to_multiset().add(src@.to_multiset()) =~= old_out.to_multiset().add(
                old_src.to_multiset(),
            ));
            assert forall|i: int, j: int| 0 <= i < j < out@.len() implies #[trigger] out@[i].focus_history_id
                <= #[trigger] out@[j].focus_history_id by {
                if j < pos {
                    assert(out@[i] == old_out[i] && out@[j] == old_out[j]);
                } else if i < pos && j == pos {
                    assert(out@[i] == old_out[i]);
                } else if i < pos && j > pos {
                    assert(out@[i] == old_out[i] && out@[j] == old_out[j - 1]);
                } else if i == pos {
                    assert(out@[j] == old_out[j - 1]);
                    assert(pos < out@.len() - 1 ==> old_out[pos as int].focus_history_id
                        > c.focus_history_id);
                } else {
                    assert(out@[i] == old_out[i - 1] && out@[j] == old_out[j - 1]);
                }
            }
        }
    }
    proof {
        assert(forall|a: Client| !src@.contains(a));
        assert(src@.to_multiset() =~= Multiset::<Client>::empty());
        assert(out@.to_multiset().add(Multiset::<Client>::empty()) =~= out@.to_multiset());
    }
    out
}

/// The window switcher provider.
pub struct HyprctlClients;

impl HyprctlClients {
    /// Every invocation runs the interactive session.
    pub fn init(&self, mode: &Mode) -> (r: InitOutcome)
        ensures
            r is Proceed,
    {
        let _ = mode;
        InitOutcome::Proceed
    }

    /// The candidate set: every client but the focused one, ordered by focus
    /// recency; the title is matched and shown, the address is the output.
    pub fn get(&self, clients: Vec<Client>) -> (r: Vec<Item>)
        ensures
            exists|s: Seq<Client>|
                {
                    &&& s.to_multiset() == clients@.filter(
                        |c: Client| keep_client(c),
                    ).to_multiset()
                    &&& clients_sorted(s)
                    &&& r@.len() == s.len()
                    &&& forall|i: int|
                        0 <= i < s.len() ==> (#[trigger] r@[i]).display@ == s[i].title@
                            && r@[i].output@ == s[i].address@ && r@[i].preview is Empty
                },
    {
        let kept = filter_clients(clients);
        let sorted = sort_clients(kept);
        let ghost witness = sorted@;
        let ghost orig = sorted@;
        let mut src = sorted;
        let mut out: Vec<Item> = Vec::new();
        while src.len() > 0
            invariant
                out@.len() + src@.len() == orig.len(),
                src@ == orig.skip(out@.len() as int),
                forall|i: int|
                    0 <= i < out@.len() ==> (#[trigger] out@[i]).display@ == orig[i].title@
                        && out@[i].output@ == orig[i].address@ && out@[i].preview is Empty,
            decreases src@.len(),
        {
            let ghost k = out@.len();
            let c = src.remove(0);
            proof {
                assert(orig.skip(k as int)[0] == orig[k as int]);
                assert(orig.skip(k as int).remove(0) =~= orig.skip(k + 1 as int));
            }
            out.push(Item { display: c.title, output: c.address, preview: Preview::Empty });
        }
        proof {
            assert({
                &&& witness.to_multiset() == clients@.filter(
                    |c: Client| keep_client(c),
                ).to_multiset()
                &&& clients_sorted(witness)
                &&& out@.len() == witness.len()
                &&& forall|i: int|
                    0 <= i < witness.len() ==> (#[trigger] out@[i]).display@ == witness[i].title@
                        && out@[i].output@ == witness[i].address@ && out@[i].preview is Empty
            });
        }
        out
    }

    /// The switcher keeps the engine's own configuration.
    pub fn set_options(&self, opts: &mut SessionOptions, env: &EnvInfo)
        ensures
            *final(opts) == *old(opts),
    {
        let _ = opts;
        let _ = env;
    }

    /// The terminal action: focus the selected window through the
    /// compositor; with nothing selected the action fails and is reported.
    pub fn run(&self, event: &ResultEvent) -> (r: Result<Action, Error>)
        ensures
            (match event {
                ResultEvent::AcceptedWithSelection { selected, .. } => {
                    &&& selected@.len() > 0 ==> (r matches Ok(Action::FocusWindow { address_arg })
                        && address_arg@ == "address:"@ + selected@[0].output@)
                    &&& selected@.len() == 0 ==> r matches Err(Error::NoItemSelected)
                },
                _ => r matches Ok(Action::Nothing),
            }),
    {
        match event {
            ResultEvent::AcceptedWithSelection { selected, .. } => {
                if selected.len() == 0 {
                    return Err(Error::NoItemSelected);
                }
                let mut arg = "address:".to_owned();
                arg.append(selected[0].output().as_str());
                Ok(Action::FocusWindow { address_arg: arg })
            },
            _ => Ok(Action::Nothing),
        }
    }
}

} // verus!
