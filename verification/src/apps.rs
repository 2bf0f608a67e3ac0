//! The application launcher provider: lists installed applications and
//! launches the selected one detached from the session.

use crate::cli::Mode;
use crate::errors::Error;
use crate::event::Action;
use crate::event::InitOutcome;
use crate::event::ResultEvent;
use crate::item::Item;
use crate::item::Preview;
use crate::options::EnvInfo;
use crate::options::SessionOptions;
use crate::text;
use vstd::prelude::*;
use vstd::string::StrSliceExecFns;

verus! {

/// One installed application, as plain values: its declared name, the file
/// name of its desktop entry, and the paths of its executable and icon when
/// they are known.
pub struct App {
    pub name: String,
    pub desktop_file: String,
    pub exe_path: Option<String>,
    pub icon_path: Option<String>,
}

/// An application can be shown when it has a name, or failing that a
/// desktop file name carrying the `.desktop` suffix to fall back on.
pub open spec fn app_wf(a: App) -> bool {
    a.name@.len() > 0 || text::ends_with(a.desktop_file@, ".desktop"@)
}

/// The candidate line of an application: its name, or its desktop file
/// name without the suffix when the name is empty.
pub open spec fn app_text(a: App) -> Seq<char> {
    if a.name@.len() > 0 {
        a.name@
    } else {
        a.desktop_file@.take(a.desktop_file@.len() - ".desktop"@.len())
    }
}

/// The output of an application: its executable path, or nothing when none
/// is known.
pub open spec fn app_output(a: App) -> Seq<char> {
    match a.exe_path {
        Some(p) => p@,
        None => Seq::empty(),
    }
}

impl App {
    /// The candidate line: the declared name, or the desktop file name
    /// stripped of its suffix.
    pub fn text(&self) -> (r: String)
        requires
            app_wf(*self),
        ensures
            r@ == app_text(*self),
    {
        if !self.name.as_str().is_empty() {
            self.name.clone()
        } else {
            proof {
                reveal_strlit(".desktop");
            }
            let s = self.desktop_file.as_str();
            let n = s.unicode_len();
            s.substring_char(0, n - 8).to_owned()
        }
    }

    /// The output text: the executable path, or nothing.
    pub fn output(&self) -> (r: String)
        ensures
            r@ == app_output(*self),
    {
        match &self.exe_path {
            Some(p) => p.clone(),
            None => String::new(),
        }
    }
}

/// The side length of the icon preview square: sixteen cells, or less when
/// the preview pane is smaller.
pub fn preview_size(width: usize, height: usize) -> (r: u32)
    ensures
        r == if 16 <= width && 16 <= height {
            16u32
        } else if width <= height {
            width as u32
        } else {
            height as u32
        },
{
    let a: usize = if width < 16 {
        width
    } else {
        16
    };
    let b: usize = if height < a {
        height
    } else {
        a
    };
    b as u32
}

/// The application launcher provider.
pub struct Apps;

impl Apps {
    /// Every invocation runs the interactive session.
    pub fn init(&self, mode: &Mode) -> (r: InitOutcome)
        ensures
            r is Proceed,
    {
        let _ = mode;
        InitOutcome::Proceed
    }

    /// The candidate set: one item per application, never deduplicated;
    /// the name is matched and shown, the executable path is the output.
    pub fn get(&self, records: Vec<App>) -> (r: Vec<Item>)
        requires
            forall|i: int| 0 <= i < records@.len() ==> app_wf(#[trigger] records@[i]),
        ensures
            r@.len() == records@.len(),
            forall|i: int|
                0 <= i < records@.len() ==> (#[trigger] r@[i]).display@ == app_text(records@[i])
                    && r@[i].output@ == app_output(records@[i]) && r@[i].preview is Empty,
    {
        let ghost orig = records@;
        let mut src = records;
        let mut out: Vec<Item> = Vec::new();
        while src.len() > 0
            invariant
                forall|i: int| 0 <= i < orig.len() ==> app_wf(#[trigger] orig[i]),
                out@.len() + src@.len() == orig.len(),
                src@ == orig.skip(out@.len() as int),
                forall|i: int|
                    0 <= i < out@.len() ==> (#[trigger] out@[i]).display@ == app_text(orig[i])
                        && out@[i].output@ == app_output(orig[i]) && out@[i].preview is Empty,
            decreases src@.len(),
        {
            let ghost k = out@.len();
            let a = src.remove(0);
            proof {
                assert(orig.skip(k as int)[0] == orig[k as int]);
                assert(orig.skip(k as int).remove(0) =~= orig.skip(k + 1 as int));
            }
            let display = a.text();
            let output = a.output();
            out.push(Item { display, output, preview: Preview::Empty });
        }
        out
    }

    /// Configures the session: an icon preview pane on the left.
    pub fn set_options(&self, opts: &mut SessionOptions, env: &EnvInfo)
        ensures
            final(opts).preview matches Some(p) && p@ == Seq::<char>::empty(),
            final(opts).preview_window matches Some(pw) && pw@ == "left:16"@,
            final(opts).query == old(opts).query,
            final(opts).cmd == old(opts).cmd,
            final(opts).interactive == old(opts).interactive,
            final(opts).show_cmd_error == old(opts).show_cmd_error,
            final(opts).bind == old(opts).bind,
            final(opts).header == old(opts).header,
            final(opts).delimiter == old(opts).delimiter,
    {
        let _ = env;
        opts.preview = Some(String::new());
        opts.preview_window = Some("left:16".to_owned());
    }

    /// The terminal action: launch the selected application's executable,
    /// detached; with nothing selected the action fails and is reported.
    pub fn run(&self, event: &ResultEvent) -> (r: Result<Action, Error>)
        ensures
            (match event {
                ResultEvent::AcceptedWithSelection { selected, .. } => {
                    &&& selected@.len() > 0 ==> (r matches Ok(Action::LaunchDetached { exe })
                        && exe@ == selected@[0].output@)
                    &&& selected@.len() == 0 ==> r matches Err(Error::NoItemSelected)
                },
                _ => r matches Ok(Action::Nothing),
            }),
    {
        match event {
            ResultEvent::AcceptedWithSelection { selected, .. } => {
                if selected.len() == 0 {
                    return Err(Error::NoItemSelected);
                }
                Ok(Action::LaunchDetached { exe: selected[0].output().clone() })
            },
            _ => Ok(Action::Nothing),
        }
    }
}


/// The value a desktop-entry line assigns to `key`: what follows `key=`,
/// when the line starts so.
pub open spec fn entry_value(line: Seq<char>, key: Seq<char>) -> Option<Seq<char>> {
    if text::starts_with(line, key + seq!['=']) {
        Some(line.skip(key.len() + 1int))
    } else {
        None
    }
}

/// Reads the value a desktop-entry line assigns to `key`.
pub fn desktop_entry_value(line: &str, key: &str) -> (r: Option<String>)
    ensures
        r.deep_view() == entry_value(line@, key@),
{
    let lc = text::str_chars(line);
    let mut kc = text::str_chars(key);
    kc.push('=');
    proof {
        assert(kc@ =~= key@ + seq!['=']);
    }
    if text::chars_start_with(&lc, &kc) {
        let rest = text::chars_from(&lc, kc.len());
        Some(text::chars_to_string(&rest))
    } else {
        None
    }
}

} // verus!
