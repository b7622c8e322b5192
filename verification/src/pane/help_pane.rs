//! The help pane: shown over the information pane, dismissed by `?` or Esc.
use vstd::prelude::*;
use super::events::{AppEvent, KeyCode};
use crate::ui::model::ActivePane;

verus! {

/// Whether an event dismisses the help pane: the `?` key or Escape.
pub open spec fn dismisses_help(event: AppEvent) -> bool {
    match event {
        AppEvent::Key(k) => k.code == KeyCode::Char('?') || k.code == KeyCode::Esc,
        _ => false,
    }
}

pub fn is_help_dismissal(event: &AppEvent) -> (r: bool)
    ensures
        r == dismisses_help(*event),
{
    match event {
        AppEvent::Key(k) => match k.code {
            KeyCode::Char('?') => true,
            KeyCode::Esc => true,
            _ => false,
        },
        _ => false,
    }
}

/// The help pane.
pub struct HelpPane {
    pub visible: bool,
}

impl HelpPane {
    /// A hidden help pane.
    pub fn new() -> (p: HelpPane)
        ensures
            !p.visible,
    {
        HelpPane { visible: false }
    }

    pub fn title(&self) -> (t: String)
        ensures
            t@ == "Help"@,
    {
        String::from_str("Help")
    }

    /// Handles an event: `?` and Escape hide the pane and are consumed;
    /// everything else is left to others.
    pub fn handle_event(&mut self, event: &AppEvent) -> (handled: bool)
        ensures
            handled == dismisses_help(*event),
            final(self).visible == (if handled { false } else { old(self).visible }),
    {
        if is_help_dismissal(event) {
            self.set_visible(false);
            true
        } else {
            false
        }
    }

    pub fn visible(&self) -> (v: bool)
        ensures
            v == self.visible,
    {
        self.visible
    }

    pub fn set_visible(&mut self, visible: bool)
        ensures
            final(self).visible == visible,
    {
        self.visible = visible;
    }
}

impl Default for HelpPane {
    fn default() -> (p: HelpPane)
        ensures
            !p.visible,
    {
        HelpPane::new()
    }
}

/// How a line of the help text is drawn: the title in the secondary colour,
/// headings in the primary colour (both bold), the rest plain.
#[derive(Debug, Clone, Copy, PartialEq, Eq, Structural)]
pub enum HelpStyle {
    Title,
    Heading,
    Plain,
}

/// A line of the help text.
pub struct HelpLine {
    pub text: String,
    pub style: HelpStyle,
}

/// The help lines as text and style.
pub open spec fn help_view(v: Seq<HelpLine>) -> Seq<(Seq<char>, HelpStyle)> {
    v.map_values(|l: HelpLine| (l.text@, l.style))
}

pub open spec fn plain(t: Seq<char>) -> (Seq<char>, HelpStyle) {
    (t, HelpStyle::Plain)
}

/// The hotkeys of the pane the help is about: those of the commit picker in
/// commit picker mode, otherwise those of the pane in use when the help
/// opened.
pub open spec fn pane_hotkeys(in_picker: bool, last_active: ActivePane) -> Seq<(Seq<char>, HelpStyle)> {
    if in_picker {
        seq![
            ("Commit Picker Hotkeys:"@, HelpStyle::Heading),
            plain("  j / k / ↑ / ↓     - Navigate commits"@),
            plain("  g t               - Next commit"@),
            plain("  g T               - Previous commit"@),
            plain("  Enter             - Select commit"@),
            plain("  Esc               - Exit commit picker"@),
            plain("  Ctrl+P            - Enter commit picker mode"@),
            plain("  Ctrl+W            - Return to working directory"@),
        ]
    } else {
        match last_active {
            ActivePane::FileTree => seq![
                ("File Tree Hotkeys:"@, HelpStyle::Heading),
                plain("  Tab / g t / Right - Next file"@),
                plain("  Shift+Tab / g T / Left - Previous file"@),
            ],
            ActivePane::Monitor => seq![
                ("Monitor Hotkeys:"@, HelpStyle::Heading),
                plain("  Alt+j / Alt+Down  - Scroll down"@),
                plain("  Alt+k / Alt+Up    - Scroll up"@),
            ],
            _ => seq![
                ("Diff View Hotkeys:"@, HelpStyle::Heading),
                plain("  j / Down / Ctrl+e - Scroll down"@),
                plain("  k / Up / Ctrl+y   - Scroll up"@),
                plain("  Right             - Next file"@),
                plain("  Left              - Previous file"@),
                plain("  PageDown          - Page down"@),
                plain("  PageUp            - Page up"@),
                plain("  g g               - Go to top"@),
                plain("  Shift+G           - Go to bottom"@),
            ],
        }
    }
}

/// The whole help text.
pub open spec fn help_content(in_picker: bool, last_active: ActivePane, has_selected_commit: bool) -> Seq<
    (Seq<char>, HelpStyle),
> {
    seq![("Git Repository Watcher - Help"@, HelpStyle::Title), plain(""@)]
        + pane_hotkeys(in_picker, last_active)
        + seq![
        plain(""@),
        ("General:"@, HelpStyle::Heading),
        plain("  ?             - Show/hide this help page"@),
        plain("  Esc           - Exit help page"@),
        plain("  Ctrl+h        - Toggle diff panel visibility"@),
        plain("  Ctrl+o        - Toggle monitor pane visibility"@),
        plain("  Ctrl+t        - Toggle light/dark theme"@),
        plain("  q / Ctrl+c    - Quit application"@),
    ] + (if !in_picker {
        seq![plain("  Ctrl+P        - Enter commit picker mode"@)]
    } else {
        Seq::empty()
    }) + (if has_selected_commit {
        seq![plain("  Ctrl+W        - Return to working directory"@)]
    } else {
        Seq::empty()
    }) + seq![
        plain(""@),
        ("Pane Modes:"@, HelpStyle::Heading),
        plain("  Ctrl+d        - Switch to inline diff view"@),
        plain("  Ctrl+s        - Switch to side-by-side diff view"@),
        plain(""@),
        plain("Press ? or Esc to return to the previous pane"@),
    ]
}

fn push_help(v: &mut Vec<HelpLine>, text: &str, style: HelpStyle)
    ensures
        help_view(final(v)@) == help_view(old(v)@).push((text@, style)),
{
    v.push(HelpLine { text: String::from_str(text), style });
    proof {
        assert(help_view(final(v)@) =~= help_view(old(v)@).push((text@, style)));
    }
}

fn push_hotkeys(v: &mut Vec<HelpLine>, in_picker: bool, last_active: ActivePane)
    ensures
        help_view(final(v)@) == help_view(old(v)@) + pane_hotkeys(in_picker, last_active),
{
    let ghost start = help_view(v@);
    if in_picker {
        push_help(v, "Commit Picker Hotkeys:", HelpStyle::Heading);
        push_help(v, "  j / k / ↑ / ↓     - Navigate commits", HelpStyle::Plain);
        push_help(v, "  g t               - Next commit", HelpStyle::Plain);
        push_help(v, "  g T               - Previous commit", HelpStyle::Plain);
        push_help(v, "  Enter             - Select commit", HelpStyle::Plain);
        push_help(v, "  Esc               - Exit commit picker", HelpStyle::Plain);
        push_help(v, "  Ctrl+P            - Enter commit picker mode", HelpStyle::Plain);
        push_help(v, "  Ctrl+W            - Return to working directory", HelpStyle::Plain);
    } else {
        match last_active {
            ActivePane::FileTree => {
                push_help(v, "File Tree Hotkeys:", HelpStyle::Heading);
                push_help(v, "  Tab / g t / Right - Next file", HelpStyle::Plain);
                push_help(v, "  Shift+Tab / g T / Left - Previous file", HelpStyle::Plain);
            },
            ActivePane::Monitor => {
                push_help(v, "Monitor Hotkeys:", HelpStyle::Heading);
                push_help(v, "  Alt+j / Alt+Down  - Scroll down", HelpStyle::Plain);
                push_help(v, "  Alt+k / Alt+Up    - Scroll up", HelpStyle::Plain);
            },
            _ => {
                push_help(v, "Diff View Hotkeys:", HelpStyle::Heading);
                push_help(v, "  j / Down / Ctrl+e - Scroll down", HelpStyle::Plain);
                push_help(v, "  k / Up / Ctrl+y   - Scroll up", HelpStyle::Plain);
                push_help(v, "  Right             - Next file", HelpStyle::Plain);
                push_help(v, "  Left              - Previous file", HelpStyle::Plain);
                push_help(v, "  PageDown          - Page down", HelpStyle::Plain);
                push_help(v, "  PageUp            - Page up", HelpStyle::Plain);
                push_help(v, "  g g               - Go to top", HelpStyle::Plain);
                push_help(v, "  Shift+G           - Go to bottom", HelpStyle::Plain);
            },
        }
    }
    proof {
        assert(help_view(v@) =~= start + pane_hotkeys(in_picker, last_active));
    }
}

impl HelpPane {
    /// The help text: the title, the hotkeys of the pane in use (or of the
    /// commit picker in its mode), the general hotkeys with Ctrl+P outside
    /// commit picker mode and Ctrl+W while a commit is selected, and the pane
    /// modes.
    pub fn help_lines(in_picker: bool, last_active: ActivePane, has_selected_commit: bool) -> (r: Vec<HelpLine>)
        ensures
            help_view(r@) == help_content(in_picker, last_active, has_selected_commit),
    {
        let mut v: Vec<HelpLine> = Vec::new();
        push_help(&mut v, "Git Repository Watcher - Help", HelpStyle::Title);
        push_help(&mut v, "", HelpStyle::Plain);
        let ghost head = help_view(v@);
        push_hotkeys(&mut v, in_picker, last_active);
        let ghost with_keys = help_view(v@);
        push_help(&mut v, "", HelpStyle::Plain);
        push_help(&mut v, "General:", HelpStyle::Heading);
        push_help(&mut v, "  ?             - Show/hide this help page", HelpStyle::Plain);
        push_help(&mut v, "  Esc           - Exit help page", HelpStyle::Plain);
        push_help(&mut v, "  Ctrl+h        - Toggle diff panel visibility", HelpStyle::Plain);
        push_help(&mut v, "  Ctrl+o        - Toggle monitor pane visibility", HelpStyle::Plain);
        push_help(&mut v, "  Ctrl+t        - Toggle light/dark theme", HelpStyle::Plain);
        push_help(&mut v, "  q / Ctrl+c    - Quit application", HelpStyle::Plain);
        let ghost general = help_view(v@);
        if !in_picker {
            push_help(&mut v, "  Ctrl+P        - Enter commit picker mode", HelpStyle::Plain);
        }
        let ghost with_p = help_view(v@);
        if has_selected_commit {
            push_help(&mut v, "  Ctrl+W        - Return to working directory", HelpStyle::Plain);
        }
        let ghost with_w = help_view(v@);
        push_help(&mut v, "", HelpStyle::Plain);
        push_help(&mut v, "Pane Modes:", HelpStyle::Heading);
        push_help(&mut v, "  Ctrl+d        - Switch to inline diff view", HelpStyle::Plain);
        push_help(&mut v, "  Ctrl+s        - Switch to side-by-side diff view", HelpStyle::Plain);
        push_help(&mut v, "", HelpStyle::Plain);
        push_help(&mut v, "Press ? or Esc to return to the previous pane", HelpStyle::Plain);
        proof {
            let title = seq![("Git Repository Watcher - Help"@, HelpStyle::Title), plain(""@)];
            assert(head =~= title);
            let g = seq![
                plain(""@),
                ("General:"@, HelpStyle::Heading),
                plain("  ?             - Show/hide this help page"@),
                plain("  Esc           - Exit help page"@),
                plain("  Ctrl+h        - Toggle diff panel visibility"@),
                plain("  Ctrl+o        - Toggle monitor pane visibility"@),
                plain("  Ctrl+t        - Toggle light/dark theme"@),
                plain("  q / Ctrl+c    - Quit application"@),
            ];
            assert(general =~= with_keys + g);
            let p = if !in_picker {
                seq![plain("  Ctrl+P        - Enter commit picker mode"@)]
            } else {
                Seq::empty()
            };
            assert(with_p =~= general + p);
            let w = if has_selected_commit {
                seq![plain("  Ctrl+W        - Return to working directory"@)]
            } else {
                Seq::empty()
            };
            assert(with_w =~= with_p + w);
            let tail = seq![
                plain(""@),
                ("Pane Modes:"@, HelpStyle::Heading),
                plain("  Ctrl+d        - Switch to inline diff view"@),
                plain("  Ctrl+s        - Switch to side-by-side diff view"@),
                plain(""@),
                plain("Press ? or Esc to return to the previous pane"@),
            ];
            assert(help_view(v@) =~= with_w + tail);
            assert(help_view(v@) =~= help_content(in_picker, last_active, has_selected_commit));
        }
        v
    }
}

} // verus!
