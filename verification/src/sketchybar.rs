//! The status-bar bridge: turn each bridge subcommand into the exact
//! argument list for one invocation of the external bar tool, and apply its
//! one side effect on the session record. Running the tool is the caller's
//! business; this module only decides what is run.

use vstd::prelude::*;
use vstd::string::*;

use crate::colors::{Colors, ColorsView};
use crate::render::{update, update_spec};
use crate::state::State;
use crate::strutil::{lower_seq, push_char, to_lowercase};

verus! {

/// A bridge subcommand.
#[derive(Clone, Copy, Debug)]
pub enum SketchybarCommand {
    Load { icon: Option<char> },
    Unload,
    Update,
    Show,
    Hide,
}

/// The widget icon shown when none is chosen.
pub open spec fn icon_or_default(icon: Option<char>) -> char {
    match icon {
        Option::Some(c) => c,
        Option::None => '\u{f06ad}',
    }
}

/// The argument list that adds one popup menu entry: an item named after the
/// entry, labelled with it, that runs the given command line when clicked.
pub open spec fn popup_spec(name: Seq<char>, function: Seq<char>) -> Seq<Seq<char>> {
    let id = "pomo."@ + lower_seq(name);
    seq![
        "--add"@,
        "item"@,
        id,
        "popup.pomo"@,
        "--set"@,
        id,
        "label="@ + name,
        "click_script="@ + function,
    ]
}

/// The argument list that adds the widget itself, with its popup entries.
pub open spec fn load_args_spec(icon: char, colors: ColorsView) -> Seq<Seq<char>> {
    seq![
        "--add"@,
        "item"@,
        "pomo"@,
        "center"@,
        "--set"@,
        "pomo"@,
        "icon="@.push(icon),
        "update_freq=1"@,
        "updates=when_shown"@,
        "script=pomo sketchybar update"@,
        "click_script=sketchybar --set pomo popup.drawing=toggle"@,
        "label.align=left"@,
        "popup.blur_radius=50"@,
        "popup.align=center"@,
        "popup.horizontal=true"@,
        "popup.y_offset=3"@,
        "popup.blur_radius=5"@,
        "popup.background.border_color="@ + colors.transparent,
        "popup.background.color="@ + colors.popup_background,
    ] + popup_spec("Start"@, "pomo start"@) + popup_spec("Stop"@, "pomo sketchybar hide"@)
}

/// The argument list one bridge subcommand issues, and the record it leaves
/// behind.
pub open spec fn handler_spec(
    command: SketchybarCommand,
    s: State,
    now: u64,
    colors: ColorsView,
) -> (Seq<Seq<char>>, State) {
    match command {
        SketchybarCommand::Load { icon } => (load_args_spec(icon_or_default(icon), colors), s),
        SketchybarCommand::Unload => (seq!["--remove"@, "pomo"@], State::default_spec()),
        SketchybarCommand::Update => (
            seq!["--set"@, "pomo"@, "label="@ + update_spec(s, now)],
            s,
        ),
        SketchybarCommand::Show => (seq!["--set"@, "pomo"@, "drawing=on"@], s),
        SketchybarCommand::Hide => (
            seq!["--set"@, "pomo"@, "drawing=false"@, "popup.drawing=toggle"@],
            s,
        ),
    }
}

/// Build the argument list that adds one popup menu entry.
pub fn popup(name: &str, function: &str) -> (r: Vec<String>)
    ensures
        r.deep_view() == popup_spec(name@, function@),
{
    let mut id = String::from_str("pomo.");
    let lowered = to_lowercase(name);
    id.append(lowered.as_str());
    let mut out: Vec<String> = Vec::new();
    out.push(String::from_str("--add"));
    out.push(String::from_str("item"));
    out.push(id.clone());
    out.push(String::from_str("popup.pomo"));
    out.push(String::from_str("--set"));
    out.push(id);
    let mut label = String::from_str("label=");
    label.append(name);
    out.push(label);
    let mut click = String::from_str("click_script=");
    click.append(function);
    out.push(click);
    proof {
        assert(out.deep_view() =~~= popup_spec(name@, function@));
    }
    out
}

fn load_args(icon: Option<char>, colors: &Colors) -> (r: Vec<String>)
    ensures
        r.deep_view() == load_args_spec(icon_or_default(icon), colors@),
{
    let icon_char = match icon {
        Option::Some(c) => c,
        Option::None => '\u{f06ad}',
    };
    let mut out: Vec<String> = Vec::new();
    out.push(String::from_str("--add"));
    out.push(String::from_str("item"));
    out.push(String::from_str("pomo"));
    out.push(String::from_str("center"));
    out.push(String::from_str("--set"));
    out.push(String::from_str("pomo"));
    let mut icon_arg = String::from_str("icon=");
    push_char(&mut icon_arg, icon_char);
    out.push(icon_arg);
    out.push(String::from_str("update_freq=1"));
    out.push(String::from_str("updates=when_shown"));
    out.push(String::from_str("script=pomo sketchybar update"));
    out.push(String::from_str("click_script=sketchybar --set pomo popup.drawing=toggle"));
    out.push(String::from_str("label.align=left"));
    out.push(String::from_str("popup.blur_radius=50"));
    out.push(String::from_str("popup.align=center"));
    out.push(String::from_str("popup.horizontal=true"));
    out.push(String::from_str("popup.y_offset=3"));
    out.push(String::from_str("popup.blur_radius=5"));
    let mut border = String::from_str("popup.background.border_color=");
    border.append(colors.transparent.as_str());
    out.push(border);
    let mut background = String::from_str("popup.background.color=");
    background.append(colors.popup_background.as_str());
    out.push(background);
    let mut start_entry = popup("Start", "pomo start");
    out.append(&mut start_entry);
    let mut stop_entry = popup("Stop", "pomo sketchybar hide");
    out.append(&mut stop_entry);
    proof {
        assert(out.deep_view() =~~= load_args_spec(icon_or_default(icon), colors@));
    }
    out
}

/// Carry out one bridge subcommand: apply its effect on the record and hand
/// back the argument list for the one invocation of the bar tool.
pub fn sketchybar_handler(
    command: &SketchybarCommand,
    state: &mut State,
    now: u64,
    colors: &Colors,
) -> (args: Vec<String>)
    requires
        old(state).wf(),
    ensures
        final(state).wf(),
        (args.deep_view(), *final(state)) == handler_spec(*command, *old(state), now, colors@),
{
    match command {
        SketchybarCommand::Load { icon } => load_args(*icon, colors),
        SketchybarCommand::Unload => {
            state.reset();
            let mut out: Vec<String> = Vec::new();
            out.push(String::from_str("--remove"));
            out.push(String::from_str("pomo"));
            proof {
                assert(out.deep_view() =~~= seq!["--remove"@, "pomo"@]);
            }
            out
        },
        SketchybarCommand::Update => {
            let text = update(state, now);
            let mut label = String::from_str("label=");
            label.append(text.as_str());
            let mut out: Vec<String> = Vec::new();
            out.push(String::from_str("--set"));
            out.push(String::from_str("pomo"));
            out.push(label);
            proof {
                assert(out.deep_view() =~~= seq![
                    "--set"@,
                    "pomo"@,
                    "label="@ + update_spec(*state, now),
                ]);
            }
            out
        },
        SketchybarCommand::Show => {
            let mut out: Vec<String> = Vec::new();
            out.push(String::from_str("--set"));
            out.push(String::from_str("pomo"));
            out.push(String::from_str("drawing=on"));
            proof {
                assert(out.deep_view() =~~= seq!["--set"@, "pomo"@, "drawing=on"@]);
            }
            out
        },
        SketchybarCommand::Hide => {
            let mut out: Vec<String> = Vec::new();
            out.push(String::from_str("--set"));
            out.push(String::from_str("pomo"));
            out.push(String::from_str("drawing=false"));
            out.push(String::from_str("popup.drawing=toggle"));
            proof {
                assert(out.deep_view() =~~= seq![
                    "--set"@,
                    "pomo"@,
                    "drawing=false"@,
                    "popup.drawing=toggle"@,
                ]);
            }
            out
        },
    }
}

} // verus!
