//! What the player is shown, line by line.
//!
//! Every item of output is one line for the caller to print with a line
//! break after it. A scene is shown as its description, an empty line, the
//! options on offer with their numbers, and another empty line; a scene that
//! offers nothing is followed by the farewell instead.

use vstd::prelude::*;
use vstd::string::*;
use crate::describe::select_text;
use crate::options::visible_options;
use crate::scene::{option_views, OptionView, Scene, SceneID, SceneOption, SceneView};
use crate::text::{decimal, decimal_string, line_views};

verus! {

/// What the player reads when the story is over.
pub const FAREWELL: &'static str = "Thanks for playing!\nShutting down...";

/// What the player reads, without a line break after it, before typing.
pub const PROMPT: &'static str = "Choose an option: ";

/// What stands between an option's number and its text.
pub const NUMBER_MARK: &'static str = ": ";

/// What ends the narration of a choice: an empty line follows it.
pub const PARAGRAPH_END: &'static str = "\n";

/// How the notice for a number that names no option begins.
pub const RANGE_HELP_HEAD: &'static str =
    "Sorry, there is no option with that tag.\nPlease choose an option from 1 to ";

/// How that notice ends.
pub const RANGE_HELP_TAIL: &'static str = ".\n";

/// How the notice for a line that is no number begins.
pub const FORMAT_HELP_HEAD: &'static str =
    "Could not read response. Please type a number from 1 to ";

/// How that notice ends.
pub const FORMAT_HELP_TAIL: &'static str = " to choose an option, or type 'Q' to quit.\n";

/// How the notice for an option that leads nowhere begins.
pub const UNKNOWN_SCENE_HEAD: &'static str = "there is no scene with tag ";

/// The line that offers `option` as the one at zero-based place `index`.
pub open spec fn option_line_text(index: nat, option: OptionView) -> Seq<char> {
    decimal(index + 1) + NUMBER_MARK@ + option.text
}

/// The lines that offer `options`, numbered from 1.
pub open spec fn option_lines(options: Seq<OptionView>) -> Seq<Seq<char>> {
    Seq::new(options.len(), |i: int| option_line_text(i as nat, options[i]))
}

/// The narration of having chosen `option`.
pub open spec fn resolution_text(option: OptionView) -> Seq<char> {
    option.text_when_chosen + PARAGRAPH_END@
}

/// The notice for a number that names none of `optcount` options.
pub open spec fn range_help_text(optcount: nat) -> Seq<char> {
    RANGE_HELP_HEAD@ + decimal(optcount) + RANGE_HELP_TAIL@
}

/// The notice for a line that is no number, with `optcount` options on
/// offer.
pub open spec fn format_help_text(optcount: nat) -> Seq<char> {
    FORMAT_HELP_HEAD@ + decimal(optcount) + FORMAT_HELP_TAIL@
}

/// The notice for an option that leads to the missing scene `tag`.
pub open spec fn unknown_scene_text(tag: Seq<char>) -> Seq<char> {
    UNKNOWN_SCENE_HEAD@ + tag
}

/// Everything shown on arriving in `scene` at `sanity`.
pub open spec fn scene_lines(scene: SceneView, sanity: int) -> Seq<Seq<char>> {
    let options = visible_options(scene.options, sanity);
    let head = seq![select_text(scene, sanity), Seq::<char>::empty()];
    if options.len() == 0 {
        head + seq![FAREWELL@]
    } else {
        head + option_lines(options) + seq![Seq::<char>::empty()]
    }
}

/// Writes the line that offers `option` at zero-based place `index`.
pub fn option_line(index: usize, option: &SceneOption) -> (res: String)
    requires
        index < usize::MAX,
    ensures
        res@ == option_line_text(index as nat, option@),
{
    let mut res = decimal_string(index + 1);
    res.append(NUMBER_MARK);
    res.append(option.text.as_str());
    res
}

/// Writes the narration of having chosen `option`.
pub fn resolution(option: &SceneOption) -> (res: String)
    ensures
        res@ == resolution_text(option@),
{
    let mut res = option.text_when_chosen.clone();
    res.append(PARAGRAPH_END);
    res
}

/// Writes the notice for a number that names none of `optcount` options.
pub fn range_help(optcount: usize) -> (res: String)
    ensures
        res@ == range_help_text(optcount as nat),
{
    let mut res = String::from_str(RANGE_HELP_HEAD);
    res.append(decimal_string(optcount).as_str());
    res.append(RANGE_HELP_TAIL);
    res
}

/// Writes the notice for a line that is no number.
pub fn format_help(optcount: usize) -> (res: String)
    ensures
        res@ == format_help_text(optcount as nat),
{
    let mut res = String::from_str(FORMAT_HELP_HEAD);
    res.append(decimal_string(optcount).as_str());
    res.append(FORMAT_HELP_TAIL);
    res
}

/// Writes the notice for an option that leads to the missing scene `tag`.
pub fn unknown_scene(tag: &SceneID) -> (res: String)
    ensures
        res@ == unknown_scene_text(tag@),
{
    let mut res = String::from_str(UNKNOWN_SCENE_HEAD);
    res.append(tag.as_str());
    res
}

/// Writes everything shown on arriving in `scene` at `sanity`, and says how
/// many options are on offer there.
pub fn present(scene: &Scene, sanity: i32) -> (res: (Vec<String>, usize))
    ensures
        line_views(res.0@) == scene_lines(scene@, sanity as int),
        res.1 == visible_options(scene@.options, sanity as int).len(),
{
    let options = scene.visible_options(sanity);
    let ghost shown = visible_options(scene@.options, sanity as int);
    let n: usize = options.len();
    assert(n == option_views(options@).len());
    let mut lines: Vec<String> = Vec::new();
    lines.push(scene.select(sanity));
    lines.push(String::new());
    let ghost head = seq![select_text(scene@, sanity as int), Seq::<char>::empty()];
    if n == 0 {
        lines.push(String::from_str(FAREWELL));
        return (lines, n);
    }
    let mut i: usize = 0;
    while i < n
        invariant
            i <= n,
            n == options@.len(),
            option_views(options@) == shown,
            line_views(lines@) == head + option_lines(shown).subrange(0, i as int),
        decreases n - i,
    {
        let ghost before = line_views(lines@);
        lines.push(option_line(i, &options[i]));
        proof {
            assert(line_views(lines@) =~= before.push(option_line_text(i as nat, shown[i as int])));
            assert(option_lines(shown).subrange(0, i + 1) =~= option_lines(shown).subrange(
                0,
                i as int,
            ).push(option_line_text(i as nat, shown[i as int])));
        }
        i += 1;
    }
    let ghost listed = line_views(lines@);
    lines.push(String::new());
    proof {
        assert(line_views(lines@) =~= listed.push(Seq::<char>::empty()));
    }
    (lines, n)
}

} // verus!
