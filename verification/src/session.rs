//! A story being played, one line of input at a time.
//!
//! A session shows the scene that the player stands in and then waits for a
//! line. Each line either ends the session, is answered with a notice and
//! leaves everything as it was, or plays a turn and shows the scene that the
//! player arrives in. A session that has ended stays ended, whatever it is
//! fed.

use vstd::prelude::*;
use vstd::string::*;
use crate::catalog::{has_tag, Catalog};
use crate::input::{classify, parse_choice, trimmed, PlayerChoice};
use crate::options::{get_valid_options_list, visible_options};
use crate::render::{
    format_help, format_help_text, present, range_help, range_help_text, resolution,
    resolution_text, scene_lines, unknown_scene_text, FAREWELL,
};
use crate::scene::{option_views, OptionView, SceneView};
use crate::state::{Gamestate, GamestateView, START_SAN};
use crate::text::line_views;
use crate::transition::{apply, lemma_moved, moved};

verus! {

/// Whether a session goes on, or how it ended.
#[derive(Clone, Copy, Debug, PartialEq, Eq, Structural)]
pub enum Status {
    /// The session waits for the player's next line.
    Running,
    /// The player reached a scene that offers nothing.
    EndedNormally,
    /// The player asked to stop.
    EndedByQuit,
    /// The player chose an option that leads to no scene.
    EndedByFatalError,
}

/// A story being played.
#[derive(Debug)]
pub struct Session {
    catalog: Catalog,
    state: Gamestate,
    status: Status,
}

/// What a session is, as mathematics.
pub struct SessionView {
    pub catalog: Seq<SceneView>,
    pub state: GamestateView,
    pub status: Status,
}

/// The options on offer to a player who stands at `state`.
pub open spec fn options_at(catalog: Seq<SceneView>, state: GamestateView) -> Seq<OptionView> {
    visible_options(catalog[state.scene_i as int].options, state.sanity)
}

/// The session of a player who has just arrived at `state`, and what the
/// player is shown there. A scene that offers nothing ends the session.
pub open spec fn arrival(catalog: Seq<SceneView>, state: GamestateView) -> (SessionView, Seq<
    Seq<char>,
>) {
    let status = if options_at(catalog, state).len() == 0 {
        Status::EndedNormally
    } else {
        Status::Running
    };
    (
        SessionView { catalog, state, status },
        scene_lines(catalog[state.scene_i as int], state.sanity),
    )
}

/// Where a story begins: in the first scene, with sanity at its starting
/// value.
pub open spec fn first_state(catalog: Seq<SceneView>) -> GamestateView {
    GamestateView { scene_tag: catalog[0].tag, scene_i: 0, sanity: START_SAN as int }
}

/// The session after it is fed `line`, and what the player is shown in
/// answer.
pub open spec fn after_line(session: SessionView, line: Seq<char>) -> (SessionView, Seq<
    Seq<char>,
>) {
    let options = options_at(session.catalog, session.state);
    if session.status != Status::Running {
        (session, Seq::empty())
    } else {
        match classify(line, options.len()) {
            PlayerChoice::Quit => (
                SessionView { status: Status::EndedByQuit, ..session },
                seq![FAREWELL@],
            ),
            PlayerChoice::BadFormat => (session, seq![format_help_text(options.len())]),
            PlayerChoice::OutOfRange => (session, seq![range_help_text(options.len())]),
            PlayerChoice::Chosen(i) => {
                let chosen = options[i as int];
                match moved(session.catalog, session.state, chosen) {
                    None => (
                        SessionView { status: Status::EndedByFatalError, ..session },
                        seq![resolution_text(chosen), unknown_scene_text(chosen.to_scene)],
                    ),
                    Some(next) => {
                        let (arrived, shown) = arrival(session.catalog, next);
                        (arrived, seq![resolution_text(chosen)] + shown)
                    },
                }
            },
        }
    }
}

/// A session that has ended stays as it is and shows nothing more,
/// whatever it is fed.
pub proof fn lemma_ended_stays_ended(session: SessionView, line: Seq<char>)
    requires
        session.status != Status::Running,
    ensures
        after_line(session, line) == (session, Seq::<Seq<char>>::empty()),
{
}

/// The quit keyword ends a running session, whatever is on offer: the
/// player is shown the farewell and stands where they stood, as sane as
/// they were.
pub proof fn lemma_quit_ends_session(session: SessionView, line: Seq<char>)
    requires
        session.status == Status::Running,
        trimmed(line) == seq!['q'] || trimmed(line) == seq!['Q'],
    ensures
        after_line(session, line).0.status == Status::EndedByQuit,
        after_line(session, line).0.state == session.state,
        after_line(session, line).0.catalog == session.catalog,
        after_line(session, line).1 == seq![FAREWELL@],
{
}

/// A line that is no number, or a number that names no option, is answered
/// with a notice and changes nothing.
pub proof fn lemma_rejected_line_changes_nothing(session: SessionView, line: Seq<char>)
    requires
        session.status == Status::Running,
        classify(line, options_at(session.catalog, session.state).len())
            == PlayerChoice::BadFormat || classify(
            line,
            options_at(session.catalog, session.state).len(),
        ) == PlayerChoice::OutOfRange,
    ensures
        after_line(session, line).0 == session,
        after_line(session, line).1.len() == 1,
{
}

/// An option that leads to no scene of the catalog ends the session with a
/// fatal error. The player is told the name that was not found, and the
/// state is left as it was before the turn.
pub proof fn lemma_unknown_destination_is_fatal(session: SessionView, line: Seq<char>, i: usize)
    requires
        session.status == Status::Running,
        classify(line, options_at(session.catalog, session.state).len())
            == PlayerChoice::Chosen(i),
        !has_tag(session.catalog, options_at(session.catalog, session.state)[i as int].to_scene),
    ensures
        after_line(session, line).0.status == Status::EndedByFatalError,
        after_line(session, line).0.state == session.state,
        after_line(session, line).1.last() == unknown_scene_text(
            options_at(session.catalog, session.state)[i as int].to_scene,
        ),
{
    lemma_moved(
        session.catalog,
        session.state,
        options_at(session.catalog, session.state)[i as int],
    );
}

/// Sanity never leaves its band: if it lies between the bounds before a
/// line is fed, it does so afterwards.
pub proof fn lemma_sanity_stays_in_band(session: SessionView, line: Seq<char>)
    requires
        session.state.in_band(),
    ensures
        after_line(session, line).0.state.in_band(),
{
    if session.status == Status::Running {
        let options = options_at(session.catalog, session.state);
        match classify(line, options.len()) {
            PlayerChoice::Chosen(i) => {
                lemma_moved(session.catalog, session.state, options[i as int]);
            },
            _ => {},
        }
    }
}

/// A session goes on only where something is on offer: a line that leaves
/// the session running leaves the player in a scene of the catalog with at
/// least one option to choose.
pub proof fn lemma_running_offers_something(session: SessionView, line: Seq<char>)
    requires
        session.status == Status::Running,
        session.state.points_into(session.catalog),
        options_at(session.catalog, session.state).len() > 0,
    ensures
        after_line(session, line).0.status == Status::Running ==> {
            &&& after_line(session, line).0.state.points_into(session.catalog)
            &&& options_at(session.catalog, after_line(session, line).0.state).len() > 0
        },
{
    let options = options_at(session.catalog, session.state);
    match classify(line, options.len()) {
        PlayerChoice::Chosen(i) => {
            lemma_moved(session.catalog, session.state, options[i as int]);
        },
        _ => {},
    }
}

impl View for Session {
    type V = SessionView;

    closed spec fn view(&self) -> SessionView {
        SessionView { catalog: self.catalog@, state: self.state@, status: self.status }
    }
}

impl Session {
    /// What holds of every session: sanity lies between its bounds, and a
    /// session that goes on stands in a scene of its catalog that offers
    /// something.
    #[verifier::type_invariant]
    closed spec fn sound(&self) -> bool {
        &&& self.state@.in_band()
        &&& self.status == Status::Running ==> {
            &&& self.state@.points_into(self.catalog@)
            &&& options_at(self.catalog@, self.state@).len() > 0
        }
    }

    /// Begins the story that `catalog` tells, and says what the player is
    /// shown first.
    pub fn start(catalog: Catalog) -> (res: (Session, Vec<String>))
        requires
            catalog@.len() > 0,
        ensures
            res.0@ == arrival(catalog@, first_state(catalog@)).0,
            line_views(res.1@) == arrival(catalog@, first_state(catalog@)).1,
    {
        let state = Gamestate {
            scene_tag: catalog.first_scene_id().clone(),
            scene_i: 0,
            sanity: START_SAN,
        };
        Session::arrive(catalog, state)
    }

    /// The session of a player who has just arrived at `state`.
    fn arrive(catalog: Catalog, state: Gamestate) -> (res: (Session, Vec<String>))
        requires
            state@.in_band(),
            state@.points_into(catalog@),
        ensures
            res.0@ == arrival(catalog@, state@).0,
            line_views(res.1@) == arrival(catalog@, state@).1,
    {
        let (lines, optcount) = present(&catalog.scenes()[state.scene_i], state.sanity);
        let status = if optcount == 0 {
            Status::EndedNormally
        } else {
            Status::Running
        };
        (Session { catalog, state, status }, lines)
    }

    /// Whether the session goes on, or how it ended.
    pub fn status(&self) -> (res: Status)
        ensures
            res == self@.status,
    {
        self.status
    }

    /// Where the player stands. In a session that goes on, that is a scene
    /// of the catalog; sanity always lies between its bounds.
    pub fn state(&self) -> (res: &Gamestate)
        ensures
            res@ == self@.state,
            res@.in_band(),
            self@.status == Status::Running ==> res@.points_into(self@.catalog),
    {
        proof {
            use_type_invariant(self);
        }
        &self.state
    }

    /// The story that is being played.
    pub fn catalog(&self) -> (res: &Catalog)
        ensures
            res@ == self@.catalog,
    {
        &self.catalog
    }

    /// Feeds the session one line of input, and says what the player is
    /// shown in answer.
    pub fn feed(self, line: &str) -> (res: (Session, Vec<String>))
        ensures
            res.0@ == after_line(self@, line@).0,
            line_views(res.1@) == after_line(self@, line@).1,
    {
        proof {
            use_type_invariant(&self);
        }
        let Session { catalog, state, status } = self;
        match status {
            Status::Running => {},
            _ => {
                return (Session { catalog, state, status }, Vec::new());
            },
        }
        let options = get_valid_options_list(catalog.scenes(), &state);
        let optcount: usize = options.len();
        assert(optcount == option_views(options@).len());
        let mut lines: Vec<String> = Vec::new();
        match parse_choice(line, optcount) {
            PlayerChoice::Quit => {
                lines.push(String::from_str(FAREWELL));
                (Session { catalog, state, status: Status::EndedByQuit }, lines)
            },
            PlayerChoice::BadFormat => {
                lines.push(format_help(optcount));
                (Session { catalog, state, status }, lines)
            },
            PlayerChoice::OutOfRange => {
                lines.push(range_help(optcount));
                (Session { catalog, state, status }, lines)
            },
            PlayerChoice::Chosen(i) => {
                let chosen = &options[i];
                lines.push(resolution(chosen));
                match apply(&catalog, &state, chosen) {
                    Err(error) => {
                        lines.push(error.message());
                        assert(line_views(lines@) =~= seq![
                            resolution_text(chosen@),
                            unknown_scene_text(chosen@.to_scene),
                        ]);
                        (Session { catalog, state, status: Status::EndedByFatalError }, lines)
                    },
                    Ok(next) => {
                        let (session, mut shown) = Session::arrive(catalog, next);
                        lines.append(&mut shown);
                        (session, lines)
                    },
                }
            },
        }
    }
}

} // verus!
