use scene_engine::catalog::Catalog;
use scene_engine::render::{
    format_help, option_line, present, range_help, resolution, unknown_scene, FAREWELL, PROMPT,
};
use scene_engine::scene::{Desc, Scene, SceneID, SceneOption};
use scene_engine::session::{Session, Status};

fn id(name: &str) -> SceneID {
    SceneID(name.to_string())
}

fn desc(text: &str, min_san: i32) -> Desc {
    Desc { text: text.to_string(), min_san }
}

fn option(to: &str, text: &str, chosen: &str, min: i32, max: i32, change: i32) -> SceneOption {
    SceneOption {
        to_scene: id(to),
        text: text.to_string(),
        text_when_chosen: chosen.to_string(),
        min_san: min,
        max_san: max,
        san_change: change,
    }
}

fn scene(tag: &str, descs: Vec<Desc>, options: Vec<SceneOption>) -> Scene {
    Scene { tag: id(tag), descs, options }
}

fn begin(scenes: Vec<Scene>) -> (Session, Vec<String>) {
    Session::start(Catalog::build(scenes).unwrap())
}

fn waking_story() -> Vec<Scene> {
    vec![
        scene(
            "start",
            vec![desc("You wake up.", 0)],
            vec![option("end", "Leave", "You leave.", 0, 100, -10)],
        ),
        scene("end", vec![desc("The end.", 0)], vec![]),
    ]
}

fn house() -> Vec<Scene> {
    vec![
        scene(
            "hall",
            vec![desc("A bright hall.", 60), desc("A dim hall.", 0)],
            vec![
                option("cellar", "Go down", "You descend.", 0, 100, -45),
                option("hall", "Rest", "You rest.", 0, 99, 20),
                option("garden", "Go out", "You step out.", 90, 100, 0),
                option("roof", "Climb", "You climb.", 0, 100, -5),
            ],
        ),
        scene(
            "cellar",
            vec![desc("A damp cellar.", 50), desc("A crawling cellar.", 0)],
            vec![
                option("hall", "Go up", "You go up.", 0, 100, 0),
                option("cellar", "Listen", "You listen.", 0, 100, -30),
            ],
        ),
        scene("garden", vec![desc("Roses.", 0)], vec![option("hall", "Back", "", 101, 200, 0)]),
    ]
}

#[test]
fn the_texts_shown_around_a_story() {
    assert_eq!(FAREWELL, "Thanks for playing!\nShutting down...");
    assert_eq!(PROMPT, "Choose an option: ");
    assert_eq!(range_help(3), "Sorry, there is no option with that tag.\nPlease choose an option from 1 to 3.\n");
    assert_eq!(
        format_help(12),
        "Could not read response. Please type a number from 1 to 12 to choose an option, or type 'Q' to quit.\n"
    );
    assert_eq!(unknown_scene(&id("attic")), "there is no scene with tag attic");
    let leave = option("end", "Leave", "You leave.", 0, 100, -10);
    assert_eq!(option_line(0, &leave), "1: Leave");
    assert_eq!(option_line(9, &leave), "10: Leave");
    assert_eq!(resolution(&leave), "You leave.\n");
}

#[test]
fn a_scene_is_shown_with_numbered_options() {
    let (lines, optcount) = present(&house()[0], 100);
    assert_eq!(lines, vec!["A bright hall.", "", "1: Go down", "2: Go out", "3: Climb", ""]);
    assert_eq!(optcount, 3);
    let (lines, optcount) = present(&house()[0], 59);
    assert_eq!(lines, vec!["A dim hall.", "", "1: Go down", "2: Rest", "3: Climb", ""]);
    assert_eq!(optcount, 3);
    let (lines, optcount) = present(&house()[2], 100);
    assert_eq!(lines, vec!["Roses.", "", FAREWELL]);
    assert_eq!(optcount, 0);
}

#[test]
fn waking_up_and_leaving() {
    let (session, shown) = begin(waking_story());
    assert_eq!(shown, vec!["You wake up.", "", "1: Leave", ""]);
    assert_eq!(session.status(), Status::Running);
    assert_eq!(session.state().sanity, 100);
    assert_eq!(session.state().scene_tag, id("start"));
    assert_eq!(session.state().scene_i, 0);
    let (session, shown) = session.feed("1\n");
    assert_eq!(shown, vec!["You leave.\n", "The end.", "", FAREWELL]);
    assert_eq!(session.state().sanity, 90);
    assert_eq!(session.state().scene_tag, id("end"));
    assert_eq!(session.status(), Status::EndedNormally);
}

#[test]
fn a_scene_that_offers_nothing_ends_the_story() {
    let scenes = vec![
        scene(
            "ledge",
            vec![desc("A ledge.", 0)],
            vec![option("dark", "Jump", "You jump.", 0, 100, -90)],
        ),
        scene(
            "dark",
            vec![desc("Darkness.", 0)],
            vec![
                option("ledge", "Climb", "You climb.", 80, 100, 0),
                option("ledge", "Fly", "You fly.", 80, 100, 0),
            ],
        ),
    ];
    let (session, _) = begin(scenes);
    let (session, shown) = session.feed("1");
    assert_eq!(session.state().sanity, 10);
    assert_eq!(session.status(), Status::EndedNormally);
    assert_eq!(shown, vec!["You jump.\n", "Darkness.", "", FAREWELL]);
    let (session, shown) = session.feed("1");
    assert_eq!(session.status(), Status::EndedNormally);
    assert!(shown.is_empty());
    assert_eq!(session.state().sanity, 10);
}

#[test]
fn a_story_can_end_before_the_first_line() {
    let (session, shown) = begin(vec![scene("alone", vec![desc("Nothing here.", 0)], vec![])]);
    assert_eq!(session.status(), Status::EndedNormally);
    assert_eq!(shown, vec!["Nothing here.", "", FAREWELL]);
    assert_eq!(session.state().sanity, 100);
}

#[test]
fn bad_lines_are_answered_and_change_nothing() {
    let (session, _) = begin(waking_story());
    let (session, shown) = session.feed("abc\n");
    assert_eq!(shown, vec![format_help(1)]);
    assert_eq!(session.status(), Status::Running);
    assert_eq!((session.state().sanity, session.state().scene_i), (100, 0));
    let (session, shown) = session.feed("999\n");
    assert_eq!(shown, vec![range_help(1)]);
    assert_eq!(session.status(), Status::Running);
    assert_eq!((session.state().sanity, session.state().scene_i), (100, 0));
    let (session, shown) = session.feed("1\n");
    assert_eq!(shown[0], "You leave.\n");
    assert_eq!((session.state().sanity, session.state().scene_i), (90, 1));
}

#[test]
fn quitting_ends_the_session_and_leaves_the_state() {
    for line in ["q", "Q", "  q  \n", "\tQ\r\n"] {
        let (session, _) = begin(house());
        let (session, _) = session.feed("1");
        assert_eq!(session.state().sanity, 55);
        let (session, shown) = session.feed(line);
        assert_eq!(session.status(), Status::EndedByQuit);
        assert_eq!(shown, vec![FAREWELL]);
        assert_eq!(session.state().sanity, 55);
        assert_eq!(session.state().scene_tag, id("cellar"));
        assert_eq!(session.state().scene_i, 1);
        let (session, shown) = session.feed("1");
        assert_eq!(session.status(), Status::EndedByQuit);
        assert!(shown.is_empty());
        assert_eq!(session.state().sanity, 55);
    }
}

#[test]
fn a_missing_scene_ends_the_session_with_a_diagnostic() {
    let scenes = vec![scene(
        "start",
        vec![desc("You wake up.", 0)],
        vec![option("missing_scene", "Fall", "You fall.", 0, 100, -10)],
    )];
    let (session, shown) = begin(scenes);
    assert_eq!(shown, vec!["You wake up.", "", "1: Fall", ""]);
    let (session, shown) = session.feed("1");
    assert_eq!(session.status(), Status::EndedByFatalError);
    assert_eq!(shown, vec!["You fall.\n", "there is no scene with tag missing_scene"]);
    assert_eq!(session.state().sanity, 100);
    assert_eq!(session.state().scene_tag, id("start"));
    let (session, shown) = session.feed("1");
    assert_eq!(session.status(), Status::EndedByFatalError);
    assert!(shown.is_empty());
}

#[test]
fn numbers_pick_among_the_options_on_offer() {
    let (session, shown) = begin(house());
    assert_eq!(shown, vec!["A bright hall.", "", "1: Go down", "2: Go out", "3: Climb", ""]);
    let (session, shown) = session.feed("4");
    assert_eq!(shown, vec![range_help(3)]);
    let (session, shown) = session.feed("0");
    assert_eq!(shown, vec![range_help(3)]);
    let (session, shown) = session.feed("3");
    assert_eq!(
        shown,
        vec!["You climb.\n", "there is no scene with tag roof"]
    );
    assert_eq!(session.status(), Status::EndedByFatalError);
    let (session, _) = begin(house());
    let (session, shown) = session.feed("2");
    assert_eq!(shown, vec!["You step out.\n", "Roses.", "", FAREWELL]);
    assert_eq!(session.status(), Status::EndedNormally);
    assert_eq!(session.state().scene_tag, id("garden"));
}

#[test]
fn sanity_stays_between_its_bounds_through_a_long_game() {
    let (mut session, _) = begin(house());
    let lines = ["1", "2", "2", "2", "2", "1", "2", "2", "2", "1", "2", "2", "2", "x", "9", "1"];
    let expected = [55, 25, 0, 0, 0, 0, 20, 40, 60, 15, 0, 0, 0, 0, 0, 0];
    for (line, sanity) in lines.iter().zip(expected.iter()) {
        let (next, _) = session.feed(line);
        session = next;
        assert_eq!(session.state().sanity, *sanity);
        assert!(0 <= session.state().sanity && session.state().sanity <= 100);
        assert_eq!(session.status(), Status::Running);
        assert_eq!(session.catalog().scenes()[session.state().scene_i].tag, session.state().scene_tag);
    }
}

#[test]
fn what_is_shown_follows_sanity() {
    let (session, _) = begin(house());
    let (session, shown) = session.feed("1");
    assert_eq!(shown, vec!["You descend.\n", "A damp cellar.", "", "1: Go up", "2: Listen", ""]);
    let (session, shown) = session.feed("2");
    assert_eq!(
        shown,
        vec!["You listen.\n", "A crawling cellar.", "", "1: Go up", "2: Listen", ""]
    );
    let (session, shown) = session.feed("1");
    assert_eq!(
        shown,
        vec!["You go up.\n", "A dim hall.", "", "1: Go down", "2: Rest", "3: Climb", ""]
    );
    assert_eq!(session.state().sanity, 25);
    assert_eq!(session.catalog().len(), 3);
}
